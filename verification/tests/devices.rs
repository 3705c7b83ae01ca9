use block_storage::block_device::data_type::{DataBlock, BLOCK_SIZE};
use block_storage::block_device::error::DeviceError;
use block_storage::block_device::io_uring_fake_device::{IoUringFakeDevice, URING_SIZE};
use block_storage::block_device::simple_fake_device::SimpleFakeDevice;
use block_storage::block_device::BlockDevice;

fn numbered(n: u8) -> DataBlock {
    let mut block = DataBlock::filled(n);
    block.0[0] = n.wrapping_add(1);
    block.0[4095] = n.wrapping_add(2);
    block
}

fn run_of(first: u8, count: u8) -> Vec<DataBlock> {
    let mut blocks = Vec::new();
    for i in 0..count {
        blocks.push(numbered(first.wrapping_add(i)));
    }
    blocks
}

fn scenario<D: BlockDevice>(device: &mut D) {
    assert_eq!(device.info().name(), "dev0");
    assert_eq!(device.info().device_size(), 4096 * 100);
    assert_eq!(device.info().num_blocks(), 100);

    let five = vec![DataBlock::filled(0xAA); 5];
    assert_eq!(device.write(10, 5, five.clone()), Ok(()));
    assert_eq!(device.read(10, 5), Ok(five));
    assert_eq!(device.read(98, 5), Err(DeviceError::Range));
}

fn fresh_is_zero<D: BlockDevice>(device: &mut D) {
    let all = device.read(0, 100).unwrap();
    assert_eq!(all.len(), 100);
    assert!(all.iter().all(|b| *b == DataBlock::default()));
}

fn write_then_read<D: BlockDevice>(device: &mut D) {
    let cases: [(u64, u8); 6] = [(0, 1), (0, 100), (99, 1), (10, 5), (95, 5), (37, 20)];
    for (lba, count) in cases {
        let buffer = run_of(lba as u8, count);
        assert_eq!(device.write(lba, count as u64, buffer.clone()), Ok(()));
        let back = device.read(lba, count as u64).unwrap();
        assert_eq!(back.len(), count as usize);
        assert_eq!(back, buffer);
    }
}

fn write_leaves_the_rest<D: BlockDevice>(device: &mut D) {
    assert_eq!(device.write(0, 100, run_of(0, 100)), Ok(()));
    let before = device.read(0, 100).unwrap();
    let buffer = vec![DataBlock::filled(0xEE); 7];
    assert_eq!(device.write(40, 7, buffer.clone()), Ok(()));
    let after = device.read(0, 100).unwrap();
    for i in 0..100 {
        if 40 <= i && i < 47 {
            assert_eq!(after[i], buffer[i - 40]);
        } else {
            assert_eq!(after[i], before[i]);
        }
    }
}

fn bad_ranges_change_nothing<D: BlockDevice>(device: &mut D) {
    assert_eq!(device.write(0, 100, run_of(3, 100)), Ok(()));
    let before = device.read(0, 100).unwrap();

    assert_eq!(device.read(0, 0), Err(DeviceError::Range));
    assert_eq!(device.read(50, 0), Err(DeviceError::Range));
    assert_eq!(device.read(98, 5), Err(DeviceError::Range));
    assert_eq!(device.read(100, 1), Err(DeviceError::Range));
    assert_eq!(device.read(0, 101), Err(DeviceError::Range));
    assert_eq!(device.read(u64::MAX, 1), Err(DeviceError::Range));
    assert_eq!(device.read(u64::MAX, u64::MAX), Err(DeviceError::Range));
    assert_eq!(device.read(1, u64::MAX), Err(DeviceError::Range));

    let one = vec![DataBlock::filled(1)];
    assert_eq!(device.write(0, 0, Vec::new()), Err(DeviceError::Range));
    assert_eq!(device.write(0, 0, one.clone()), Err(DeviceError::Range));
    assert_eq!(
        device.write(98, 5, vec![DataBlock::filled(1); 5]),
        Err(DeviceError::Range)
    );
    assert_eq!(device.write(100, 1, one.clone()), Err(DeviceError::Range));
    assert_eq!(device.write(u64::MAX, 1, one.clone()), Err(DeviceError::Range));
    assert_eq!(device.write(u64::MAX, 2, one.clone()), Err(DeviceError::Range));

    assert_eq!(device.read(0, 100), Ok(before));
}

fn buffer_length_must_match<D: BlockDevice>(device: &mut D) {
    assert_eq!(device.write(0, 100, run_of(3, 100)), Ok(()));
    let before = device.read(0, 100).unwrap();

    assert_eq!(
        device.write(10, 5, vec![DataBlock::filled(1); 4]),
        Err(DeviceError::Range)
    );
    assert_eq!(
        device.write(10, 5, vec![DataBlock::filled(1); 6]),
        Err(DeviceError::Range)
    );
    assert_eq!(device.write(10, 5, Vec::new()), Err(DeviceError::Range));
    assert_eq!(
        device.write(99, 1, vec![DataBlock::filled(1); 2]),
        Err(DeviceError::Range)
    );

    assert_eq!(device.read(0, 100), Ok(before));
}

fn marker_is_stored_like_any_block<D: BlockDevice>(device: &mut D) {
    assert_eq!(device.write(5, 1, vec![DataBlock::unmapped()]), Ok(()));
    let back = device.read(4, 3).unwrap();
    assert!(!back[0].is_unmapped());
    assert!(back[1].is_unmapped());
    assert!(!back[2].is_unmapped());
}

#[test]
fn scenario_on_the_simple_device() {
    let mut device = SimpleFakeDevice::new("dev0".to_string(), 4096 * 100).unwrap();
    scenario(&mut device);
    assert_eq!(
        SimpleFakeDevice::new("dev0".to_string(), 500000).err(),
        Some(DeviceError::Alignment)
    );
}

#[test]
fn scenario_on_the_persistable_device() {
    let mut device = IoUringFakeDevice::new("dev0".to_string(), 4096 * 100).unwrap();
    scenario(&mut device);
    assert_eq!(
        IoUringFakeDevice::new("dev0".to_string(), 500000).err(),
        Some(DeviceError::Alignment)
    );
}

#[test]
fn fresh_devices_hold_zero_blocks() {
    fresh_is_zero(&mut SimpleFakeDevice::new("a".to_string(), 4096 * 100).unwrap());
    fresh_is_zero(&mut IoUringFakeDevice::new("a".to_string(), 4096 * 100).unwrap());
}

#[test]
fn write_then_read_returns_the_buffer() {
    write_then_read(&mut SimpleFakeDevice::new("a".to_string(), 4096 * 100).unwrap());
    write_then_read(&mut IoUringFakeDevice::new("a".to_string(), 4096 * 100).unwrap());
}

#[test]
fn write_does_not_touch_blocks_outside_the_range() {
    write_leaves_the_rest(&mut SimpleFakeDevice::new("a".to_string(), 4096 * 100).unwrap());
    write_leaves_the_rest(&mut IoUringFakeDevice::new("a".to_string(), 4096 * 100).unwrap());
}

#[test]
fn invalid_ranges_fail_and_change_nothing() {
    bad_ranges_change_nothing(&mut SimpleFakeDevice::new("a".to_string(), 4096 * 100).unwrap());
    bad_ranges_change_nothing(&mut IoUringFakeDevice::new("a".to_string(), 4096 * 100).unwrap());
}

#[test]
fn write_rejects_a_buffer_of_another_length() {
    buffer_length_must_match(&mut SimpleFakeDevice::new("a".to_string(), 4096 * 100).unwrap());
    buffer_length_must_match(&mut IoUringFakeDevice::new("a".to_string(), 4096 * 100).unwrap());
}

#[test]
fn unmapped_marker_round_trips() {
    marker_is_stored_like_any_block(
        &mut SimpleFakeDevice::new("a".to_string(), 4096 * 100).unwrap(),
    );
    marker_is_stored_like_any_block(
        &mut IoUringFakeDevice::new("a".to_string(), 4096 * 100).unwrap(),
    );
}

#[test]
fn is_valid_range_follows_the_device_capacity() {
    let simple = SimpleFakeDevice::new("a".to_string(), 4096 * 100).unwrap();
    let uring = IoUringFakeDevice::new("a".to_string(), 4096 * 100).unwrap();
    let cases: [(u64, u64, bool); 8] = [
        (0, 1, true),
        (10, 5, true),
        (95, 5, true),
        (0, 100, true),
        (0, 0, false),
        (98, 5, false),
        (100, 1, false),
        (u64::MAX, 1, false),
    ];
    for (lba, count, expected) in cases {
        assert_eq!(simple.is_valid_range(lba, count), expected);
        assert_eq!(uring.is_valid_range(lba, count), expected);
    }
}

#[test]
fn empty_device_accepts_no_range() {
    let mut simple = SimpleFakeDevice::new("empty".to_string(), 0).unwrap();
    let mut uring = IoUringFakeDevice::new("empty".to_string(), 0).unwrap();
    assert_eq!(simple.info().num_blocks(), 0);
    assert_eq!(uring.info().num_blocks(), 0);
    assert_eq!(simple.read(0, 1), Err(DeviceError::Range));
    assert_eq!(uring.read(0, 1), Err(DeviceError::Range));
    assert_eq!(simple.read(0, 0), Err(DeviceError::Range));
    assert_eq!(uring.write(0, 0, Vec::new()), Err(DeviceError::Range));
    assert_eq!(uring.flush(), Ok(Vec::new()));
    assert_eq!(uring.load(&[]), Ok(()));
}

#[test]
fn simple_device_keeps_no_image() {
    let mut device = SimpleFakeDevice::new("a".to_string(), 4096 * 4).unwrap();
    assert_eq!(device.write(0, 4, run_of(1, 4)), Ok(()));
    assert_eq!(device.flush(), Err(DeviceError::Unsupported));
    let image = vec![9u8; 4 * BLOCK_SIZE];
    assert_eq!(device.load(&image), Err(DeviceError::Unsupported));
    assert_eq!(device.load(&[]), Err(DeviceError::Unsupported));
    assert_eq!(device.read(0, 4), Ok(run_of(1, 4)));
}

#[test]
fn flush_gives_the_blocks_end_to_end() {
    let mut device = IoUringFakeDevice::new("a".to_string(), 4096 * 4).unwrap();
    assert_eq!(device.write(1, 2, run_of(20, 2)), Ok(()));
    let image = device.flush().unwrap();
    assert_eq!(image.len(), 4 * 4096);
    assert!(image[0..4096].iter().all(|b| *b == 0));
    assert_eq!(&image[4096..8192], &numbered(20).0[..]);
    assert_eq!(&image[8192..12288], &numbered(21).0[..]);
    assert!(image[12288..].iter().all(|b| *b == 0));
    assert_eq!(image[4096], 21);
    assert_eq!(image[4097], 20);
    assert_eq!(image[8191], 22);
    assert_eq!(device.read(0, 4).unwrap()[1], numbered(20));
}

#[test]
fn flush_then_load_reproduces_the_blocks() {
    let mut device = IoUringFakeDevice::new("a".to_string(), 4096 * 100).unwrap();
    assert_eq!(device.write(0, 100, run_of(5, 100)), Ok(()));
    let at_flush = device.read(0, 100).unwrap();
    let image = device.flush().unwrap();

    assert_eq!(device.write(0, 100, vec![DataBlock::unmapped(); 100]), Ok(()));
    assert_ne!(device.read(0, 100).unwrap(), at_flush);
    assert_eq!(device.load(&image), Ok(()));
    assert_eq!(device.read(0, 100), Ok(at_flush.clone()));

    let mut other = IoUringFakeDevice::new("b".to_string(), 4096 * 100).unwrap();
    assert_eq!(other.load(&image), Ok(()));
    assert_eq!(other.read(0, 100), Ok(at_flush));
    assert_eq!(other.flush(), Ok(image));
}

#[test]
fn load_reads_block_by_block_and_ignores_the_tail() {
    let mut image: Vec<u8> = Vec::new();
    for p in 0..(3 * 4096 + 100) {
        image.push((p % 253) as u8);
    }
    let mut device = IoUringFakeDevice::new("a".to_string(), 4096 * 3).unwrap();
    assert_eq!(device.load(&image), Ok(()));
    let blocks = device.read(0, 3).unwrap();
    for i in 0..3 {
        for j in 0..4096 {
            assert_eq!(blocks[i].0[j], ((i * 4096 + j) % 253) as u8);
        }
    }
    assert_eq!(device.flush().unwrap(), image[..3 * 4096].to_vec());
}

#[test]
fn load_of_a_short_image_fails_and_changes_nothing() {
    let mut device = IoUringFakeDevice::new("a".to_string(), 4096 * 3).unwrap();
    assert_eq!(device.write(0, 3, run_of(60, 3)), Ok(()));
    let short = vec![1u8; 3 * 4096 - 1];
    assert_eq!(device.load(&short), Err(DeviceError::Io));
    assert_eq!(device.load(&[]), Err(DeviceError::Io));
    assert_eq!(device.load(&short[..4096]), Err(DeviceError::Io));
    assert_eq!(device.read(0, 3), Ok(run_of(60, 3)));
    assert_eq!(device.info().num_blocks(), 3);
}

#[test]
fn queue_depth_is_eight() {
    assert_eq!(URING_SIZE, 8);
}
