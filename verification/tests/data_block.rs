use block_storage::block_device::data_type::{DataBlock, BLOCK_SIZE, UNMAP_BYTE};

#[test]
fn default_block_is_all_zero() {
    let block = DataBlock::default();
    assert_eq!(block.as_bytes().len(), 4096);
    assert!(block.as_bytes().iter().all(|b| *b == 0));
    assert_eq!(block, DataBlock([0u8; BLOCK_SIZE]));
}

#[test]
fn filled_block_repeats_the_byte() {
    let block = DataBlock::filled(0xAA);
    assert!(block.0.iter().all(|b| *b == 0xAA));
    assert_eq!(block, DataBlock([0xAA; BLOCK_SIZE]));
}

#[test]
fn unmapped_marker_is_all_unmap_bytes() {
    assert_eq!(UNMAP_BYTE, 0xFF);
    let marker = DataBlock::unmapped();
    assert_eq!(marker, DataBlock([0xFF; BLOCK_SIZE]));
    assert!(marker.is_unmapped());
    assert!(!DataBlock::default().is_unmapped());
    let mut almost = DataBlock::unmapped();
    almost.0[4095] = 0xFE;
    assert!(!almost.is_unmapped());
    let mut almost = DataBlock::unmapped();
    almost.0[0] = 0;
    assert!(!almost.is_unmapped());
}

#[test]
fn blocks_are_equal_exactly_when_their_bytes_are() {
    let a = DataBlock::filled(7);
    let mut b = DataBlock::filled(7);
    assert!(a == b);
    b.0[4095] = 8;
    assert!(a != b);
    b.0[4095] = 7;
    assert!(a == b);
    b.0[0] = 0;
    assert!(a != b);
    b.0[0] = 7;
    b.0[2000] = 1;
    assert_ne!(a, b);
}
