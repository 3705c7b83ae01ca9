//! The in-memory backend without persistence.

use vstd::prelude::*;
use crate::block_device::data_type::DataBlock;
use crate::block_device::device_info::{blocks_in, is_aligned, DeviceInfo};
use crate::block_device::error::DeviceError;
use crate::block_device::store::{
    block_views, lemma_block_views_injective, range_is_valid, read_blocks, valid_range,
    write_blocks, zeroed, zeroed_blocks,
};
use crate::block_device::BlockDevice;

verus! {

/// A device that keeps all its blocks in memory and nowhere else.
pub struct SimpleFakeDevice {
    data: Vec<DataBlock>,
    device_info: DeviceInfo,
}

impl SimpleFakeDevice {
    #[verifier::type_invariant]
    spec fn sized_by_info(&self) -> bool {
        self.data.len() == self.device_info.spec_num_blocks()
    }

    /// Builds a device of `input_size` bytes, all zero. Succeeds exactly
    /// when `input_size` is a multiple of `BLOCK_SIZE`.
    pub fn new(input_name: String, input_size: u64) -> (r: Result<SimpleFakeDevice, DeviceError>)
        ensures
            is_aligned(input_size as int) ==> r is Ok,
            !is_aligned(input_size as int) ==> (r matches Err(e) && e == DeviceError::Alignment),
            r matches Ok(device) ==> {
                &&& device.spec_info().spec_name() == input_name@
                &&& device.spec_info().spec_size() == input_size
                &&& device.blocks() == zeroed(blocks_in(input_size as int) as nat)
            },
    {
        match DeviceInfo::new(input_name, input_size) {
            Ok(device_info) => {
                let data = zeroed_blocks(device_info.num_blocks());
                Ok(SimpleFakeDevice { data, device_info })
            },
            Err(e) => Err(e),
        }
    }

    /// Whether `block_num` blocks starting at `lba` form a valid range on
    /// this device.
    pub fn is_valid_range(&self, lba: u64, block_num: u64) -> (r: bool)
        ensures
            r == valid_range(lba as int, block_num as int, self.spec_info().spec_num_blocks()),
    {
        range_is_valid(lba, block_num, self.device_info.num_blocks())
    }
}

impl BlockDevice for SimpleFakeDevice {
    closed spec fn blocks(&self) -> Seq<Seq<u8>> {
        block_views(self.data@)
    }

    closed spec fn spec_info(&self) -> DeviceInfo {
        self.device_info
    }

    open spec fn persistent(&self) -> bool {
        false
    }

    fn info(&self) -> (r: &DeviceInfo) {
        proof {
            use_type_invariant(self);
            lemma_block_views_injective(self.data@, self.data@);
        }
        &self.device_info
    }

    fn write(&mut self, lba: u64, num_blocks: u64, buffer: Vec<DataBlock>) -> (r: Result<
        (),
        DeviceError,
    >) {
        proof {
            use_type_invariant(&*self);
        }
        if !self.is_valid_range(lba, num_blocks) || buffer.len() as u64 != num_blocks {
            return Err(DeviceError::Range);
        }
        write_blocks(&mut self.data, lba as usize, &buffer);
        Ok(())
    }

    fn read(&mut self, lba: u64, num_blocks: u64) -> (r: Result<Vec<DataBlock>, DeviceError>) {
        proof {
            use_type_invariant(&*self);
        }
        if !self.is_valid_range(lba, num_blocks) {
            return Err(DeviceError::Range);
        }
        Ok(read_blocks(&self.data, lba as usize, num_blocks as usize))
    }

    fn load(&mut self, image: &[u8]) -> (r: Result<(), DeviceError>) {
        Err(DeviceError::Unsupported)
    }

    fn flush(&mut self) -> (r: Result<Vec<u8>, DeviceError>) {
        Err(DeviceError::Unsupported)
    }
}

} // verus!
