//! Device metadata: a name and a block-aligned size.

use vstd::prelude::*;
use crate::block_device::data_type::BLOCK_SIZE;
use crate::block_device::error::DeviceError;

verus! {

/// Whether `size` bytes make up a whole number of blocks.
pub open spec fn is_aligned(size: int) -> bool {
    size % (BLOCK_SIZE as int) == 0
}

/// The number of whole blocks in `size` bytes.
pub open spec fn blocks_in(size: int) -> int {
    size / (BLOCK_SIZE as int)
}

/// Name and total size of a device. The size is always a multiple of
/// `BLOCK_SIZE`; neither field changes after construction.
#[derive(Debug)]
pub struct DeviceInfo {
    name: String,
    size: u64,
}

impl DeviceInfo {
    /// The stored name, as a sequence of characters.
    pub closed spec fn spec_name(&self) -> Seq<char> {
        self.name@
    }

    /// The stored size in bytes.
    pub closed spec fn spec_size(&self) -> int {
        self.size as int
    }

    /// The number of blocks: the size divided by `BLOCK_SIZE`.
    pub open spec fn spec_num_blocks(&self) -> int {
        blocks_in(self.spec_size())
    }

    #[verifier::type_invariant]
    spec fn aligned(&self) -> bool {
        is_aligned(self.size as int)
    }

    /// Builds the metadata of a device. Succeeds exactly when `device_size`
    /// is a multiple of `BLOCK_SIZE`, and then keeps both arguments as given;
    /// the name is not inspected.
    pub fn new(device_name: String, device_size: u64) -> (r: Result<DeviceInfo, DeviceError>)
        ensures
            is_aligned(device_size as int) ==> r is Ok,
            !is_aligned(device_size as int) ==> r == Err::<DeviceInfo, DeviceError>(
                DeviceError::Alignment,
            ),
            r matches Ok(info) ==> {
                &&& info.spec_name() == device_name@
                &&& info.spec_size() == device_size
                &&& info.spec_num_blocks() == blocks_in(device_size as int)
            },
    {
        if device_size % (BLOCK_SIZE as u64) != 0 {
            return Err(DeviceError::Alignment);
        }
        Ok(DeviceInfo { name: device_name, size: device_size })
    }

    /// The name given at construction.
    pub fn name(&self) -> (r: &String)
        ensures
            r@ == self.spec_name(),
    {
        &self.name
    }

    /// The total size in bytes.
    pub fn device_size(&self) -> (r: u64)
        ensures
            r == self.spec_size(),
            is_aligned(r as int),
    {
        proof {
            use_type_invariant(self);
        }
        self.size
    }

    /// The number of blocks on the device.
    pub fn num_blocks(&self) -> (r: u64)
        ensures
            r == self.spec_num_blocks(),
            r * BLOCK_SIZE == self.spec_size(),
    {
        proof {
            use_type_invariant(self);
        }
        self.size / (BLOCK_SIZE as u64)
    }
}

impl Clone for DeviceInfo {
    fn clone(&self) -> (r: DeviceInfo)
        ensures
            r == *self,
    {
        proof {
            use_type_invariant(self);
        }
        DeviceInfo { name: self.name.clone(), size: self.size }
    }
}

} // verus!
