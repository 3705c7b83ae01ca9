//! The block device interface and its backends.

use vstd::prelude::*;
use crate::block_device::data_type::DataBlock;
use crate::block_device::device_info::DeviceInfo;
use crate::block_device::error::DeviceError;
use crate::block_device::store::{
    block_views, blocks_of, holds_blocks, image_of, valid_range, well_sized, written,
};

pub mod data_type;
pub mod device_info;
pub mod error;
pub mod io_uring_fake_device;
pub mod simple_fake_device;
pub mod store;

verus! {

/// Whether a device of `capacity` blocks accepts a write of `buffer` as
/// `count` blocks at `lba`: the range is valid and the buffer holds exactly
/// `count` blocks.
pub open spec fn write_accepted(lba: int, count: int, buffer_len: int, capacity: int) -> bool {
    valid_range(lba, count, capacity) && buffer_len == count
}

/// A device of fixed-size blocks, addressed by block number.
///
/// Every backend answers the same calls in the same way; they differ only
/// in whether they keep a persisted image (`persistent`).
pub trait BlockDevice {
    /// The stored blocks in address order, each as the sequence of its bytes.
    spec fn blocks(&self) -> Seq<Seq<u8>>;

    /// The metadata the device was built with.
    spec fn spec_info(&self) -> DeviceInfo;

    /// Whether this backend can produce and accept a persisted image.
    spec fn persistent(&self) -> bool;

    /// The device's metadata. The store always holds as many blocks as the
    /// metadata says, each of `BLOCK_SIZE` bytes.
    fn info(&self) -> (r: &DeviceInfo)
        ensures
            *r == self.spec_info(),
            self.blocks().len() == r.spec_num_blocks(),
            well_sized(self.blocks()),
    ;

    /// Overwrites the blocks `[lba, lba + num_blocks)` with those of
    /// `buffer`, in order.
    ///
    /// Fails with `DeviceError::Range`, changing nothing, when `num_blocks`
    /// is zero, when the range runs past the end of the device, or when
    /// `buffer` does not hold exactly `num_blocks` blocks.
    fn write(&mut self, lba: u64, num_blocks: u64, buffer: Vec<DataBlock>) -> (r: Result<
        (),
        DeviceError,
    >)
        ensures
            final(self).spec_info() == old(self).spec_info(),
            final(self).persistent() == old(self).persistent(),
            write_accepted(
                lba as int,
                num_blocks as int,
                buffer.len() as int,
                old(self).spec_info().spec_num_blocks(),
            ) ==> {
                &&& r is Ok
                &&& final(self).blocks() == written(
                    old(self).blocks(),
                    lba as int,
                    block_views(buffer@),
                )
            },
            !write_accepted(
                lba as int,
                num_blocks as int,
                buffer.len() as int,
                old(self).spec_info().spec_num_blocks(),
            ) ==> {
                &&& r == Err::<(), DeviceError>(DeviceError::Range)
                &&& final(self).blocks() == old(self).blocks()
            },
    ;

    /// Returns a copy of the blocks `[lba, lba + num_blocks)`, in order.
    ///
    /// Fails with `DeviceError::Range` when `num_blocks` is zero or the
    /// range runs past the end of the device. The store never changes.
    fn read(&mut self, lba: u64, num_blocks: u64) -> (r: Result<Vec<DataBlock>, DeviceError>)
        ensures
            final(self).spec_info() == old(self).spec_info(),
            final(self).persistent() == old(self).persistent(),
            final(self).blocks() == old(self).blocks(),
            valid_range(
                lba as int,
                num_blocks as int,
                old(self).spec_info().spec_num_blocks(),
            ) ==> {
                &&& r matches Ok(out)
                &&& out.len() == num_blocks
                &&& block_views(out@) == old(self).blocks().subrange(lba as int, lba + num_blocks)
            },
            !valid_range(
                lba as int,
                num_blocks as int,
                old(self).spec_info().spec_num_blocks(),
            ) ==> r == Err::<Vec<DataBlock>, DeviceError>(DeviceError::Range),
    ;

    /// Replaces the whole store by the blocks that `image` holds: block `i`
    /// is taken from the bytes `[i * BLOCK_SIZE, (i + 1) * BLOCK_SIZE)`.
    /// Bytes past the last block are ignored.
    ///
    /// Fails with `DeviceError::Io` when the image is too short, and with
    /// `DeviceError::Unsupported` on a backend that is not persistent. A
    /// failed load changes nothing.
    fn load(&mut self, image: &[u8]) -> (r: Result<(), DeviceError>)
        ensures
            final(self).spec_info() == old(self).spec_info(),
            final(self).persistent() == old(self).persistent(),
            old(self).persistent() && holds_blocks(image@, old(self).blocks().len() as int) ==> {
                &&& r is Ok
                &&& final(self).blocks() == blocks_of(image@, old(self).blocks().len())
            },
            old(self).persistent() && !holds_blocks(image@, old(self).blocks().len() as int) ==> {
                &&& r == Err::<(), DeviceError>(DeviceError::Io)
                &&& final(self).blocks() == old(self).blocks()
            },
            !old(self).persistent() ==> {
                &&& r == Err::<(), DeviceError>(DeviceError::Unsupported)
                &&& final(self).blocks() == old(self).blocks()
            },
    ;

    /// Returns the image to persist: all blocks laid end to end, exactly
    /// `BLOCK_SIZE` bytes for each. The store does not change.
    ///
    /// Fails with `DeviceError::Unsupported` on a backend that is not
    /// persistent.
    fn flush(&mut self) -> (r: Result<Vec<u8>, DeviceError>)
        ensures
            final(self).spec_info() == old(self).spec_info(),
            final(self).persistent() == old(self).persistent(),
            final(self).blocks() == old(self).blocks(),
            old(self).persistent() ==> {
                &&& r matches Ok(image)
                &&& image@ == image_of(old(self).blocks())
            },
            !old(self).persistent() ==> r == Err::<Vec<u8>, DeviceError>(
                DeviceError::Unsupported,
            ),
    ;
}

} // verus!
