//! The errors that device operations return.

use vstd::prelude::*;

verus! {

/// Why a device operation failed.
#[derive(Clone, Copy, Debug, PartialEq, Eq, Structural)]
pub enum DeviceError {
    /// The device size is not a multiple of the block size.
    Alignment,
    /// The block count is zero, the range runs past the end of the device,
    /// or the buffer length differs from the block count.
    Range,
    /// A persisted image could not be transferred in full.
    Io,
    /// The backend keeps no persisted image.
    Unsupported,
}

impl DeviceError {
    /// The text that describes each error.
    pub open spec fn spec_message(&self) -> Seq<char> {
        match self {
            DeviceError::Alignment => "unaligned err"@,
            DeviceError::Range => "Invalid LBA, number of blocks, or buffer size."@,
            DeviceError::Io => "Image transfer failed or was incomplete."@,
            DeviceError::Unsupported => "This backend keeps no persisted image."@,
        }
    }

    /// A short description of the error, for display.
    pub fn message(&self) -> (text: &'static str)
        ensures
            text@ == self.spec_message(),
    {
        match self {
            DeviceError::Alignment => "unaligned err",
            DeviceError::Range => "Invalid LBA, number of blocks, or buffer size.",
            DeviceError::Io => "Image transfer failed or was incomplete.",
            DeviceError::Unsupported => "This backend keeps no persisted image.",
        }
    }
}

} // verus!
