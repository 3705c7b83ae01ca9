//! Block primitives: the block size, the fixed-size data block and the
//! marker value for a block that was never written.

use vstd::prelude::*;
use vstd::std_specs::cmp::PartialEqSpecImpl;

verus! {

/// Number of bytes in one block.
pub const BLOCK_SIZE: usize = 4096;

/// Byte that fills the unmapped-block marker.
pub const UNMAP_BYTE: u8 = 0xFF;

/// One block of storage: exactly `BLOCK_SIZE` bytes.
///
/// Its view is the sequence of its bytes. Two blocks are equal exactly when
/// their bytes are equal.
#[derive(Clone, Copy, Debug)]
pub struct DataBlock(pub [u8; BLOCK_SIZE]);

impl View for DataBlock {
    type V = Seq<u8>;

    open spec fn view(&self) -> Seq<u8> {
        self.0@
    }
}

/// The byte sequence of a block filled with `byte`.
pub open spec fn filled_bytes(byte: u8) -> Seq<u8> {
    Seq::new(BLOCK_SIZE as nat, |i: int| byte)
}

impl DataBlock {
    /// A block whose every byte is `byte`.
    pub fn filled(byte: u8) -> (block: DataBlock)
        ensures
            block@ == filled_bytes(byte),
    {
        let block = DataBlock([byte; BLOCK_SIZE]);
        assert(block@ =~= filled_bytes(byte));
        block
    }

    /// The marker for a block that holds no data yet: every byte is
    /// `UNMAP_BYTE`. Devices store it like any other block.
    pub fn unmapped() -> (block: DataBlock)
        ensures
            block@ == filled_bytes(UNMAP_BYTE),
    {
        DataBlock::filled(UNMAP_BYTE)
    }

    /// Whether this block is the unmapped-block marker.
    pub fn is_unmapped(&self) -> (r: bool)
        ensures
            r == (self@ == filled_bytes(UNMAP_BYTE)),
    {
        let mut i: usize = 0;
        while i < BLOCK_SIZE
            invariant
                i <= BLOCK_SIZE,
                forall|j: int| 0 <= j < i ==> self@[j] == UNMAP_BYTE,
            decreases BLOCK_SIZE - i,
        {
            if self.0[i] != UNMAP_BYTE {
                assert(filled_bytes(UNMAP_BYTE)[i as int] == UNMAP_BYTE);
                return false;
            }
            i += 1;
        }
        assert(self@ =~= filled_bytes(UNMAP_BYTE));
        true
    }

    /// The bytes of the block, in order.
    pub fn as_bytes(&self) -> (bytes: &[u8; BLOCK_SIZE])
        ensures
            bytes@ == self@,
    {
        &self.0
    }
}

impl Default for DataBlock {
    /// The all-zero block.
    fn default() -> (block: DataBlock)
        ensures
            block@ == filled_bytes(0),
    {
        DataBlock::filled(0)
    }
}

impl PartialEq for DataBlock {
    fn eq(&self, other: &DataBlock) -> (r: bool) {
        let mut i: usize = 0;
        while i < BLOCK_SIZE
            invariant
                i <= BLOCK_SIZE,
                forall|j: int| 0 <= j < i ==> self@[j] == other@[j],
            decreases BLOCK_SIZE - i,
        {
            if self.0[i] != other.0[i] {
                return false;
            }
            i += 1;
        }
        assert(self@ =~= other@);
        true
    }
}

impl Eq for DataBlock {
}

impl PartialEqSpecImpl for DataBlock {
    open spec fn obeys_eq_spec() -> bool {
        true
    }

    open spec fn eq_spec(&self, other: &DataBlock) -> bool {
        self@ == other@
    }
}

/// A block is determined by its bytes: blocks with equal views are equal.
pub proof fn lemma_block_ext_equal(a: DataBlock, b: DataBlock)
    ensures
        a@.len() == BLOCK_SIZE,
        (a == b) <==> (a@ == b@),
{
    if a@ == b@ {
        assert forall|i: int| 0 <= i < BLOCK_SIZE implies a.0[i] == b.0[i] by {
            assert(a@[i] == b@[i]);
        }
        assert(a.0 =~= b.0);
    }
}

} // verus!
