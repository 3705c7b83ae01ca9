//! The block store shared by every backend: its mathematical model, the
//! range check, and the operations on the stored blocks.
//!
//! A store is modelled as a sequence of blocks in address order, each block
//! as the sequence of its bytes. A persisted image is the concatenation of
//! the blocks: block `i` occupies bytes `[i * BLOCK_SIZE, (i + 1) * BLOCK_SIZE)`.

use vstd::prelude::*;
use crate::block_device::data_type::{filled_bytes, lemma_block_ext_equal, DataBlock, BLOCK_SIZE};
use crate::block_device::error::DeviceError;

verus! {

/// The range check: `count` blocks starting at `lba` lie on a device of
/// `capacity` blocks, and there is at least one of them.
pub open spec fn valid_range(lba: int, count: int, capacity: int) -> bool {
    0 <= lba && count > 0 && lba + count <= capacity
}

/// The byte sequences of a sequence of blocks.
pub open spec fn block_views(blocks: Seq<DataBlock>) -> Seq<Seq<u8>> {
    Seq::new(blocks.len(), |i: int| blocks[i]@)
}

/// Every block has exactly `BLOCK_SIZE` bytes.
pub open spec fn well_sized(blocks: Seq<Seq<u8>>) -> bool {
    forall|i: int| 0 <= i < blocks.len() ==> (#[trigger] blocks[i]).len() == BLOCK_SIZE
}

/// A store of `count` blocks of zero bytes.
pub open spec fn zeroed(count: nat) -> Seq<Seq<u8>> {
    Seq::new(count, |i: int| filled_bytes(0))
}

/// The store after `buffer` has been written at `lba`: the blocks at
/// `[lba, lba + buffer.len())` are those of `buffer`, in order, and every
/// other block is as before.
pub open spec fn written(blocks: Seq<Seq<u8>>, lba: int, buffer: Seq<Seq<u8>>) -> Seq<Seq<u8>> {
    Seq::new(
        blocks.len(),
        |i: int|
            if lba <= i < lba + buffer.len() {
                buffer[i - lba]
            } else {
                blocks[i]
            },
    )
}

/// The persisted image of a store: its blocks laid end to end.
pub open spec fn image_of(blocks: Seq<Seq<u8>>) -> Seq<u8> {
    Seq::new(
        blocks.len() * BLOCK_SIZE as nat,
        |p: int| blocks[p / (BLOCK_SIZE as int)][p % (BLOCK_SIZE as int)],
    )
}

/// The first `count` blocks held by an image.
pub open spec fn blocks_of(image: Seq<u8>, count: nat) -> Seq<Seq<u8>> {
    Seq::new(
        count,
        |i: int| image.subrange(i * (BLOCK_SIZE as int), (i + 1) * (BLOCK_SIZE as int)),
    )
}

/// Whether an image is long enough to hold `count` blocks.
pub open spec fn holds_blocks(image: Seq<u8>, count: int) -> bool {
    count * (BLOCK_SIZE as int) <= image.len()
}

/// The range check as every backend performs it. It depends on the three
/// numbers alone, and the sum is taken without overflow.
pub fn range_is_valid(lba: u64, count: u64, capacity: u64) -> (r: bool)
    ensures
        r == valid_range(lba as int, count as int, capacity as int),
{
    count > 0 && lba <= capacity && count <= capacity - lba
}

/// A fresh store: `count` blocks, all zero.
pub fn zeroed_blocks(count: u64) -> (data: Vec<DataBlock>)
    ensures
        data.len() == count,
        block_views(data@) == zeroed(count as nat),
{
    let mut data: Vec<DataBlock> = Vec::new();
    let mut made: u64 = 0;
    while made < count
        invariant
            made <= count,
            data.len() == made,
            forall|i: int| 0 <= i < data.len() ==> (#[trigger] data@[i])@ == filled_bytes(0),
        decreases count - made,
    {
        data.push(DataBlock::default());
        made += 1;
    }
    assert(block_views(data@) =~= zeroed(count as nat));
    data
}

/// Copies the blocks `[lba, lba + count)` out of the store, in order.
pub fn read_blocks(data: &Vec<DataBlock>, lba: usize, count: usize) -> (out: Vec<DataBlock>)
    requires
        lba + count <= data.len(),
    ensures
        out@ == data@.subrange(lba as int, lba + count),
        block_views(out@) == block_views(data@).subrange(lba as int, lba + count),
{
    let mut out: Vec<DataBlock> = Vec::new();
    let mut i: usize = 0;
    while i < count
        invariant
            i <= count,
            lba + count <= data.len(),
            out.len() == i,
            forall|j: int| 0 <= j < i ==> out@[j] == data@[lba + j],
        decreases count - i,
    {
        out.push(data[lba + i]);
        i += 1;
    }
    assert(out@ =~= data@.subrange(lba as int, lba + count));
    assert(block_views(out@) =~= block_views(data@).subrange(lba as int, lba + count));
    out
}

/// Overwrites the blocks `[lba, lba + buffer.len())` of the store with those
/// of `buffer`, in order. No other block changes.
pub fn write_blocks(data: &mut Vec<DataBlock>, lba: usize, buffer: &Vec<DataBlock>)
    requires
        lba + buffer.len() <= old(data).len(),
    ensures
        final(data).len() == old(data).len(),
        block_views(final(data)@) == written(
            block_views(old(data)@),
            lba as int,
            block_views(buffer@),
        ),
    no_unwind
{
    let mut i: usize = 0;
    while i < buffer.len()
        invariant
            i <= buffer.len(),
            data.len() == old(data).len(),
            lba + buffer.len() <= data.len(),
            forall|j: int| 0 <= j < data.len() ==> data@[j] == if lba <= j < lba + i {
                buffer@[j - lba]
            } else {
                old(data)@[j]
            },
        decreases buffer.len() - i,
    {
        data[lba + i] = buffer[i];
        i += 1;
    }
    assert(block_views(data@) =~= written(
        block_views(old(data)@),
        lba as int,
        block_views(buffer@),
    ));
}

/// Lays the blocks of the store end to end.
pub fn encode_image(data: &Vec<DataBlock>) -> (image: Vec<u8>)
    ensures
        image@ == image_of(block_views(data@)),
{
    let mut image: Vec<u8> = Vec::new();
    let mut i: usize = 0;
    while i < data.len()
        invariant
            i <= data.len(),
            image.len() == i * BLOCK_SIZE,
            forall|p: int|
                0 <= p < image.len() ==> #[trigger] image@[p] == data@[p / (BLOCK_SIZE as int)]@[p
                    % (BLOCK_SIZE as int)],
        decreases data.len() - i,
    {
        let mut j: usize = 0;
        while j < BLOCK_SIZE
            invariant
                i < data.len(),
                j <= BLOCK_SIZE,
                image.len() == i * BLOCK_SIZE + j,
                forall|p: int|
                    0 <= p < image.len() ==> #[trigger] image@[p] == data@[p / (
                    BLOCK_SIZE as int)]@[p % (BLOCK_SIZE as int)],
            decreases BLOCK_SIZE - j,
        {
            image.push(data[i].0[j]);
            j += 1;
        }
        i += 1;
    }
    assert(image@ =~= image_of(block_views(data@)));
    image
}

/// Cuts the first `count` blocks out of an image. Fails with
/// `DeviceError::Io` exactly when the image is too short to hold them.
pub fn decode_image(image: &[u8], count: usize) -> (r: Result<Vec<DataBlock>, DeviceError>)
    ensures
        holds_blocks(image@, count as int) ==> r is Ok,
        !holds_blocks(image@, count as int) ==> r == Err::<Vec<DataBlock>, DeviceError>(
            DeviceError::Io,
        ),
        r matches Ok(data) ==> data.len() == count && block_views(data@) == blocks_of(
            image@,
            count as nat,
        ),
{
    if image.len() / BLOCK_SIZE < count {
        return Err(DeviceError::Io);
    }
    let mut data: Vec<DataBlock> = Vec::new();
    let mut i: usize = 0;
    while i < count
        invariant
            i <= count,
            count * BLOCK_SIZE <= image.len(),
            data.len() == i,
            forall|k: int|
                0 <= k < i ==> (#[trigger] data@[k])@ == image@.subrange(
                    k * (BLOCK_SIZE as int),
                    (k + 1) * (BLOCK_SIZE as int),
                ),
        decreases count - i,
    {
        let base: usize = i * BLOCK_SIZE;
        let mut bytes: [u8; BLOCK_SIZE] = [0u8; BLOCK_SIZE];
        let mut j: usize = 0;
        while j < BLOCK_SIZE
            invariant
                j <= BLOCK_SIZE,
                base + BLOCK_SIZE <= image.len(),
                forall|q: int| 0 <= q < j ==> bytes@[q] == image@[base + q],
            decreases BLOCK_SIZE - j,
        {
            bytes[j] = image[base + j];
            j += 1;
        }
        let block = DataBlock(bytes);
        assert(block@ =~= image@.subrange(
            i * (BLOCK_SIZE as int),
            (i + 1) * (BLOCK_SIZE as int),
        ));
        data.push(block);
        i += 1;
    }
    assert(block_views(data@) =~= blocks_of(image@, count as nat));
    Ok(data)
}

/// Sequences of blocks are equal exactly when their byte sequences are.
pub proof fn lemma_block_views_injective(a: Seq<DataBlock>, b: Seq<DataBlock>)
    ensures
        well_sized(block_views(a)),
        (a == b) <==> (block_views(a) == block_views(b)),
{
    assert forall|i: int| 0 <= i < a.len() implies (#[trigger] block_views(a)[i]).len()
        == BLOCK_SIZE by {
        lemma_block_ext_equal(a[i], a[i]);
    }
    if block_views(a) == block_views(b) {
        assert(a.len() == block_views(a).len());
        assert(b.len() == block_views(b).len());
        assert forall|i: int| 0 <= i < a.len() implies a[i] == b[i] by {
            assert(a[i]@ == block_views(a)[i]);
            assert(b[i]@ == block_views(b)[i]);
            lemma_block_ext_equal(a[i], b[i]);
        }
        assert(a =~= b);
    }
}

/// Reading back a range that was just written returns what was written.
pub proof fn lemma_write_then_read(blocks: Seq<Seq<u8>>, lba: int, buffer: Seq<Seq<u8>>)
    requires
        valid_range(lba, buffer.len() as int, blocks.len() as int),
    ensures
        written(blocks, lba, buffer).subrange(lba, lba + buffer.len()) == buffer,
{
    assert(written(blocks, lba, buffer).subrange(lba, lba + buffer.len()) =~= buffer);
}

/// A write changes no block outside the written range, and neither adds
/// nor removes blocks.
pub proof fn lemma_write_keeps_other_blocks(
    blocks: Seq<Seq<u8>>,
    lba: int,
    buffer: Seq<Seq<u8>>,
    i: int,
)
    requires
        0 <= i < blocks.len(),
        !(lba <= i < lba + buffer.len()),
    ensures
        written(blocks, lba, buffer).len() == blocks.len(),
        written(blocks, lba, buffer)[i] == blocks[i],
{
}

/// The image of a store has `BLOCK_SIZE` bytes for each block, and block
/// `i` occupies the bytes `[i * BLOCK_SIZE, (i + 1) * BLOCK_SIZE)` of it.
pub proof fn lemma_image_layout(blocks: Seq<Seq<u8>>, i: int)
    requires
        well_sized(blocks),
        0 <= i < blocks.len(),
    ensures
        image_of(blocks).len() == blocks.len() * BLOCK_SIZE,
        image_of(blocks).subrange(i * (BLOCK_SIZE as int), (i + 1) * (BLOCK_SIZE as int))
            == blocks[i],
{
    let image = image_of(blocks);
    let part = image.subrange(i * (BLOCK_SIZE as int), (i + 1) * (BLOCK_SIZE as int));
    assert(blocks[i].len() == BLOCK_SIZE);
    assert forall|q: int| 0 <= q < BLOCK_SIZE implies part[q] == blocks[i][q] by {
        let p = i * (BLOCK_SIZE as int) + q;
        assert(p / (BLOCK_SIZE as int) == i);
        assert(p % (BLOCK_SIZE as int) == q);
        assert(part[q] == image[p]);
    }
    assert(part =~= blocks[i]);
}

/// Persisting a store and loading the image again gives back the same
/// blocks.
pub proof fn lemma_image_round_trip(blocks: Seq<Seq<u8>>)
    requires
        well_sized(blocks),
    ensures
        holds_blocks(image_of(blocks), blocks.len() as int),
        blocks_of(image_of(blocks), blocks.len()) == blocks,
{
    assert forall|i: int| 0 <= i < blocks.len() implies blocks_of(
        image_of(blocks),
        blocks.len(),
    )[i] == blocks[i] by {
        lemma_image_layout(blocks, i);
    }
    assert(blocks_of(image_of(blocks), blocks.len()) =~= blocks);
}

} // verus!
