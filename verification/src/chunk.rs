use vstd::prelude::*;
use vstd::string::*;

use crate::block::{BlockType, block_code, block_of_code};
use crate::coords::{LocalBlockPos, local_index};
use crate::error::WorldError;
use crate::text::{decimal_u64, decimal_text};

verus! {

pub const CHUNK_WIDTH: usize = 16;
pub const CHUNK_HEIGHT: usize = 128;
pub const CHUNK_DEPTH: usize = 16;
pub const CHUNK_BLOCKS: usize = 32768;

/// A 16 x 128 x 16 column of voxels. `blocks` is laid out x first, then z, then y;
/// `max_y` is an upper bound on the height of every non-air block.
#[derive(Clone, Debug)]
pub struct Chunk {
    pub blocks: Vec<BlockType>,
    pub max_y: usize,
}

/// The contents of a chunk: its blocks in storage order and its height bound.
pub struct ChunkView {
    pub blocks: Seq<BlockType>,
    pub max_y: usize,
}

impl ChunkView {
    pub open spec fn wf(&self) -> bool {
        self.blocks.len() == CHUNK_BLOCKS
    }

    /// The block at a chunk-local coordinate.
    pub open spec fn block_at(&self, x: int, y: int, z: int) -> BlockType {
        self.blocks[local_index(x, y, z)]
    }
}

impl View for Chunk {
    type V = ChunkView;

    open spec fn view(&self) -> ChunkView {
        ChunkView { blocks: self.blocks@, max_y: self.max_y }
    }
}

/// The height (y) of the voxel stored at a linear index.
pub open spec fn height_of_index(i: int) -> int {
    i / 256
}

/// Whether a coordinate triple lies inside a chunk.
pub open spec fn spec_in_bounds(x: int, y: int, z: int) -> bool {
    0 <= x < 16 && 0 <= y < 128 && 0 <= z < 16
}

/// The highest height holding a non-air block among the first `n` voxels, or 0.
pub open spec fn highest_solid_below(blocks: Seq<BlockType>, n: int) -> int
    decreases n,
{
    if n <= 0 {
        0
    } else {
        let rest = highest_solid_below(blocks, n - 1);
        if blocks[n - 1] != BlockType::Air && height_of_index(n - 1) > rest {
            height_of_index(n - 1)
        } else {
            rest
        }
    }
}

/// The highest height holding a non-air block, or 0 when the chunk is all air.
pub open spec fn highest_solid(blocks: Seq<BlockType>) -> int {
    highest_solid_below(blocks, blocks.len() as int)
}

/// The block kinds that a byte string decodes to.
pub open spec fn decode_blocks(bytes: Seq<u8>) -> Seq<BlockType> {
    bytes.map_values(|b: u8| block_of_code(b))
}

/// The bytes that a block array encodes to.
pub open spec fn encode_blocks(blocks: Seq<BlockType>) -> Seq<u8> {
    blocks.map_values(|b: BlockType| block_code(b))
}

impl Chunk {
    /// The chunk holds exactly one block per voxel.
    pub open spec fn wf(&self) -> bool {
        self.blocks@.len() == CHUNK_BLOCKS
    }

    /// `max_y` bounds the height of every non-air block.
    pub open spec fn max_y_bounds_blocks(&self) -> bool {
        forall|i: int|
            0 <= i < self.blocks@.len() && #[trigger] self.blocks@[i] != BlockType::Air
                ==> height_of_index(i) <= self.max_y
    }

    /// The block at a chunk-local coordinate.
    pub open spec fn block_at(&self, x: int, y: int, z: int) -> BlockType {
        self.blocks@[local_index(x, y, z)]
    }

    /// An all-air chunk.
    pub fn new() -> (r: Chunk)
        ensures
            r.wf(),
            r.max_y == 0,
            forall|i: int| 0 <= i < CHUNK_BLOCKS ==> #[trigger] r.blocks@[i] == BlockType::Air,
            r.max_y_bounds_blocks(),
    {
        let mut blocks: Vec<BlockType> = Vec::with_capacity(CHUNK_BLOCKS);
        let mut i: usize = 0;
        while i < CHUNK_BLOCKS
            invariant
                i <= CHUNK_BLOCKS,
                blocks@.len() == i,
                forall|j: int| 0 <= j < i ==> #[trigger] blocks@[j] == BlockType::Air,
            decreases CHUNK_BLOCKS - i,
        {
            blocks.push(BlockType::Air);
            i += 1;
        }
        Chunk { blocks, max_y: 0 }
    }

    /// Whether a coordinate triple lies inside a chunk.
    pub fn in_bounds(x: i32, y: i32, z: i32) -> (r: bool)
        ensures
            r == spec_in_bounds(x as int, y as int, z as int),
    {
        x >= 0 && x < CHUNK_WIDTH as i32 && y >= 0 && y < CHUNK_HEIGHT as i32 && z >= 0 && z
            < CHUNK_DEPTH as i32
    }

    /// Linear index of a voxel: x, then z, then y.
    pub fn index(x: usize, y: usize, z: usize) -> (r: usize)
        requires
            x < 16 && y < 128 && z < 16,
        ensures
            r == local_index(x as int, y as int, z as int),
            r < CHUNK_BLOCKS,
    {
        x + z * 16 + y * 256
    }

    /// The block at a coordinate, or air outside the chunk.
    pub fn get(&self, x: i32, y: i32, z: i32) -> (r: BlockType)
        requires
            self.wf(),
        ensures
            r == (if spec_in_bounds(x as int, y as int, z as int) {
                self.block_at(x as int, y as int, z as int)
            } else {
                BlockType::Air
            }),
    {
        if Self::in_bounds(x, y, z) {
            self.blocks[Self::index(x as usize, y as usize, z as usize)]
        } else {
            BlockType::Air
        }
    }

    /// The block at a coordinate known to be inside the chunk.
    pub fn get_fast(&self, x: usize, y: usize, z: usize) -> (r: BlockType)
        requires
            self.wf(),
            x < 16 && y < 128 && z < 16,
        ensures
            r == self.block_at(x as int, y as int, z as int),
    {
        self.blocks[Self::index(x, y, z)]
    }

    /// Writes a block at a coordinate; coordinates outside the chunk are ignored.
    pub fn set(&mut self, x: i32, y: i32, z: i32, block: BlockType)
        requires
            old(self).wf(),
        ensures
            final(self).wf(),
            spec_in_bounds(x as int, y as int, z as int) ==> {
                &&& final(self).blocks@ == old(self).blocks@.update(
                    local_index(x as int, y as int, z as int),
                    block,
                )
                &&& final(self).max_y == (if block != BlockType::Air && y > old(self).max_y {
                    y as usize
                } else {
                    old(self).max_y
                })
            },
            !spec_in_bounds(x as int, y as int, z as int) ==> *final(self) == *old(self),
            old(self).max_y_bounds_blocks() ==> final(self).max_y_bounds_blocks(),
    {
        if Self::in_bounds(x, y, z) {
            self.set_fast(x as usize, y as usize, z as usize, block);
        }
    }

    /// Writes a block at a coordinate known to be inside the chunk.
    pub fn set_fast(&mut self, x: usize, y: usize, z: usize, block: BlockType)
        requires
            old(self).wf(),
            x < 16 && y < 128 && z < 16,
        ensures
            final(self).wf(),
            final(self).blocks@ == old(self).blocks@.update(
                local_index(x as int, y as int, z as int),
                block,
            ),
            final(self).max_y == (if block != BlockType::Air && y > old(self).max_y {
                y
            } else {
                old(self).max_y
            }),
            old(self).max_y_bounds_blocks() ==> final(self).max_y_bounds_blocks(),
    {
        let idx = Self::index(x, y, z);
        self.blocks.set(idx, block);
        if block != BlockType::Air && y > self.max_y {
            self.max_y = y;
        }
        proof {
            assert(height_of_index(idx as int) == y) by (nonlinear_arith)
                requires
                    idx == x + z * 16 + y * 256,
                    x < 16,
                    z < 16,
            ;
        }
    }

    /// The block at a chunk-local position.
    pub fn get_local(&self, pos: LocalBlockPos) -> (r: BlockType)
        requires
            self.wf(),
            pos.x < 16 && pos.y < 128 && pos.z < 16,
        ensures
            r == self.block_at(pos.x as int, pos.y as int, pos.z as int),
    {
        self.blocks[pos.to_index()]
    }

    /// Writes a block at a chunk-local position.
    pub fn set_local(&mut self, pos: LocalBlockPos, block: BlockType)
        requires
            old(self).wf(),
            pos.x < 16 && pos.y < 128 && pos.z < 16,
        ensures
            final(self).wf(),
            final(self).blocks@ == old(self).blocks@.update(
                local_index(pos.x as int, pos.y as int, pos.z as int),
                block,
            ),
            final(self).max_y == (if block != BlockType::Air && pos.y > old(self).max_y {
                pos.y as usize
            } else {
                old(self).max_y
            }),
            old(self).max_y_bounds_blocks() ==> final(self).max_y_bounds_blocks(),
    {
        self.set_fast(pos.x as usize, pos.y as usize, pos.z as usize, block);
    }

    /// One byte per voxel, in storage order.
    pub fn to_bytes(&self) -> (r: Vec<u8>)
        ensures
            r@ == encode_blocks(self.blocks@),
    {
        let mut out: Vec<u8> = Vec::with_capacity(self.blocks.len());
        let mut i: usize = 0;
        while i < self.blocks.len()
            invariant
                i <= self.blocks@.len(),
                out@ == encode_blocks(self.blocks@.take(i as int)),
            decreases self.blocks@.len() - i,
        {
            out.push(self.blocks[i].to_u8());
            proof {
                assert(self.blocks@.take(i + 1) == self.blocks@.take(i as int).push(self.blocks@[i as int]));
            }
            i += 1;
        }
        proof {
            assert(self.blocks@.take(i as int) == self.blocks@);
        }
        out
    }

    /// Rebuilds a chunk from one byte per voxel; `max_y` becomes the height of the
    /// highest non-air block. Fails when the byte count is not one per voxel.
    pub fn from_bytes(bytes: &[u8]) -> (r: Result<Chunk, WorldError>)
        ensures
            bytes@.len() == CHUNK_BLOCKS <==> r is Ok,
            r matches Ok(c) ==> {
                &&& c.wf()
                &&& c.blocks@ == decode_blocks(bytes@)
                &&& c.max_y == highest_solid(c.blocks@)
                &&& c.max_y_bounds_blocks()
            },
            r matches Err(e) ==> e matches WorldError::Corruption(msg) && msg@ == corruption_length_text(bytes@.len()),
    {
        if bytes.len() != CHUNK_BLOCKS {
            return Err(WorldError::Corruption(length_error_text(bytes.len())));
        }
        let mut blocks: Vec<BlockType> = Vec::with_capacity(CHUNK_BLOCKS);
        let mut max_y: usize = 0;
        let mut i: usize = 0;
        while i < CHUNK_BLOCKS
            invariant
                bytes@.len() == CHUNK_BLOCKS,
                i <= CHUNK_BLOCKS,
                blocks@ == decode_blocks(bytes@.take(i as int)),
                max_y == highest_solid_below(blocks@, i as int),
                max_y < 128,
                forall|j: int| 0 <= j < i && #[trigger] blocks@[j] != BlockType::Air
                    ==> height_of_index(j) <= max_y,
            decreases CHUNK_BLOCKS - i,
        {
            let block = BlockType::from_u8(bytes[i]);
            let ghost prev = blocks@;
            blocks.push(block);
            proof {
                assert(bytes@.take(i + 1) == bytes@.take(i as int).push(bytes@[i as int]));
                assert(blocks@.take(i as int) == prev);
                lemma_highest_prefix_stable(blocks@, i as int);
                assert(highest_solid_below(blocks@, i as int) == highest_solid_below(prev, i as int));
            }
            if block != BlockType::Air {
                let y = i / 256;
                if y > max_y {
                    max_y = y;
                }
            }
            assert(max_y == highest_solid_below(blocks@, i + 1));
            i += 1;
        }
        proof {
            assert(bytes@.take(CHUNK_BLOCKS as int) == bytes@);
        }
        Ok(Chunk { blocks, max_y })
    }
}

/// The highest non-air height among the first `n` voxels depends only on them.
proof fn lemma_highest_prefix_stable(blocks: Seq<BlockType>, n: int)
    requires
        0 <= n < blocks.len(),
    ensures
        forall|m: int| 0 <= m <= n ==> #[trigger] highest_solid_below(blocks, m)
            == highest_solid_below(blocks.take(n), m),
    decreases n,
{
    assert forall|m: int| 0 <= m <= n implies #[trigger] highest_solid_below(blocks, m)
        == highest_solid_below(blocks.take(n), m) by {
        lemma_highest_prefix_eq(blocks, blocks.take(n), m);
    }
}

proof fn lemma_highest_prefix_eq(a: Seq<BlockType>, b: Seq<BlockType>, m: int)
    requires
        0 <= m <= a.len(),
        m <= b.len(),
        forall|j: int| 0 <= j < m ==> a[j] == b[j],
    ensures
        highest_solid_below(a, m) == highest_solid_below(b, m),
    decreases m,
{
    if m > 0 {
        lemma_highest_prefix_eq(a, b, m - 1);
    }
}

/// Encoding a block array to bytes and decoding the bytes gives the array back, one
/// byte per block.
pub proof fn lemma_bytes_roundtrip(blocks: Seq<BlockType>)
    ensures
        encode_blocks(blocks).len() == blocks.len(),
        decode_blocks(encode_blocks(blocks)) == blocks,
{
    assert forall|i: int| 0 <= i < blocks.len() implies #[trigger] decode_blocks(
        encode_blocks(blocks),
    )[i] == blocks[i] by {
        crate::block::lemma_block_code_roundtrip(blocks[i]);
    }
    assert(decode_blocks(encode_blocks(blocks)) =~= blocks);
}

/// The voxels that stored chunk bytes hold: one byte per voxel read as it stands,
/// anything else decompressed first; nothing when that does not give one byte per voxel.
pub open spec fn stored_blocks(bytes: Seq<u8>) -> Option<Seq<BlockType>> {
    if bytes.len() == CHUNK_BLOCKS {
        Some(decode_blocks(bytes))
    } else {
        match lz4_decompressed(bytes) {
            Some(d) => if d.len() == CHUNK_BLOCKS { Some(decode_blocks(d)) } else { None },
            None => None,
        }
    }
}

/// Reading back what [`Chunk::to_compressed_bytes`] stored (bytes that decompress to the
/// encoded voxels) gives the same voxels, unless the stored form happens to be exactly one
/// byte per voxel long, in which case it is read as raw bytes.
pub proof fn lemma_compressed_roundtrip(blocks: Seq<BlockType>, stored: Seq<u8>)
    requires
        blocks.len() == CHUNK_BLOCKS,
        lz4_decompressed(stored) == Some(encode_blocks(blocks)),
        stored.len() != CHUNK_BLOCKS,
    ensures
        stored_blocks(stored) == Some(blocks),
{
    lemma_bytes_roundtrip(blocks);
}

#[verifier::external_type_specification]
#[verifier::external_body]
pub struct ExDecompressError(lz4_flex::block::DecompressError);

/// What `lz4_flex::compress_prepend_size` makes of a byte string: the LZ4 block of the
/// input behind its length as a little-endian `u32`.
pub uninterp spec fn lz4_compressed(input: Seq<u8>) -> Seq<u8>;

/// What `lz4_flex::decompress_size_prepended` makes of a byte string: the decoded
/// bytes, or nothing when the input is not a valid size-prefixed LZ4 block.
pub uninterp spec fn lz4_decompressed(input: Seq<u8>) -> Option<Seq<u8>>;

/// Calls `lz4_flex::compress_prepend_size`. Trusted: the result is the crate's
/// deterministic compression of the input, and decompressing it with
/// `decompress_size_prepended` gives the input back (the crate's round-trip promise;
/// the 4-byte length prefix holds inputs up to `u32::MAX` bytes).
#[verifier::external_body]
fn lz4_compress_prepend_size(input: &[u8]) -> (r: Vec<u8>)
    requires
        input@.len() <= u32::MAX,
    ensures
        r@ == lz4_compressed(input@),
        lz4_decompressed(r@) == Some(input@),
{
    lz4_flex::compress_prepend_size(input)
}

/// Calls `lz4_flex::decompress_size_prepended`. Trusted: it succeeds exactly when the
/// named decoding has a value, and then returns that value. The call first allocates the
/// size named by the input's 4-byte prefix (up to 4 GiB); where the machine cannot
/// provide it the process aborts, which nothing here rules out.
#[verifier::external_body]
fn lz4_decompress_size_prepended(input: &[u8]) -> (r: Result<Vec<u8>, lz4_flex::block::DecompressError>)
    ensures
        r is Ok <==> lz4_decompressed(input@) is Some,
        r matches Ok(v) ==> lz4_decompressed(input@) == Some(v@),
{
    lz4_flex::decompress_size_prepended(input)
}

/// Calls the `Display` text of `lz4_flex::block::DecompressError`; nothing is stated of
/// the text.
#[verifier::external_body]
fn lz4_error_text(e: &lz4_flex::block::DecompressError) -> String {
    e.to_string()
}

/// The text that starts the error of a failed decompression.
pub open spec fn lz4_failure_prefix() -> Seq<char> {
    "LZ4 decompression failed: "@
}

impl Chunk {
    /// The chunk's bytes, LZ4-compressed behind their length.
    pub fn to_compressed_bytes(&self) -> (r: Vec<u8>)
        requires
            self.wf(),
        ensures
            r@ == lz4_compressed(encode_blocks(self.blocks@)),
            lz4_decompressed(r@) == Some(encode_blocks(self.blocks@)),
    {
        let raw = self.to_bytes();
        lz4_compress_prepend_size(raw.as_slice())
    }

    /// Reads a chunk that was stored either as raw bytes (exactly one per voxel) or
    /// LZ4-compressed; fails on data that neither decodes nor has one byte per voxel.
    pub fn from_compressed_bytes(bytes: &[u8]) -> (r: Result<Chunk, WorldError>)
        ensures
            bytes@.len() == CHUNK_BLOCKS ==> (r is Ok && r->Ok_0.blocks@ == decode_blocks(bytes@)
                && r->Ok_0.max_y == highest_solid(r->Ok_0.blocks@)),
            bytes@.len() != CHUNK_BLOCKS ==> match lz4_decompressed(bytes@) {
                None => r matches Err(WorldError::Corruption(msg)) && msg@.take(26)
                    == lz4_failure_prefix(),
                Some(d) => if d.len() == CHUNK_BLOCKS {
                    r is Ok && r->Ok_0.blocks@ == decode_blocks(d) && r->Ok_0.max_y
                        == highest_solid(r->Ok_0.blocks@)
                } else {
                    r matches Err(WorldError::Corruption(msg)) && msg@ == corruption_length_text(d.len())
                },
            },
            r matches Ok(c) ==> c.wf() && c.max_y_bounds_blocks(),
            r is Ok <==> stored_blocks(bytes@) is Some,
            r matches Ok(c) ==> stored_blocks(bytes@) == Some(c.blocks@),
    {
        if bytes.len() == CHUNK_BLOCKS {
            return Self::from_bytes(bytes);
        }
        match lz4_decompress_size_prepended(bytes) {
            Ok(decompressed) => Self::from_bytes(decompressed.as_slice()),
            Err(e) => {
                let prefix = String::from_str("LZ4 decompression failed: ");
                proof {
                    reveal_strlit("LZ4 decompression failed: ");
                }
                let msg = prefix.concat(lz4_error_text(&e).as_str());
                assert(msg@.take(26) == lz4_failure_prefix());
                Err(WorldError::Corruption(msg))
            },
        }
    }
}

/// The text of the error for a byte string of the wrong length.
pub open spec fn corruption_length_text(len: nat) -> Seq<char> {
    "Invalid chunk byte length: expected 32768, got "@ + decimal_text(len)
}

fn length_error_text(len: usize) -> (r: String)
    ensures
        r@ == corruption_length_text(len as nat),
{
    let prefix = String::from_str("Invalid chunk byte length: expected 32768, got ");
    prefix.concat(decimal_u64(len as u64).as_str())
}

} // verus!
