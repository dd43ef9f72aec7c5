use vstd::prelude::*;

use crate::chunk::{CHUNK_DEPTH, CHUNK_HEIGHT, CHUNK_WIDTH};

verus! {

/// A triple of 32-bit integers (a grid vector).
#[derive(Copy, Clone, Debug, Default, PartialEq, Eq, Hash, Structural)]
pub struct IVec3 {
    pub x: i32,
    pub y: i32,
    pub z: i32,
}

/// A pair of 32-bit integers (a horizontal grid vector).
#[derive(Copy, Clone, Debug, Default, PartialEq, Eq, Hash, Structural)]
pub struct IVec2 {
    pub x: i32,
    pub y: i32,
}

/// Absolute 3D voxel coordinate in the world grid.
#[derive(Copy, Clone, Debug, Default, PartialEq, Eq, Hash, Structural)]
pub struct BlockPos(pub IVec3);

/// 2D chunk coordinate in the horizontal world grid (`.0.y` is the Z axis).
#[derive(Copy, Clone, Debug, Default, PartialEq, Eq, Hash, Structural)]
pub struct ChunkPos(pub IVec2);

/// Chunk-local voxel offset within a single chunk (x: 0..16, y: 0..128, z: 0..16).
#[derive(Copy, Clone, Debug, Default, PartialEq, Eq, Hash, Structural)]
pub struct LocalBlockPos {
    pub x: u8,
    pub y: u8,
    pub z: u8,
}

/// Both integers of the sum fit in 32 bits.
pub open spec fn ivec3_add_fits(a: IVec3, b: IVec3) -> bool {
    &&& i32::MIN <= a.x + b.x <= i32::MAX
    &&& i32::MIN <= a.y + b.y <= i32::MAX
    &&& i32::MIN <= a.z + b.z <= i32::MAX
}

pub open spec fn ivec3_sub_fits(a: IVec3, b: IVec3) -> bool {
    &&& i32::MIN <= a.x - b.x <= i32::MAX
    &&& i32::MIN <= a.y - b.y <= i32::MAX
    &&& i32::MIN <= a.z - b.z <= i32::MAX
}

impl IVec3 {
    pub fn new(x: i32, y: i32, z: i32) -> (r: IVec3)
        ensures
            r.x == x && r.y == y && r.z == z,
    {
        IVec3 { x, y, z }
    }

    /// Component-wise sum.
    pub fn add(self, rhs: IVec3) -> (r: IVec3)
        requires
            ivec3_add_fits(self, rhs),
        ensures
            r.x == self.x + rhs.x,
            r.y == self.y + rhs.y,
            r.z == self.z + rhs.z,
    {
        IVec3 { x: self.x + rhs.x, y: self.y + rhs.y, z: self.z + rhs.z }
    }

    /// Component-wise difference.
    pub fn sub(self, rhs: IVec3) -> (r: IVec3)
        requires
            ivec3_sub_fits(self, rhs),
        ensures
            r.x == self.x - rhs.x,
            r.y == self.y - rhs.y,
            r.z == self.z - rhs.z,
    {
        IVec3 { x: self.x - rhs.x, y: self.y - rhs.y, z: self.z - rhs.z }
    }
}

impl IVec2 {
    pub fn new(x: i32, y: i32) -> (r: IVec2)
        ensures
            r.x == x && r.y == y,
    {
        IVec2 { x, y }
    }

    /// Component-wise sum.
    pub fn add(self, rhs: IVec2) -> (r: IVec2)
        requires
            i32::MIN <= self.x + rhs.x <= i32::MAX,
            i32::MIN <= self.y + rhs.y <= i32::MAX,
        ensures
            r.x == self.x + rhs.x,
            r.y == self.y + rhs.y,
    {
        IVec2 { x: self.x + rhs.x, y: self.y + rhs.y }
    }
}

/// Chunk index along an axis of width 16 (floor division).
pub open spec fn chunk_of(v: int) -> int {
    v / 16
}

/// Offset inside the chunk along an axis of width 16 (Euclidean remainder).
pub open spec fn offset_in_chunk(v: int) -> int {
    v % 16
}

/// The height clamped into the chunk's vertical range `0..=127`.
pub open spec fn clamp_height(y: int) -> int {
    if y < 0 { 0 } else if y > 127 { 127 } else { y }
}

/// Linear index of a chunk-local voxel: x, then z, then y.
pub open spec fn local_index(x: int, y: int, z: int) -> int {
    x + z * 16 + y * 256
}

/// The chunk and the chunk-local voxel that a world voxel falls in.
pub open spec fn spec_to_chunk_and_local(p: BlockPos) -> (ChunkPos, LocalBlockPos) {
    (
        ChunkPos(IVec2 { x: chunk_of(p.0.x as int) as i32, y: chunk_of(p.0.z as int) as i32 }),
        LocalBlockPos {
            x: offset_in_chunk(p.0.x as int) as u8,
            y: clamp_height(p.0.y as int) as u8,
            z: offset_in_chunk(p.0.z as int) as u8,
        },
    )
}

/// Whether the world position of a local voxel in a chunk fits in 32 bits.
pub open spec fn to_world_fits(local: LocalBlockPos, chunk: ChunkPos) -> bool {
    &&& i32::MIN <= chunk.0.x * 16 && chunk.0.x * 16 + local.x <= i32::MAX
    &&& i32::MIN <= chunk.0.y * 16 && chunk.0.y * 16 + local.z <= i32::MAX
}

pub open spec fn spec_to_world(local: LocalBlockPos, chunk: ChunkPos) -> BlockPos {
    BlockPos(IVec3 {
        x: (chunk.0.x * 16 + local.x) as i32,
        y: local.y as i32,
        z: (chunk.0.y * 16 + local.z) as i32,
    })
}

proof fn lemma_euclid_16(v: i32)
    ensures
        i32::MIN / 16 <= chunk_of(v as int) <= i32::MAX / 16,
        0 <= offset_in_chunk(v as int) < 16,
        chunk_of(v as int) * 16 + offset_in_chunk(v as int) == v,
{
}

impl BlockPos {
    pub fn new(x: i32, y: i32, z: i32) -> (r: BlockPos)
        ensures
            r.0.x == x && r.0.y == y && r.0.z == z,
    {
        BlockPos(IVec3 { x, y, z })
    }

    /// Splits a world voxel position into the chunk it falls in and its offset in
    /// that chunk; the height is clamped into the chunk's range.
    pub fn to_chunk_and_local(self) -> (r: (ChunkPos, LocalBlockPos))
        ensures
            r == spec_to_chunk_and_local(self),
    {
        proof {
            lemma_euclid_16(self.0.x);
            lemma_euclid_16(self.0.z);
        }
        let cx = self.0.x.checked_div_euclid(16).unwrap();
        let cz = self.0.z.checked_div_euclid(16).unwrap();
        let lx = self.0.x.checked_rem_euclid(16).unwrap() as u8;
        let lz = self.0.z.checked_rem_euclid(16).unwrap() as u8;
        let ly: u8 = if self.0.y < 0 {
            0
        } else if self.0.y > (CHUNK_HEIGHT - 1) as i32 {
            (CHUNK_HEIGHT - 1) as u8
        } else {
            self.0.y as u8
        };
        (ChunkPos(IVec2 { x: cx, y: cz }), LocalBlockPos { x: lx, y: ly, z: lz })
    }

    pub fn x(self) -> (r: i32)
        ensures
            r == self.0.x,
    {
        self.0.x
    }

    pub fn y(self) -> (r: i32)
        ensures
            r == self.0.y,
    {
        self.0.y
    }

    pub fn z(self) -> (r: i32)
        ensures
            r == self.0.z,
    {
        self.0.z
    }
}

impl ChunkPos {
    pub fn new(x: i32, y: i32) -> (r: ChunkPos)
        ensures
            r.0.x == x && r.0.y == y,
    {
        ChunkPos(IVec2 { x, y })
    }

    pub fn x(self) -> (r: i32)
        ensures
            r == self.0.x,
    {
        self.0.x
    }

    /// The chunk's Z index (stored in the second component).
    pub fn z(self) -> (r: i32)
        ensures
            r == self.0.y,
    {
        self.0.y
    }

    /// The world voxel at the chunk's lowest corner.
    pub fn world_min(self) -> (r: BlockPos)
        requires
            i32::MIN <= self.0.x * 16 <= i32::MAX,
            i32::MIN <= self.0.y * 16 <= i32::MAX,
        ensures
            r.0.x == self.0.x * 16,
            r.0.y == 0,
            r.0.z == self.0.y * 16,
    {
        BlockPos(IVec3 { x: self.0.x * CHUNK_WIDTH as i32, y: 0, z: self.0.y * CHUNK_DEPTH as i32 })
    }

    /// Squared horizontal distance between two chunk positions.
    pub fn distance_sq(self, other: ChunkPos) -> (r: i32)
        requires
            i32::MIN <= self.0.x - other.0.x <= i32::MAX,
            i32::MIN <= self.0.y - other.0.y <= i32::MAX,
            (self.0.x - other.0.x) * (self.0.x - other.0.x) + (self.0.y - other.0.y) * (self.0.y
                - other.0.y) <= i32::MAX,
        ensures
            r == (self.0.x - other.0.x) * (self.0.x - other.0.x) + (self.0.y - other.0.y) * (
            self.0.y - other.0.y),
    {
        let dx = self.0.x - other.0.x;
        let dy = self.0.y - other.0.y;
        assert(0 <= dx * dx && 0 <= dy * dy) by (nonlinear_arith);
        dx * dx + dy * dy
    }
}

impl LocalBlockPos {
    pub fn new(x: u8, y: u8, z: u8) -> (r: LocalBlockPos)
        ensures
            r.x == x && r.y == y && r.z == z,
    {
        LocalBlockPos { x, y, z }
    }

    /// Linear index of this voxel in a chunk's block array.
    pub fn to_index(self) -> (r: usize)
        ensures
            r == local_index(self.x as int, self.y as int, self.z as int),
    {
        self.x as usize + (self.z as usize) * 16 + (self.y as usize) * 256
    }

    /// The voxel at a linear index; the height wraps to a byte beyond 255.
    pub fn from_index(index: usize) -> (r: LocalBlockPos)
        ensures
            r.x == index % 16,
            r.z == (index / 16) % 16,
            r.y == ((index / 16) / 16) as u8,
    {
        let x = (index % CHUNK_WIDTH) as u8;
        let rem = index / CHUNK_WIDTH;
        let z = (rem % CHUNK_DEPTH) as u8;
        let y = (rem / CHUNK_DEPTH) as u8;
        LocalBlockPos { x, y, z }
    }

    /// The world voxel of this local offset in the given chunk.
    pub fn to_world(self, chunk: ChunkPos) -> (r: BlockPos)
        requires
            to_world_fits(self, chunk),
        ensures
            r == spec_to_world(self, chunk),
    {
        BlockPos(IVec3 {
            x: chunk.0.x * CHUNK_WIDTH as i32 + self.x as i32,
            y: self.y as i32,
            z: chunk.0.y * CHUNK_DEPTH as i32 + self.z as i32,
        })
    }
}

/// Splitting a world voxel into chunk and local offset and joining them again gives the
/// voxel back, for every voxel inside the chunk's height range; the local offset is
/// always inside the chunk.
pub proof fn lemma_block_chunk_roundtrip(p: BlockPos)
    requires
        0 <= p.0.y < 128,
    ensures
        ({
            let (c, l) = spec_to_chunk_and_local(p);
            &&& l.x < 16 && l.y < 128 && l.z < 16
            &&& to_world_fits(l, c)
            &&& spec_to_world(l, c) == p
        }),
{
    lemma_euclid_16(p.0.x);
    lemma_euclid_16(p.0.z);
}

/// Every chunk-local voxel has a linear index inside the chunk, and the index of
/// `from_index(i)` is `i` for every index inside the chunk.
pub proof fn lemma_local_index_bijection(l: LocalBlockPos, i: int)
    requires
        0 <= i < 16 * 128 * 16,
    ensures
        l.x < 16 && l.y < 128 && l.z < 16 ==> 0 <= local_index(l.x as int, l.y as int, l.z as int)
            < 32768,
        ({
            let x = i % 16;
            let z = (i / 16) % 16;
            let y = (i / 16) / 16;
            &&& 0 <= x < 16 && 0 <= z < 16 && 0 <= y < 128
            &&& local_index(x, y, z) == i
        }),
{
    assert(((i / 16) / 16) < 128) by (nonlinear_arith)
        requires 0 <= i < 32768;
    assert(i == i % 16 + ((i / 16) % 16) * 16 + ((i / 16) / 16) * 256) by (nonlinear_arith)
        requires 0 <= i;
}

/// Distinct local voxels inside a chunk have distinct linear indices.
pub proof fn lemma_local_index_injective(a: LocalBlockPos, b: LocalBlockPos)
    requires
        a.x < 16 && a.z < 16,
        b.x < 16 && b.z < 16,
        local_index(a.x as int, a.y as int, a.z as int) == local_index(b.x as int, b.y as int, b.z as int),
    ensures
        a == b,
{
}

} // verus!
