use vstd::prelude::*;
use std::collections::{HashMap, HashSet};

use crate::block::{BlockType, spec_is_solid};
use crate::text::{parse_u64, parsed_u64, str_trim, trimmed};
use crate::chunk::{Chunk, ChunkView, CHUNK_DEPTH, CHUNK_HEIGHT, CHUNK_WIDTH};
use crate::chunk_cache::{ChunkCache, cached_chunks};
use crate::coords::{
    BlockPos, ChunkPos, IVec2, IVec3, LocalBlockPos, chunk_of, clamp_height, local_index,
    offset_in_chunk, spec_to_chunk_and_local,
};

verus! {

broadcast use vstd::std_specs::hash::group_hash_axioms;

pub const SEA_LEVEL: i32 = 64;
pub const VIEW_DISTANCE: i32 = 16;
pub const MAX_CHUNK_DISPATCH_PER_FRAME: usize = 12;
pub const MAX_MESHES_PER_FRAME: usize = 6;

/// The world seed (numeric or derived from text).
#[derive(Clone, Copy, Debug, PartialEq, Eq, Hash, Structural)]
pub struct WorldSeed(pub u64);

impl Default for WorldSeed {
    fn default() -> (r: WorldSeed)
        ensures
            r.0 == 133742,
    {
        WorldSeed(133742)
    }
}

/// The 64-bit FNV-1a hash of a byte string.
pub open spec fn fnv1a(bytes: Seq<u8>) -> u64
    decreases bytes.len(),
{
    if bytes.len() == 0 {
        0xcbf29ce484222325u64
    } else {
        vstd::wrapping::u64_specs::wrapping_mul(fnv1a(bytes.drop_last()) ^ (bytes.last() as u64), 0x100000001b3u64)
    }
}

/// The seed a text stands for: the number it spells after trimming, else the FNV-1a hash
/// of its trimmed UTF-8 bytes.
pub open spec fn seed_of_text(s: Seq<char>) -> u64 {
    match parsed_u64(trimmed(s)) {
        Some(n) => n,
        None => fnv1a(vstd::utf8::encode_utf8(trimmed(s))),
    }
}

/// A seed mixed from a clock reading by the SplitMix64 finalizer, top bit cleared.
pub open spec fn mix_seed(n: u64) -> u64 {
    let z0 = vstd::wrapping::u64_specs::wrapping_add(n, 0x9e3779b97f4a7c15u64);
    let z1 = vstd::wrapping::u64_specs::wrapping_mul(z0 ^ (z0 >> 30u64), 0xbf58476d1ce4e5b9u64);
    let z2 = vstd::wrapping::u64_specs::wrapping_mul(z1 ^ (z1 >> 27u64), 0x94d049bb133111ebu64);
    (z2 ^ (z2 >> 31u64)) & 0x7fff_ffff_ffff_ffffu64
}

/// Reads the system clock as nanoseconds since the Unix epoch (`SystemTime::now` and
/// `duration_since`); `None` when the clock is set before the epoch. Nothing is stated of
/// the reading.
#[verifier::external_body]
fn clock_nanos() -> Option<u128> {
    std::time::SystemTime::now().duration_since(std::time::UNIX_EPOCH).ok().map(|d| d.as_nanos())
}

impl WorldSeed {
    /// The seed mixed from a clock reading (its low 64 bits).
    pub fn from_nanos(nanos: u64) -> (r: WorldSeed)
        ensures
            r.0 == mix_seed(nanos),
            r.0 <= 0x7fff_ffff_ffff_ffff,
    {
        let mut z = nanos.wrapping_add(0x9e3779b97f4a7c15);
        z = (z ^ (z >> 30)).wrapping_mul(0xbf58476d1ce4e5b9);
        z = (z ^ (z >> 27)).wrapping_mul(0x94d049bb133111eb);
        let r = (z ^ (z >> 31)) & 0x7fff_ffff_ffff_ffff;
        assert(r <= 0x7fff_ffff_ffff_ffff) by (bit_vector)
            requires
                r == (z ^ (z >> 31)) & 0x7fff_ffff_ffff_ffffu64;
        WorldSeed(r)
    }

    /// A seed mixed from the current time; the reading itself is not known, so only the
    /// mixing and the cleared top bit are stated.
    pub fn random() -> (r: WorldSeed)
        ensures
            exists|n: u64| r.0 == mix_seed(n),
            r.0 <= 0x7fff_ffff_ffff_ffff,
    {
        let nanos: u64 = match clock_nanos() {
            Some(n) => n as u64,
            None => 133742,
        };
        Self::from_nanos(nanos)
    }

    /// The seed a text stands for: a number if the trimmed text is one, otherwise the
    /// deterministic FNV-1a hash of the trimmed text.
    pub fn from_seed_str(s: &str) -> (r: WorldSeed)
        ensures
            r.0 == seed_of_text(s@),
    {
        let trimmed_text = str_trim(s);
        match parse_u64(trimmed_text) {
            Some(num) => WorldSeed(num),
            None => {
                let bytes = trimmed_text.as_bytes();
                let mut hash: u64 = 0xcbf29ce484222325;
                let mut i: usize = 0;
                while i < bytes.len()
                    invariant
                        i <= bytes@.len(),
                        bytes@ == vstd::utf8::encode_utf8(trimmed_text@),
                        hash == fnv1a(bytes@.take(i as int)),
                    decreases bytes@.len() - i,
                {
                    proof {
                        assert(bytes@.take(i + 1).drop_last() == bytes@.take(i as int));
                    }
                    hash = (hash ^ (bytes[i] as u64)).wrapping_mul(0x100000001b3);
                    i += 1;
                }
                proof {
                    assert(bytes@.take(i as int) == bytes@);
                }
                WorldSeed(hash)
            },
        }
    }
}

/// The map key of a chunk coordinate: both components shifted to be non-negative and
/// packed into 64 bits.
pub open spec fn spec_chunk_key(c: IVec2) -> u64 {
    ((c.x + 0x8000_0000) * 0x1_0000_0000 + (c.y + 0x8000_0000)) as u64
}

/// The set key of a voxel position: the three components shifted to be non-negative and
/// packed into 128 bits.
pub open spec fn spec_block_key(p: IVec3) -> u128 {
    ((p.x + 0x8000_0000) * 0x1_0000_0000_0000_0000 + (p.y + 0x8000_0000) * 0x1_0000_0000
        + (p.z + 0x8000_0000)) as u128
}

/// Distinct chunk coordinates have distinct keys.
pub proof fn lemma_chunk_key_injective(a: IVec2, b: IVec2)
    ensures
        spec_chunk_key(a) == spec_chunk_key(b) <==> a == b,
{
    let (ax, ay, bx, by) = (a.x + 0x8000_0000, a.y + 0x8000_0000, b.x + 0x8000_0000, b.y + 0x8000_0000);
    assert(0 <= ax * 0x1_0000_0000 + ay < 0x1_0000_0000_0000_0000) by (nonlinear_arith)
        requires
            0 <= ax < 0x1_0000_0000,
            0 <= ay < 0x1_0000_0000,
    ;
    assert(0 <= bx * 0x1_0000_0000 + by < 0x1_0000_0000_0000_0000) by (nonlinear_arith)
        requires
            0 <= bx < 0x1_0000_0000,
            0 <= by < 0x1_0000_0000,
    ;
    assert(ax * 0x1_0000_0000 + ay == bx * 0x1_0000_0000 + by ==> ax == bx && ay == by) by (nonlinear_arith)
        requires
            0 <= ax < 0x1_0000_0000,
            0 <= ay < 0x1_0000_0000,
            0 <= bx < 0x1_0000_0000,
            0 <= by < 0x1_0000_0000,
    ;
}

/// Distinct voxel positions have distinct keys.
pub proof fn lemma_block_key_injective(a: IVec3, b: IVec3)
    ensures
        spec_block_key(a) == spec_block_key(b) <==> a == b,
{
    let (ax, ay, az) = (a.x + 0x8000_0000, a.y + 0x8000_0000, a.z + 0x8000_0000);
    let (bx, by, bz) = (b.x + 0x8000_0000, b.y + 0x8000_0000, b.z + 0x8000_0000);
    let m: int = 0x1_0000_0000;
    assert(0 <= ax * (m * m) + ay * m + az < m * m * m) by (nonlinear_arith)
        requires
            m == 0x1_0000_0000,
            0 <= ax < m,
            0 <= ay < m,
            0 <= az < m,
    ;
    assert(0 <= bx * (m * m) + by * m + bz < m * m * m) by (nonlinear_arith)
        requires
            m == 0x1_0000_0000,
            0 <= bx < m,
            0 <= by < m,
            0 <= bz < m,
    ;
    assert(ax * (m * m) + ay * m + az == bx * (m * m) + by * m + bz ==> ax == bx && ay == by && az == bz)
        by (nonlinear_arith)
        requires
            m == 0x1_0000_0000,
            0 <= ax < m,
            0 <= ay < m,
            0 <= az < m,
            0 <= bx < m,
            0 <= by < m,
            0 <= bz < m,
    ;
    assert(m * m == 0x1_0000_0000_0000_0000);
    assert(m * m * m == 0x1_0000_0000_0000_0000_0000_0000);
}

/// The map key of a chunk coordinate.
pub fn chunk_key(c: IVec2) -> (r: u64)
    ensures
        r == spec_chunk_key(c),
{
    let hi = (c.x as i64 + 0x8000_0000) as u64;
    let lo = (c.y as i64 + 0x8000_0000) as u64;
    assert(hi * 0x1_0000_0000 + lo <= u64::MAX) by (nonlinear_arith)
        requires
            hi < 0x1_0000_0000,
            lo < 0x1_0000_0000,
    ;
    hi * 0x1_0000_0000 + lo
}

/// The set key of a voxel position.
pub fn block_key(p: IVec3) -> (r: u128)
    ensures
        r == spec_block_key(p),
{
    let a = (p.x as i64 + 0x8000_0000) as u128;
    let b = (p.y as i64 + 0x8000_0000) as u128;
    let c = (p.z as i64 + 0x8000_0000) as u128;
    assert(a * 0x1_0000_0000_0000_0000 + b * 0x1_0000_0000 + c <= u128::MAX) by (nonlinear_arith)
        requires
            a < 0x1_0000_0000,
            b < 0x1_0000_0000,
            c < 0x1_0000_0000,
    ;
    a * 0x1_0000_0000_0000_0000 + b * 0x1_0000_0000 + c
}

/// The loaded chunks of the world and the bookkeeping of which need saving and re-meshing.
pub struct WorldGrid {
    pub chunks: HashMap<u64, Chunk>,
    pub modified_chunks: HashSet<u64>,
    pub dirty_chunks: HashSet<u64>,
    pub queued_for_mesh: HashSet<u64>,
    pub mesh_queue: Vec<IVec2>,
    pub last_player_chunk: IVec2,
    pub seed: WorldSeed,
    /// Chunks still to generate around the player, the nearest last.
    pub generation_queue: Vec<IVec2>,
    /// Chunks being generated.
    pub in_progress_chunks: HashSet<u64>,
    /// Chunks whose meshes are being built.
    pub in_progress_meshes: HashSet<u64>,
    /// Recently unloaded chunks.
    pub chunk_cache: ChunkCache,
}

/// The part of the world that block reads and writes see and change.
pub struct WorldView {
    pub chunks: Map<u64, ChunkView>,
    pub modified: Set<u64>,
    pub dirty: Set<u64>,
}

/// Every loaded chunk holds one block per voxel.
pub open spec fn chunks_wf(chunks: Map<u64, ChunkView>) -> bool {
    forall|k: u64| #[trigger] chunks.contains_key(k) ==> chunks[k].wf()
}

/// The block at a world position: air outside the height range or in unloaded chunks.
pub open spec fn view_block(chunks: Map<u64, ChunkView>, p: IVec3) -> BlockType {
    if p.y < 0 || p.y >= 128 {
        BlockType::Air
    } else {
        let (c, l) = spec_to_chunk_and_local(BlockPos(p));
        let k = spec_chunk_key(c.0);
        if chunks.contains_key(k) {
            chunks[k].block_at(l.x as int, l.y as int, l.z as int)
        } else {
            BlockType::Air
        }
    }
}

/// The chunk coordinates that a write at local offset `l` of chunk `c` makes dirty: the
/// chunk itself, then the west or east neighbour on an x border, then the south or north
/// neighbour on a z border.
pub open spec fn dirty_neighbors(c: IVec2, l: LocalBlockPos) -> Seq<IVec2> {
    let s1 = seq![c];
    let s2 = if l.x == 0 {
        s1.push(IVec2 { x: (c.x - 1) as i32, y: c.y })
    } else if l.x == 15 {
        s1.push(IVec2 { x: (c.x + 1) as i32, y: c.y })
    } else {
        s1
    };
    if l.z == 0 {
        s2.push(IVec2 { x: c.x, y: (c.y - 1) as i32 })
    } else if l.z == 15 {
        s2.push(IVec2 { x: c.x, y: (c.y + 1) as i32 })
    } else {
        s2
    }
}

/// The chunk a write to a loaded chunk leaves: the block replaced, `max_y` raised for a
/// non-air block above it.
pub open spec fn chunk_with_block(ch: ChunkView, l: LocalBlockPos, block: BlockType) -> ChunkView {
    ChunkView {
        blocks: ch.blocks.update(local_index(l.x as int, l.y as int, l.z as int), block),
        max_y: if block != BlockType::Air && l.y > ch.max_y { l.y as usize } else { ch.max_y },
    }
}

/// What writing `block` at `p` does to the world, and the chunks it makes dirty.
pub open spec fn view_set_block(w: WorldView, p: IVec3, block: BlockType) -> (WorldView, Seq<IVec2>) {
    if p.y < 0 || p.y >= 128 {
        (w, Seq::empty())
    } else {
        let (c, l) = spec_to_chunk_and_local(BlockPos(p));
        let k = spec_chunk_key(c.0);
        if w.chunks.contains_key(k) {
            (
                WorldView {
                    chunks: w.chunks.insert(k, chunk_with_block(w.chunks[k], l, block)),
                    modified: w.modified.insert(k),
                    dirty: w.dirty.insert(k),
                },
                dirty_neighbors(c.0, l),
            )
        } else {
            (w, Seq::empty())
        }
    }
}

impl Default for WorldGrid {
    /// An empty world for the default seed.
    fn default() -> (r: WorldGrid)
        ensures
            r.chunks@ == Map::<u64, Chunk>::empty(),
            r.modified_chunks@ == Set::<u64>::empty(),
            r.dirty_chunks@ == Set::<u64>::empty(),
            r.queued_for_mesh@ == Set::<u64>::empty(),
            r.mesh_queue@ == Seq::<IVec2>::empty(),
            r.last_player_chunk == (IVec2 { x: i32::MAX, y: i32::MAX }),
            r.seed.0 == 133742,
            r.generation_queue@ == Seq::<IVec2>::empty(),
            r.in_progress_chunks@ == Set::<u64>::empty(),
            r.in_progress_meshes@ == Set::<u64>::empty(),
            cached_chunks(r.chunk_cache).dom().is_empty(),
            r.wf(),
    {
        WorldGrid::new(WorldSeed::default())
    }
}

/// The chunks queued for meshing and their queue after a request to mesh `c`: it joins
/// the queue unless it is already queued.
pub open spec fn mesh_requested(queued: Set<u64>, queue: Seq<IVec2>, c: IVec2) -> (Set<u64>, Seq<IVec2>) {
    if queued.contains(spec_chunk_key(c)) {
        (queued, queue)
    } else {
        (queued.insert(spec_chunk_key(c)), queue.push(c))
    }
}

impl WorldGrid {
    pub open spec fn view(&self) -> WorldView {
        WorldView {
            chunks: self.chunks@.map_values(|c: Chunk| c@),
            modified: self.modified_chunks@,
            dirty: self.dirty_chunks@,
        }
    }

    pub open spec fn wf(&self) -> bool {
        chunks_wf(self.view().chunks)
    }

    /// An empty world for a seed.
    pub fn new(seed: WorldSeed) -> (r: WorldGrid)
        ensures
            r.chunks@ == Map::<u64, Chunk>::empty(),
            r.view().chunks == Map::<u64, ChunkView>::empty(),
            r.modified_chunks@ == Set::<u64>::empty(),
            r.dirty_chunks@ == Set::<u64>::empty(),
            r.queued_for_mesh@ == Set::<u64>::empty(),
            r.mesh_queue@ == Seq::<IVec2>::empty(),
            r.last_player_chunk == (IVec2 { x: i32::MAX, y: i32::MAX }),
            r.seed == seed,
            r.generation_queue@ == Seq::<IVec2>::empty(),
            r.in_progress_chunks@ == Set::<u64>::empty(),
            r.in_progress_meshes@ == Set::<u64>::empty(),
            cached_chunks(r.chunk_cache).dom().is_empty(),
            r.wf(),
    {
        WorldGrid {
            chunks: HashMap::new(),
            modified_chunks: HashSet::new(),
            dirty_chunks: HashSet::new(),
            queued_for_mesh: HashSet::new(),
            mesh_queue: Vec::new(),
            last_player_chunk: IVec2 { x: i32::MAX, y: i32::MAX },
            seed,
            generation_queue: Vec::new(),
            in_progress_chunks: HashSet::new(),
            in_progress_meshes: HashSet::new(),
            chunk_cache: ChunkCache::new(),
        }
    }

    /// Forgets the loaded world and its bookkeeping and starts over with another seed.
    pub fn reinitialize_with_seed(&mut self, new_seed: WorldSeed)
        ensures
            final(self).chunks@ == Map::<u64, Chunk>::empty(),
            final(self).modified_chunks@ == Set::<u64>::empty(),
            final(self).dirty_chunks@ == Set::<u64>::empty(),
            final(self).queued_for_mesh@ == Set::<u64>::empty(),
            final(self).mesh_queue@ == Seq::<IVec2>::empty(),
            final(self).last_player_chunk == (IVec2 { x: i32::MAX, y: i32::MAX }),
            final(self).seed == new_seed,
            final(self).generation_queue@ == Seq::<IVec2>::empty(),
            final(self).in_progress_chunks@ == Set::<u64>::empty(),
            final(self).in_progress_meshes@ == Set::<u64>::empty(),
            cached_chunks(final(self).chunk_cache).dom().is_empty(),
            final(self).wf(),
    {
        *self = WorldGrid::new(new_seed);
    }

    /// Queues a chunk for re-meshing unless it is already queued.
    pub fn queue_mesh(&mut self, coord: ChunkPos)
        ensures
            (final(self).queued_for_mesh@, final(self).mesh_queue@) == mesh_requested(
                old(self).queued_for_mesh@,
                old(self).mesh_queue@,
                coord.0,
            ),
            final(self).chunks == old(self).chunks,
            final(self).modified_chunks == old(self).modified_chunks,
            final(self).dirty_chunks == old(self).dirty_chunks,
            final(self).last_player_chunk == old(self).last_player_chunk,
            final(self).seed == old(self).seed,
            final(self).generation_queue == old(self).generation_queue,
            final(self).in_progress_chunks == old(self).in_progress_chunks,
            final(self).in_progress_meshes == old(self).in_progress_meshes,
            final(self).chunk_cache == old(self).chunk_cache,
    {
        let c = coord.0;
        if self.queued_for_mesh.insert(chunk_key(c)) {
            self.mesh_queue.push(c);
        }
    }

    /// The chunk coordinate of a world column and the column's offset in that chunk.
    pub fn world_to_chunk_coord(wx: i32, wz: i32) -> (r: (IVec2, usize, usize))
        ensures
            r.0.x == chunk_of(wx as int),
            r.0.y == chunk_of(wz as int),
            r.1 == offset_in_chunk(wx as int),
            r.2 == offset_in_chunk(wz as int),
    {
        let (c, l) = BlockPos::new(wx, 0, wz).to_chunk_and_local();
        (c.0, l.x as usize, l.z as usize)
    }

    /// The block at a world position: air above or below the world and in unloaded chunks.
    pub fn get_block(&self, pos: IVec3) -> (r: BlockType)
        requires
            self.wf(),
        ensures
            r == view_block(self.view().chunks, pos),
    {
        let pos = BlockPos(pos);
        if pos.y() < 0 || pos.y() >= CHUNK_HEIGHT as i32 {
            return BlockType::Air;
        }
        let (c_coord, local) = pos.to_chunk_and_local();
        match self.chunks.get(&chunk_key(c_coord.0)) {
            Some(chunk) => chunk.get_local(local),
            None => BlockType::Air,
        }
    }

    /// Whether the block at a world position is solid.
    pub fn is_solid_at(&self, pos: IVec3) -> (r: bool)
        requires
            self.wf(),
        ensures
            r == spec_is_solid(view_block(self.view().chunks, pos)),
    {
        self.get_block(pos).is_solid()
    }

    /// Writes a block at a world position of a loaded chunk and marks the chunk modified and
    /// dirty; returns the chunks whose meshes the write touches. Writes outside the height
    /// range or into unloaded chunks do nothing.
    pub fn set_block(&mut self, pos: IVec3, block: BlockType) -> (r: Vec<IVec2>)
        requires
            old(self).wf(),
        ensures
            final(self).wf(),
            (final(self).view(), r@) == view_set_block(old(self).view(), pos, block),
            final(self).queued_for_mesh == old(self).queued_for_mesh,
            final(self).mesh_queue == old(self).mesh_queue,
            final(self).last_player_chunk == old(self).last_player_chunk,
            final(self).seed == old(self).seed,
            final(self).generation_queue == old(self).generation_queue,
            final(self).in_progress_chunks == old(self).in_progress_chunks,
            final(self).in_progress_meshes == old(self).in_progress_meshes,
            final(self).chunk_cache == old(self).chunk_cache,
    {
        let bpos = BlockPos(pos);
        if bpos.y() < 0 || bpos.y() >= CHUNK_HEIGHT as i32 {
            return Vec::new();
        }
        let (c_coord, local) = bpos.to_chunk_and_local();
        let key = chunk_key(c_coord.0);
        let mut dirty_chunks: Vec<IVec2> = Vec::new();
        match self.chunks.remove(&key) {
            Some(mut chunk) => {
                proof {
                    assert(old(self).view().chunks.contains_key(key));
                    assert(old(self).view().chunks[key] == chunk@);
                }
                chunk.set_local(local, block);
                self.chunks.insert(key, chunk);
                dirty_chunks.push(c_coord.0);
                self.modified_chunks.insert(key);
                self.dirty_chunks.insert(key);
                if local.x == 0 {
                    dirty_chunks.push(c_coord.0.add(IVec2 { x: -1, y: 0 }));
                } else if local.x as usize == CHUNK_WIDTH - 1 {
                    dirty_chunks.push(c_coord.0.add(IVec2 { x: 1, y: 0 }));
                }
                if local.z == 0 {
                    dirty_chunks.push(c_coord.0.add(IVec2 { x: 0, y: -1 }));
                } else if local.z as usize == CHUNK_DEPTH - 1 {
                    dirty_chunks.push(c_coord.0.add(IVec2 { x: 0, y: 1 }));
                }
                proof {
                    assert(self.view().chunks =~= old(self).view().chunks.insert(key, chunk_with_block(old(self).view().chunks[key], local, block)));
                    assert forall|k2: u64| #[trigger] self.view().chunks.contains_key(k2) implies self.view().chunks[k2].wf() by {
                        if k2 != key {
                            assert(old(self).view().chunks.contains_key(k2));
                        }
                    }
                }
            },
            None => {
                proof {
                    assert(self.chunks@ =~= old(self).chunks@);
                    assert(self.view().chunks =~= old(self).view().chunks);
                }
            },
        }
        dirty_chunks
    }
}

/// A read after a write: the written position reads back the written block when it lies in
/// the height range of a loaded chunk, and every other position reads as before.
pub proof fn lemma_get_after_set(w: WorldView, p: IVec3, block: BlockType, q: IVec3)
    requires
        chunks_wf(w.chunks),
    ensures
        ({
            let w2 = view_set_block(w, p, block).0;
            let loaded = 0 <= p.y < 128 && w.chunks.contains_key(
                spec_chunk_key(spec_to_chunk_and_local(BlockPos(p)).0.0),
            );
            &&& chunks_wf(w2.chunks)
            &&& view_block(w2.chunks, q) == if q == p && loaded {
                block
            } else {
                view_block(w.chunks, q)
            }
        }),
{
    let w2 = view_set_block(w, p, block).0;
    if 0 <= p.y < 128 {
        let (c, l) = spec_to_chunk_and_local(BlockPos(p));
        crate::coords::lemma_block_chunk_roundtrip(BlockPos(p));
        let k = spec_chunk_key(c.0);
        if w.chunks.contains_key(k) {
            assert forall|k2: u64| #[trigger] w2.chunks.contains_key(k2) implies w2.chunks[k2].wf() by {
            }
            if 0 <= q.y < 128 {
                let (c2, l2) = spec_to_chunk_and_local(BlockPos(q));
                crate::coords::lemma_block_chunk_roundtrip(BlockPos(q));
                lemma_chunk_key_injective(c.0, c2.0);
                let k2 = spec_chunk_key(c2.0);
                if k2 == k && local_index(l.x as int, l.y as int, l.z as int) == local_index(l2.x as int, l2.y as int, l2.z as int) {
                    crate::coords::lemma_local_index_injective(l, l2);
                    assert(q == p);
                }
            }
        }
    }
}

/// The chunk column that holds a world position.
pub open spec fn chunk_containing(q: IVec3) -> IVec2 {
    IVec2 { x: ((q.x as int) / 16) as i32, y: ((q.z as int) / 16) as i32 }
}

/// The chunks a write into a loaded chunk reports for re-meshing are exactly the chunks
/// that hold the written position or one of its four horizontal neighbours: the written
/// chunk, and each neighbouring chunk across whose border the position lies.
pub proof fn lemma_write_dirties_touching_chunks(w: WorldView, p: IVec3, block: BlockType, c: IVec2)
    requires
        0 <= p.y < 128,
        i32::MIN < p.x < i32::MAX,
        i32::MIN < p.z < i32::MAX,
        w.chunks.contains_key(spec_chunk_key(chunk_containing(p))),
    ensures
        view_set_block(w, p, block).1.contains(c) <==> {
            ||| c == chunk_containing(p)
            ||| c == chunk_containing(IVec3 { x: (p.x + 1) as i32, ..p })
            ||| c == chunk_containing(IVec3 { x: (p.x - 1) as i32, ..p })
            ||| c == chunk_containing(IVec3 { z: (p.z + 1) as i32, ..p })
            ||| c == chunk_containing(IVec3 { z: (p.z - 1) as i32, ..p })
        },
        view_set_block(w, p, block).1[0] == chunk_containing(p),
{
    let (cc, l) = spec_to_chunk_and_local(BlockPos(p));
    assert(cc.0 == chunk_containing(p));
    let d = view_set_block(w, p, block).1;
    assert(d == dirty_neighbors(cc.0, l));
    let px = p.x as int;
    let pz = p.z as int;
    assert(px % 16 == 15 ==> (px + 1) / 16 == px / 16 + 1 && (px - 1) / 16 == px / 16);
    assert(px % 16 == 0 ==> (px - 1) / 16 == px / 16 - 1 && (px + 1) / 16 == px / 16);
    assert(0 < px % 16 < 15 ==> (px - 1) / 16 == px / 16 && (px + 1) / 16 == px / 16);
    assert(pz % 16 == 15 ==> (pz + 1) / 16 == pz / 16 + 1 && (pz - 1) / 16 == pz / 16);
    assert(pz % 16 == 0 ==> (pz - 1) / 16 == pz / 16 - 1 && (pz + 1) / 16 == pz / 16);
    assert(0 < pz % 16 < 15 ==> (pz - 1) / 16 == pz / 16 && (pz + 1) / 16 == pz / 16);
    assert(l.x == px % 16 && l.z == pz % 16);
    if d.contains(c) {
        let j = choose|j: int| 0 <= j < d.len() && d[j] == c;
    }
    if c == chunk_containing(p) {
        assert(d[0] == c);
    }
    let xp = chunk_containing(IVec3 { x: (p.x + 1) as i32, ..p });
    let xm = chunk_containing(IVec3 { x: (p.x - 1) as i32, ..p });
    let zp = chunk_containing(IVec3 { z: (p.z + 1) as i32, ..p });
    let zm = chunk_containing(IVec3 { z: (p.z - 1) as i32, ..p });
    if c == xp || c == xm || c == zp || c == zm {
        if c == cc.0 {
            assert(d[0] == c);
        } else if l.x == 0 && c == xm {
            assert(d[1] == c);
        } else if l.x == 15 && c == xp {
            assert(d[1] == c);
        } else if l.z == 0 && c == zm {
            assert(d[d.len() - 1] == c);
        } else if l.z == 15 && c == zp {
            assert(d[d.len() - 1] == c);
        }
    }
}

/// A write outside the height range or into a chunk that is not loaded changes nothing
/// and reports no chunk.
pub proof fn lemma_write_outside_does_nothing(w: WorldView, p: IVec3, block: BlockType)
    requires
        p.y < 0 || p.y >= 128 || !w.chunks.contains_key(spec_chunk_key(chunk_containing(p))),
    ensures
        view_set_block(w, p, block).0 == w,
        view_set_block(w, p, block).1.len() == 0,
{
    assert(spec_to_chunk_and_local(BlockPos(p)).0.0 == chunk_containing(p));
}

} // verus!
