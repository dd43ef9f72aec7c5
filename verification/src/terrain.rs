use vstd::prelude::*;

use crate::block::BlockType;
use crate::chunk::{Chunk, highest_solid, highest_solid_below, height_of_index};
use crate::coords::local_index;
use crate::world::SEA_LEVEL;

verus! {

/// The climate zones that shape a column of terrain.
#[derive(Clone, Copy, Debug, PartialEq, Eq, Structural)]
pub enum BiomeType {
    Ocean,
    FrozenOcean,
    Beach,
    Plains,
    Forest,
    Desert,
    SnowyTundra,
    Mountains,
}

/// What the noise functions decide for one column: its biome, its surface height and
/// whether a river runs through it.
#[derive(Clone, Copy, Debug, PartialEq, Eq, Structural)]
pub struct ColumnTerrain {
    pub biome: BiomeType,
    pub height: i32,
    pub is_river: bool,
}

/// A deterministic 32-bit hash of a voxel position and the world seed.
pub open spec fn pos_hash(x: i32, y: i32, z: i32, seed: u64) -> u32 {
    let h0 = vstd::wrapping::u32_specs::wrapping_mul(x as u32, 0x45d9f3bu32)
        ^ vstd::wrapping::u32_specs::wrapping_mul(y as u32, 0x1b192e23u32)
        ^ vstd::wrapping::u32_specs::wrapping_mul(z as u32, 0x27d4eb2du32) ^ (seed as u32);
    let h1 = vstd::wrapping::u32_specs::wrapping_mul((h0 >> 16u32) ^ h0, 0x45d9f3bu32);
    (h1 >> 16u32) ^ h1
}

/// A deterministic 32-bit hash of a voxel position and the world seed.
pub fn pseudo_hash_3d(x: i32, y: i32, z: i32, seed: u64) -> (r: u32)
    ensures
        r == pos_hash(x, y, z, seed),
{
    let h0 = (x as u32).wrapping_mul(0x45d9f3b) ^ (y as u32).wrapping_mul(0x1b192e23) ^ (z
        as u32).wrapping_mul(0x27d4eb2d) ^ (seed as u32);
    let h1 = ((h0 >> 16) ^ h0).wrapping_mul(0x45d9f3b);
    (h1 >> 16) ^ h1
}

/// Division by four rounding toward zero.
pub open spec fn div4_toward_zero(v: int) -> int {
    if v >= 0 { v / 4 } else { -((-v) / 4) }
}

fn div4_exec(v: i32) -> (r: i32)
    ensures
        r == div4_toward_zero(v as int),
{
    if v >= 0 {
        v / 4
    } else {
        let m: i64 = -(v as i64);
        let q: i64 = m / 4;
        (-q) as i32
    }
}

/// Caves are carved only from height 4 up to four blocks under the surface (and never
/// above 110), and never in the top four blocks of land at or below sea level.
pub open spec fn spec_in_cave_zone(y: int, h: int) -> bool {
    let max_cave_y = if h - 4 < 110 { h - 4 } else { 110 };
    y >= 4 && y < max_cave_y && !(h <= SEA_LEVEL && y >= h - 4)
}

/// Whether height `y` of a column with surface `h` may hold a cave.
pub fn in_cave_zone(y: i32, h: i32) -> (r: bool)
    requires
        -1 <= h <= 127,
    ensures
        r == spec_in_cave_zone(y as int, h as int),
{
    let max_cave_y = if h - 4 < 110 { h - 4 } else { 110 };
    y >= 4 && y < max_cave_y && !(h <= SEA_LEVEL && y >= h - 4)
}

/// The rock layer of a biome at height `y` under a surface at `h`.
pub open spec fn strata_block(biome: BiomeType, y: int, h: int, wx: i32, wz: i32, seed: u64) -> BlockType {
    match biome {
        BiomeType::Desert => if y == h || y >= h - 3 {
            BlockType::Sand
        } else if y >= h - 7 {
            BlockType::Sandstone
        } else {
            BlockType::Stone
        },
        BiomeType::Ocean | BiomeType::FrozenOcean => if y == h {
            if pos_hash(div4_toward_zero(wx as int) as i32, 0, div4_toward_zero(wz as int) as i32, seed) % 3 == 0 {
                BlockType::Gravel
            } else {
                BlockType::Sand
            }
        } else if y >= h - 3 {
            BlockType::Dirt
        } else {
            BlockType::Stone
        },
        BiomeType::Beach => if y >= h - 3 { BlockType::Sand } else { BlockType::Stone },
        BiomeType::SnowyTundra => if y == h {
            BlockType::Snow
        } else if y >= h - 3 {
            BlockType::Dirt
        } else {
            BlockType::Stone
        },
        BiomeType::Mountains => if y == h {
            if h > 105 { BlockType::Snow } else if h > 88 { BlockType::Stone } else { BlockType::Grass }
        } else if y >= h - 2 && h <= 88 {
            BlockType::Dirt
        } else {
            BlockType::Stone
        },
        BiomeType::Plains | BiomeType::Forest => if y == h {
            BlockType::Grass
        } else if y >= h - 3 {
            BlockType::Dirt
        } else {
            BlockType::Stone
        },
    }
}

/// Deep stone holds ore veins: diamonds low down, then gold, iron and coal, and pockets
/// of gravel.
pub open spec fn with_ore(base: BlockType, y: int, h: int, wx: i32, wz: i32, seed: u64) -> BlockType {
    if base == BlockType::Stone && y >= 2 && y < h - 4 {
        let hash = pos_hash(wx, y as i32, wz, seed);
        if y <= 16 && hash % 179 == 0 {
            BlockType::DiamondOre
        } else if y <= 32 && hash % 109 == 0 {
            BlockType::GoldOre
        } else if y <= 64 && hash % 41 == 0 {
            BlockType::IronOre
        } else if y <= 115 && hash % 25 == 0 {
            BlockType::CoalOre
        } else if hash % 79 == 0 {
            BlockType::Gravel
        } else {
            BlockType::Stone
        }
    } else {
        base
    }
}

/// The block the terrain puts at height `y` of a column: water (ice at the surface of
/// frozen oceans) from above the ground up to sea level, bedrock at the bottom and, by
/// the hash, one above, caves where the cave noise says so, and otherwise the biome's
/// layers with their ores.
pub open spec fn terrain_at(col: ColumnTerrain, wx: i32, wz: i32, y: int, seed: u64, cave: bool) -> BlockType {
    let h = col.height as int;
    if h < SEA_LEVEL && h + 1 <= y <= SEA_LEVEL {
        if col.biome == BiomeType::FrozenOcean && y == SEA_LEVEL { BlockType::Ice } else { BlockType::Water }
    } else if y == 0 {
        BlockType::Bedrock
    } else if y == 1 && pos_hash(wx, 1, wz, seed) % 2 == 0 {
        BlockType::Bedrock
    } else if 1 <= y <= h {
        if spec_in_cave_zone(y, h) && cave {
            BlockType::Air
        } else {
            with_ore(strata_block(col.biome, y, h, wx, wz, seed), y, h, wx, wz, seed)
        }
    } else {
        BlockType::Air
    }
}

/// The terrain of a chunk, in storage order; `columns` is indexed `x * 16 + z` and `caves`
/// in storage order.
pub open spec fn terrain_blocks(cx: i32, cz: i32, seed: u64, columns: Seq<ColumnTerrain>, caves: Seq<bool>) -> Seq<BlockType> {
    Seq::new(
        32768,
        |i: int|
            {
                let x = i % 16;
                let z = (i / 16) % 16;
                let y = i / 256;
                terrain_at(columns[x * 16 + z], (cx * 16 + x) as i32, (cz * 16 + z) as i32, y, seed, caves[i])
            },
    )
}

fn terrain_at_exec(col: ColumnTerrain, wx: i32, wz: i32, y: i32, seed: u64, cave: bool) -> (r: BlockType)
    requires
        -1 <= col.height <= 127,
        0 <= y < 128,
    ensures
        r == terrain_at(col, wx, wz, y as int, seed, cave),
{
    let h = col.height;
    if h < SEA_LEVEL && h + 1 <= y && y <= SEA_LEVEL {
        if col.biome == BiomeType::FrozenOcean && y == SEA_LEVEL { BlockType::Ice } else { BlockType::Water }
    } else if y == 0 {
        BlockType::Bedrock
    } else if y == 1 && pseudo_hash_3d(wx, 1, wz, seed) % 2 == 0 {
        BlockType::Bedrock
    } else if 1 <= y && y <= h {
        if in_cave_zone(y, h) && cave {
            BlockType::Air
        } else {
            let base = match col.biome {
                BiomeType::Desert => if y == h || y >= h - 3 {
                    BlockType::Sand
                } else if y >= h - 7 {
                    BlockType::Sandstone
                } else {
                    BlockType::Stone
                },
                BiomeType::Ocean | BiomeType::FrozenOcean => if y == h {
                    if pseudo_hash_3d(div4_exec(wx), 0, div4_exec(wz), seed) % 3 == 0 {
                        BlockType::Gravel
                    } else {
                        BlockType::Sand
                    }
                } else if y >= h - 3 {
                    BlockType::Dirt
                } else {
                    BlockType::Stone
                },
                BiomeType::Beach => if y >= h - 3 { BlockType::Sand } else { BlockType::Stone },
                BiomeType::SnowyTundra => if y == h {
                    BlockType::Snow
                } else if y >= h - 3 {
                    BlockType::Dirt
                } else {
                    BlockType::Stone
                },
                BiomeType::Mountains => if y == h {
                    if h > 105 { BlockType::Snow } else if h > 88 { BlockType::Stone } else { BlockType::Grass }
                } else if y >= h - 2 && h <= 88 {
                    BlockType::Dirt
                } else {
                    BlockType::Stone
                },
                BiomeType::Plains | BiomeType::Forest => if y == h {
                    BlockType::Grass
                } else if y >= h - 3 {
                    BlockType::Dirt
                } else {
                    BlockType::Stone
                },
            };
            if base == BlockType::Stone && y >= 2 && y < h - 4 {
                let hash = pseudo_hash_3d(wx, y, wz, seed);
                if y <= 16 && hash % 179 == 0 {
                    BlockType::DiamondOre
                } else if y <= 32 && hash % 109 == 0 {
                    BlockType::GoldOre
                } else if y <= 64 && hash % 41 == 0 {
                    BlockType::IronOre
                } else if y <= 115 && hash % 25 == 0 {
                    BlockType::CoalOre
                } else if hash % 79 == 0 {
                    BlockType::Gravel
                } else {
                    BlockType::Stone
                }
            } else {
                base
            }
        }
    } else {
        BlockType::Air
    }
}

/// The columns' heights are within the range terrain generation produces and chunk
/// coordinates leave room for their world positions.
pub open spec fn terrain_inputs_ok(cx: i32, cz: i32, columns: Seq<ColumnTerrain>, caves: Seq<bool>) -> bool {
    &&& columns.len() == 256
    &&& caves.len() == 32768
    &&& forall|i: int| 0 <= i < 256 ==> -1 <= (#[trigger] columns[i]).height <= 127
    &&& i32::MIN <= cx * 16 && cx * 16 + 15 <= i32::MAX
    &&& i32::MIN <= cz * 16 && cz * 16 + 15 <= i32::MAX
}

/// Lays down the terrain of a chunk from the noise decisions of its columns and the cave
/// noise of its voxels.
pub fn build_terrain(cx: i32, cz: i32, seed: u64, columns: &Vec<ColumnTerrain>, caves: &Vec<bool>) -> (r: Vec<BlockType>)
    requires
        terrain_inputs_ok(cx, cz, columns@, caves@),
    ensures
        r@ == terrain_blocks(cx, cz, seed, columns@, caves@),
{
    let mut blocks: Vec<BlockType> = Vec::with_capacity(32768);
    let mut i: usize = 0;
    while i < 32768
        invariant
            terrain_inputs_ok(cx, cz, columns@, caves@),
            i <= 32768,
            blocks@.len() == i,
            forall|j: int| 0 <= j < i ==> #[trigger] blocks@[j] == terrain_blocks(cx, cz, seed, columns@, caves@)[j],
        decreases 32768 - i,
    {
        let x = i % 16;
        let z = (i / 16) % 16;
        let y = i / 256;
        let col = columns[x * 16 + z];
        let wx = cx * 16 + x as i32;
        let wz = cz * 16 + z as i32;
        let b = terrain_at_exec(col, wx, wz, y as i32, seed, caves[i]);
        blocks.push(b);
        i += 1;
    }
    proof {
        assert(blocks@ =~= terrain_blocks(cx, cz, seed, columns@, caves@));
    }
    blocks
}

/// What grows on a surface column.
#[derive(Clone, Copy, Debug, PartialEq, Eq, Structural)]
pub enum Feature {
    Nothing,
    /// A cactus of the given height.
    Cactus(i32),
    /// A round-canopied oak.
    Oak,
    /// A conical pine.
    Pine,
}

/// The feature of a surface column, given the block now at its surface: cacti on desert
/// sand, trees on forest and plains grass, pines on tundra snow, each by its own share of
/// hash values; nothing by rivers, at or near sea level, or where a tree would leave the
/// chunk's top.
pub open spec fn feature_of(col: ColumnTerrain, wx: i32, wz: i32, seed: u64, surface: BlockType) -> Feature {
    let h = col.height as int;
    if col.is_river || h <= SEA_LEVEL + 1 || h + 6 >= 128 {
        Feature::Nothing
    } else {
        let hash = pos_hash(wx, h as i32, wz, seed);
        match col.biome {
            BiomeType::Desert => if hash % 41 == 0 && surface == BlockType::Sand {
                Feature::Cactus((2 + hash % 2) as i32)
            } else {
                Feature::Nothing
            },
            BiomeType::Forest => if hash % 16 == 0 && surface == BlockType::Grass { Feature::Oak } else { Feature::Nothing },
            BiomeType::Plains => if hash % 45 == 0 && surface == BlockType::Grass { Feature::Oak } else { Feature::Nothing },
            BiomeType::SnowyTundra => if hash % 35 == 0 && surface == BlockType::Snow { Feature::Pine } else { Feature::Nothing },
            _ => Feature::Nothing,
        }
    }
}

pub open spec fn abs_int(v: int) -> int {
    if v < 0 { -v } else { v }
}

/// The trunk of a tree at column `(lx, lz)` over a surface at `h`.
pub open spec fn in_trunk(f: Feature, x: int, y: int, z: int, lx: int, lz: int, h: int) -> bool {
    x == lx && z == lz && match f {
        Feature::Oak => h + 1 <= y <= h + 4,
        Feature::Pine => h + 1 <= y <= h + 5,
        Feature::Cactus(ch) => h + 1 <= y <= h + ch,
        Feature::Nothing => false,
    }
}

/// The leaves of a tree at column `(lx, lz)` over a surface at `h`.
pub open spec fn in_canopy(f: Feature, x: int, y: int, z: int, lx: int, lz: int, h: int) -> bool {
    let dx = abs_int(x - lx);
    let dz = abs_int(z - lz);
    match f {
        Feature::Oak => h + 3 <= y <= h + 6 && dx <= 2 && dz <= 2 && !(y == h + 6 && (dx > 1 || dz > 1))
            && !(dx == 2 && dz == 2 && y >= h + 5),
        Feature::Pine => {
            let r: int = if y == h + 6 { 0 } else if y >= h + 5 { 1 } else { 2 };
            h + 3 <= y <= h + 6 && dx <= r && dz <= r && !(r == 2 && dx == 2 && dz == 2)
        },
        _ => false,
    }
}

/// A block after a feature grows: the trunk (or cactus) replaces what was there, leaves
/// fill only air.
pub open spec fn feature_cell(old: BlockType, f: Feature, x: int, y: int, z: int, lx: int, lz: int, h: int) -> BlockType {
    if in_trunk(f, x, y, z, lx, lz, h) {
        match f {
            Feature::Cactus(_) => BlockType::Cactus,
            _ => BlockType::Wood,
        }
    } else if in_canopy(f, x, y, z, lx, lz, h) && old == BlockType::Air {
        BlockType::Leaves
    } else {
        old
    }
}

pub open spec fn apply_feature(b: Seq<BlockType>, f: Feature, lx: int, lz: int, h: int) -> Seq<BlockType> {
    Seq::new(b.len(), |i: int| feature_cell(b[i], f, i % 16, i / 256, (i / 16) % 16, lx, lz, h))
}

/// The chunk after the features of the first `k` surface columns, in the order
/// `x = 2..14`, then `z = 2..14`.
pub open spec fn features_upto(t: Seq<BlockType>, cx: i32, cz: i32, seed: u64, columns: Seq<ColumnTerrain>, k: int) -> Seq<BlockType>
    decreases k,
{
    if k <= 0 {
        t
    } else {
        let prev = features_upto(t, cx, cz, seed, columns, k - 1);
        let lx = 2 + (k - 1) / 12;
        let lz = 2 + (k - 1) % 12;
        let col = columns[lx * 16 + lz];
        let h = col.height as int;
        let surface = prev[local_index(lx, h, lz)];
        apply_feature(prev, feature_of(col, (cx * 16 + lx) as i32, (cz * 16 + lz) as i32, seed, surface), lx, lz, h)
    }
}

/// The blocks of a generated chunk: the terrain, then the features of its inner columns.
pub open spec fn generated_blocks(cx: i32, cz: i32, seed: u64, columns: Seq<ColumnTerrain>, caves: Seq<bool>) -> Seq<BlockType> {
    features_upto(terrain_blocks(cx, cz, seed, columns, caves), cx, cz, seed, columns, 144)
}

fn abs_i32(v: i32) -> (r: i32)
    requires
        v > i32::MIN,
    ensures
        r == abs_int(v as int),
{
    if v < 0 { -v } else { v }
}

fn feature_cell_exec(old: BlockType, f: Feature, x: i32, y: i32, z: i32, lx: i32, lz: i32, h: i32) -> (r: BlockType)
    requires
        0 <= x < 16 && 0 <= z < 16 && 0 <= lx < 16 && 0 <= lz < 16,
        0 <= y < 128 && 0 <= h < 128,
        f matches Feature::Cactus(ch) ==> 0 <= ch <= 3,
    ensures
        r == feature_cell(old, f, x as int, y as int, z as int, lx as int, lz as int, h as int),
{
    let trunk = x == lx && z == lz && match f {
        Feature::Oak => h + 1 <= y && y <= h + 4,
        Feature::Pine => h + 1 <= y && y <= h + 5,
        Feature::Cactus(ch) => h + 1 <= y && y <= h + ch,
        Feature::Nothing => false,
    };
    if trunk {
        return match f {
            Feature::Cactus(_) => BlockType::Cactus,
            _ => BlockType::Wood,
        };
    }
    let dx = abs_i32(x - lx);
    let dz = abs_i32(z - lz);
    let canopy = match f {
        Feature::Oak => h + 3 <= y && y <= h + 6 && dx <= 2 && dz <= 2 && !(y == h + 6 && (dx > 1 || dz > 1))
            && !(dx == 2 && dz == 2 && y >= h + 5),
        Feature::Pine => {
            let r: i32 = if y == h + 6 { 0 } else if y >= h + 5 { 1 } else { 2 };
            h + 3 <= y && y <= h + 6 && dx <= r && dz <= r && !(r == 2 && dx == 2 && dz == 2)
        },
        _ => false,
    };
    if canopy && old == BlockType::Air {
        BlockType::Leaves
    } else {
        old
    }
}

/// Grows a feature at column `(lx, lz)` over a surface at `h`: only the six layers above
/// the surface can change.
fn grow_feature(blocks: &mut Vec<BlockType>, f: Feature, lx: i32, lz: i32, h: i32)
    requires
        old(blocks)@.len() == 32768,
        2 <= lx < 14 && 2 <= lz < 14,
        0 <= h && h + 6 < 128,
        f matches Feature::Cactus(ch) ==> 0 <= ch <= 3,
    ensures
        final(blocks)@ == apply_feature(old(blocks)@, f, lx as int, lz as int, h as int),
{
    let ghost b0 = blocks@;
    let lo: usize = ((h + 1) * 256) as usize;
    let hi: usize = ((h + 7) * 256) as usize;
    let mut i: usize = lo;
    while i < hi
        invariant
            b0.len() == 32768,
            blocks@.len() == 32768,
            2 <= lx < 14 && 2 <= lz < 14,
            0 <= h && h + 6 < 128,
            f matches Feature::Cactus(ch) ==> 0 <= ch <= 3,
            lo == (h + 1) * 256,
            hi == (h + 7) * 256,
            lo <= i <= hi,
            forall|j: int| 0 <= j < 32768 ==> #[trigger] blocks@[j] == if lo <= j < i {
                apply_feature(b0, f, lx as int, lz as int, h as int)[j]
            } else {
                b0[j]
            },
        decreases hi - i,
    {
        let x = (i % 16) as i32;
        let y = (i / 256) as i32;
        let z = ((i / 16) % 16) as i32;
        let nb = feature_cell_exec(blocks[i], f, x, y, z, lx, lz, h);
        blocks.set(i, nb);
        i += 1;
    }
    proof {
        assert forall|j: int| 0 <= j < 32768 implies #[trigger] blocks@[j] == apply_feature(b0, f, lx as int, lz as int, h as int)[j] by {
            if !(lo <= j < hi) {
                let y = j / 256;
                assert(y < h + 1 || y > h + 6);
            }
        }
        assert(blocks@ =~= apply_feature(b0, f, lx as int, lz as int, h as int));
    }
}

/// The highest height holding a non-air block, or 0.
fn highest_solid_exec(blocks: &Vec<BlockType>) -> (r: usize)
    requires
        blocks@.len() == 32768,
    ensures
        r == highest_solid(blocks@),
{
    let mut max_y: usize = 0;
    let mut i: usize = 0;
    while i < 32768
        invariant
            blocks@.len() == 32768,
            i <= 32768,
            max_y as int == highest_solid_below(blocks@, i as int),
            max_y < 128,
        decreases 32768 - i,
    {
        if blocks[i] != BlockType::Air && i / 256 > max_y {
            max_y = i / 256;
        }
        i += 1;
    }
    max_y
}

/// Generates a chunk from the noise decisions of its columns (`x * 16 + z`) and the cave
/// noise of its voxels (storage order): the terrain, then cacti and trees on its inner
/// columns.
pub fn generate_chunk_from_terrain(cx: i32, cz: i32, seed: u64, columns: &Vec<ColumnTerrain>, caves: &Vec<bool>) -> (r: Chunk)
    requires
        terrain_inputs_ok(cx, cz, columns@, caves@),
    ensures
        r.wf(),
        r.blocks@ == generated_blocks(cx, cz, seed, columns@, caves@),
        r.max_y == highest_solid(r.blocks@),
{
    let ghost t = terrain_blocks(cx, cz, seed, columns@, caves@);
    let mut blocks = build_terrain(cx, cz, seed, columns, caves);
    let mut k: usize = 0;
    while k < 144
        invariant
            terrain_inputs_ok(cx, cz, columns@, caves@),
            t == terrain_blocks(cx, cz, seed, columns@, caves@),
            k <= 144,
            blocks@ == features_upto(t, cx, cz, seed, columns@, k as int),
            blocks@.len() == 32768,
        decreases 144 - k,
    {
        let lx = 2 + k / 12;
        let lz = 2 + k % 12;
        let col = columns[lx * 16 + lz];
        let h = col.height;
        let wx = cx * 16 + lx as i32;
        let wz = cz * 16 + lz as i32;
        let feature = if col.is_river || h <= SEA_LEVEL + 1 || h + 6 >= 128 {
            Feature::Nothing
        } else {
            let surface = blocks[lx + lz * 16 + (h as usize) * 256];
            let hash = pseudo_hash_3d(wx, h, wz, seed);
            match col.biome {
                BiomeType::Desert => if hash % 41 == 0 && surface == BlockType::Sand {
                    Feature::Cactus((2 + hash % 2) as i32)
                } else {
                    Feature::Nothing
                },
                BiomeType::Forest => if hash % 16 == 0 && surface == BlockType::Grass { Feature::Oak } else { Feature::Nothing },
                BiomeType::Plains => if hash % 45 == 0 && surface == BlockType::Grass { Feature::Oak } else { Feature::Nothing },
                BiomeType::SnowyTundra => if hash % 35 == 0 && surface == BlockType::Snow { Feature::Pine } else { Feature::Nothing },
                _ => Feature::Nothing,
            }
        };
        proof {
            let prev = features_upto(t, cx, cz, seed, columns@, k as int);
            assert(lx == 2 + (k as int) / 12 && lz == 2 + (k as int) % 12);
            if !(col.is_river || h <= SEA_LEVEL + 1 || h + 6 >= 128) {
                assert(prev[local_index(lx as int, h as int, lz as int)] == blocks@[lx + lz * 16 + h * 256]);
            }
            assert(feature == feature_of(col, wx, wz, seed, prev[local_index(lx as int, h as int, lz as int)]));
        }
        if feature != Feature::Nothing {
            grow_feature(&mut blocks, feature, lx as i32, lz as i32, h);
        } else {
            proof {
                assert(blocks@ =~= apply_feature(blocks@, feature, lx as int, lz as int, h as int));
            }
        }
        k += 1;
    }
    let max_y = highest_solid_exec(&blocks);
    Chunk { blocks, max_y }
}

/// Features leave the bottom layer alone.
proof fn lemma_features_keep_floor(t: Seq<BlockType>, cx: i32, cz: i32, seed: u64, columns: Seq<ColumnTerrain>, k: int, i: int)
    requires
        t.len() == 32768,
        0 <= i < 256,
    ensures
        features_upto(t, cx, cz, seed, columns, k)[i] == t[i],
        features_upto(t, cx, cz, seed, columns, k).len() == 32768,
    decreases k,
{
    if k > 0 {
        lemma_features_keep_floor(t, cx, cz, seed, columns, k - 1, i);
        let prev = features_upto(t, cx, cz, seed, columns, k - 1);
        let lx = 2 + (k - 1) / 12;
        let lz = 2 + (k - 1) % 12;
        let col = columns[lx * 16 + lz];
        let h = col.height as int;
        let f = feature_of(col, (cx * 16 + lx) as i32, (cz * 16 + lz) as i32, seed, prev[local_index(lx, h, lz)]);
        assert(f != Feature::Nothing ==> h >= SEA_LEVEL + 2);
        assert(i / 256 == 0);
    }
}

/// Every column whose surface is not below the world's floor keeps bedrock at the bottom
/// of a generated chunk.
pub proof fn lemma_bedrock_floor(cx: i32, cz: i32, seed: u64, columns: Seq<ColumnTerrain>, caves: Seq<bool>, x: int, z: int)
    requires
        terrain_inputs_ok(cx, cz, columns, caves),
        0 <= x < 16,
        0 <= z < 16,
        columns[x * 16 + z].height >= 0,
    ensures
        generated_blocks(cx, cz, seed, columns, caves)[local_index(x, 0, z)] == BlockType::Bedrock,
{
    let t = terrain_blocks(cx, cz, seed, columns, caves);
    let i = local_index(x, 0, z);
    lemma_features_keep_floor(t, cx, cz, seed, columns, 144, i);
    assert(i % 16 == x && (i / 16) % 16 == z && i / 256 == 0);
}

/// Features never change a solid block at or under its column's surface: trunks grow
/// above their own column's surface and leaves only fill air.
proof fn lemma_features_keep_ground(t: Seq<BlockType>, cx: i32, cz: i32, seed: u64, columns: Seq<ColumnTerrain>, k: int, i: int)
    requires
        t.len() == 32768,
        columns.len() == 256,
        0 <= i < 32768,
        i / 256 <= columns[(i % 16) * 16 + (i / 16) % 16].height,
        t[i] != BlockType::Air,
    ensures
        features_upto(t, cx, cz, seed, columns, k)[i] == t[i],
        features_upto(t, cx, cz, seed, columns, k).len() == 32768,
    decreases k,
{
    if k > 0 {
        lemma_features_keep_ground(t, cx, cz, seed, columns, k - 1, i);
        let prev = features_upto(t, cx, cz, seed, columns, k - 1);
        let lx = 2 + (k - 1) / 12;
        let lz = 2 + (k - 1) % 12;
        let col = columns[lx * 16 + lz];
        let h = col.height as int;
        let f = feature_of(col, (cx * 16 + lx) as i32, (cz * 16 + lz) as i32, seed, prev[local_index(lx, h, lz)]);
        let x = i % 16;
        let z = (i / 16) % 16;
        let y = i / 256;
        if x == lx && z == lz {
            assert(columns[x * 16 + z] == col);
        }
        assert(!in_trunk(f, x, y, z, lx, lz, h));
        assert(prev[i] != BlockType::Air);
    }
}

/// A snowy tundra column whose surface is at or above sea level is topped with snow in the
/// generated chunk, whatever grows around it.
pub proof fn lemma_tundra_surface_is_snow(cx: i32, cz: i32, seed: u64, columns: Seq<ColumnTerrain>, caves: Seq<bool>, x: int, z: int)
    requires
        terrain_inputs_ok(cx, cz, columns, caves),
        0 <= x < 16,
        0 <= z < 16,
        columns[x * 16 + z].biome == BiomeType::SnowyTundra,
        columns[x * 16 + z].height >= SEA_LEVEL,
    ensures
        generated_blocks(cx, cz, seed, columns, caves)[local_index(x, columns[x * 16 + z].height as int, z)] == BlockType::Snow,
{
    let h = columns[x * 16 + z].height as int;
    let t = terrain_blocks(cx, cz, seed, columns, caves);
    let i = local_index(x, h, z);
    assert(i % 16 == x && (i / 16) % 16 == z && i / 256 == h) by (nonlinear_arith)
        requires
            i == x + z * 16 + h * 256,
            0 <= x < 16,
            0 <= z < 16,
            0 <= h < 128,
    ;
    assert(0 <= i < 32768);
    assert(t[i] == BlockType::Snow);
    lemma_features_keep_ground(t, cx, cz, seed, columns, 144, i);
}

/// The surface block of a column at or above sea level in a generated chunk, by biome:
/// sand in deserts and on beaches, snow on tundra, grass on plains and in forests, and on
/// mountains snow above 105, bare stone above 88 and grass below; ocean floors that reach
/// sea level are sand or gravel. Caves never open the surface and nothing that grows
/// replaces it.
pub proof fn lemma_surface_blocks(cx: i32, cz: i32, seed: u64, columns: Seq<ColumnTerrain>, caves: Seq<bool>, x: int, z: int)
    requires
        terrain_inputs_ok(cx, cz, columns, caves),
        0 <= x < 16,
        0 <= z < 16,
        columns[x * 16 + z].height >= SEA_LEVEL,
    ensures
        ({
            let col = columns[x * 16 + z];
            let h = col.height as int;
            let top = generated_blocks(cx, cz, seed, columns, caves)[local_index(x, h, z)];
            &&& (col.biome == BiomeType::Desert || col.biome == BiomeType::Beach) ==> top == BlockType::Sand
            &&& col.biome == BiomeType::SnowyTundra ==> top == BlockType::Snow
            &&& (col.biome == BiomeType::Plains || col.biome == BiomeType::Forest) ==> top == BlockType::Grass
            &&& col.biome == BiomeType::Mountains ==> top == (if h > 105 {
                BlockType::Snow
            } else if h > 88 {
                BlockType::Stone
            } else {
                BlockType::Grass
            })
            &&& (col.biome == BiomeType::Ocean || col.biome == BiomeType::FrozenOcean) ==> (top == BlockType::Sand || top == BlockType::Gravel)
        }),
{
    let h = columns[x * 16 + z].height as int;
    let t = terrain_blocks(cx, cz, seed, columns, caves);
    let i = local_index(x, h, z);
    assert(i % 16 == x && (i / 16) % 16 == z && i / 256 == h) by (nonlinear_arith)
        requires
            i == x + z * 16 + h * 256,
            0 <= x < 16,
            0 <= z < 16,
            0 <= h < 128,
    ;
    assert(0 <= i < 32768);
    assert(t[i] != BlockType::Air);
    lemma_features_keep_ground(t, cx, cz, seed, columns, 144, i);
}

} // verus!
