use vstd::prelude::*;

use crate::block::{BlockFace, BlockType};

verus! {

/// Width and height of one texture tile, in pixels.
pub const TILE_SIZE: usize = 16;

/// Number of layers in the block texture array.
pub const LAYER_COUNT: usize = 25;

/// The layers of the block texture array, in layer order.
#[derive(Copy, Clone, Debug, PartialEq, Eq, Structural)]
pub enum TextureId {
    GrassTop,
    GrassSide,
    Dirt,
    Stone,
    Cobblestone,
    WoodSide,
    WoodTop,
    Leaves,
    Planks,
    Sand,
    SandstoneSide,
    SandstoneTop,
    Water,
    Snow,
    SnowSide,
    Bedrock,
    CoalOre,
    IronOre,
    GoldOre,
    DiamondOre,
    CactusSide,
    CactusTop,
    Gravel,
    Ice,
    Glass,
}

/// The layer a texture occupies in the array.
pub open spec fn texture_layer(t: TextureId) -> nat {
    match t {
        TextureId::GrassTop => 0,
        TextureId::GrassSide => 1,
        TextureId::Dirt => 2,
        TextureId::Stone => 3,
        TextureId::Cobblestone => 4,
        TextureId::WoodSide => 5,
        TextureId::WoodTop => 6,
        TextureId::Leaves => 7,
        TextureId::Planks => 8,
        TextureId::Sand => 9,
        TextureId::SandstoneSide => 10,
        TextureId::SandstoneTop => 11,
        TextureId::Water => 12,
        TextureId::Snow => 13,
        TextureId::SnowSide => 14,
        TextureId::Bedrock => 15,
        TextureId::CoalOre => 16,
        TextureId::IronOre => 17,
        TextureId::GoldOre => 18,
        TextureId::DiamondOre => 19,
        TextureId::CactusSide => 20,
        TextureId::CactusTop => 21,
        TextureId::Gravel => 22,
        TextureId::Ice => 23,
        TextureId::Glass => 24,
    }
}

/// The texture at a layer of the array (layers past the last read as the last).
pub open spec fn texture_at_layer(l: int) -> TextureId {
    if l == 0 { TextureId::GrassTop }
    else if l == 1 { TextureId::GrassSide }
    else if l == 2 { TextureId::Dirt }
    else if l == 3 { TextureId::Stone }
    else if l == 4 { TextureId::Cobblestone }
    else if l == 5 { TextureId::WoodSide }
    else if l == 6 { TextureId::WoodTop }
    else if l == 7 { TextureId::Leaves }
    else if l == 8 { TextureId::Planks }
    else if l == 9 { TextureId::Sand }
    else if l == 10 { TextureId::SandstoneSide }
    else if l == 11 { TextureId::SandstoneTop }
    else if l == 12 { TextureId::Water }
    else if l == 13 { TextureId::Snow }
    else if l == 14 { TextureId::SnowSide }
    else if l == 15 { TextureId::Bedrock }
    else if l == 16 { TextureId::CoalOre }
    else if l == 17 { TextureId::IronOre }
    else if l == 18 { TextureId::GoldOre }
    else if l == 19 { TextureId::DiamondOre }
    else if l == 20 { TextureId::CactusSide }
    else if l == 21 { TextureId::CactusTop }
    else if l == 22 { TextureId::Gravel }
    else if l == 23 { TextureId::Ice }
    else { TextureId::Glass }
}

/// Each texture has a layer of its own below `LAYER_COUNT`, and the layer leads back to
/// the texture.
pub proof fn lemma_layer_roundtrip(t: TextureId)
    ensures
        texture_layer(t) < LAYER_COUNT,
        texture_at_layer(texture_layer(t) as int) == t,
{
}

impl TextureId {
    /// The layer this texture occupies in the array.
    pub fn layer_index(self) -> (r: usize)
        ensures
            r == texture_layer(self),
    {
        match self {
            TextureId::GrassTop => 0,
            TextureId::GrassSide => 1,
            TextureId::Dirt => 2,
            TextureId::Stone => 3,
            TextureId::Cobblestone => 4,
            TextureId::WoodSide => 5,
            TextureId::WoodTop => 6,
            TextureId::Leaves => 7,
            TextureId::Planks => 8,
            TextureId::Sand => 9,
            TextureId::SandstoneSide => 10,
            TextureId::SandstoneTop => 11,
            TextureId::Water => 12,
            TextureId::Snow => 13,
            TextureId::SnowSide => 14,
            TextureId::Bedrock => 15,
            TextureId::CoalOre => 16,
            TextureId::IronOre => 17,
            TextureId::GoldOre => 18,
            TextureId::DiamondOre => 19,
            TextureId::CactusSide => 20,
            TextureId::CactusTop => 21,
            TextureId::Gravel => 22,
            TextureId::Ice => 23,
            TextureId::Glass => 24,
        }
    }

    /// The texture at a layer of the array.
    pub fn from_layer(l: usize) -> (r: TextureId)
        requires
            l < LAYER_COUNT,
        ensures
            r == texture_at_layer(l as int),
            texture_layer(r) == l,
    {
        if l == 0 { TextureId::GrassTop }
        else if l == 1 { TextureId::GrassSide }
        else if l == 2 { TextureId::Dirt }
        else if l == 3 { TextureId::Stone }
        else if l == 4 { TextureId::Cobblestone }
        else if l == 5 { TextureId::WoodSide }
        else if l == 6 { TextureId::WoodTop }
        else if l == 7 { TextureId::Leaves }
        else if l == 8 { TextureId::Planks }
        else if l == 9 { TextureId::Sand }
        else if l == 10 { TextureId::SandstoneSide }
        else if l == 11 { TextureId::SandstoneTop }
        else if l == 12 { TextureId::Water }
        else if l == 13 { TextureId::Snow }
        else if l == 14 { TextureId::SnowSide }
        else if l == 15 { TextureId::Bedrock }
        else if l == 16 { TextureId::CoalOre }
        else if l == 17 { TextureId::IronOre }
        else if l == 18 { TextureId::GoldOre }
        else if l == 19 { TextureId::DiamondOre }
        else if l == 20 { TextureId::CactusSide }
        else if l == 21 { TextureId::CactusTop }
        else if l == 22 { TextureId::Gravel }
        else if l == 23 { TextureId::Ice }
        else { TextureId::Glass }
    }
}

/// The texture drawn on a face of a block. Air falls back to the dirt texture.
pub open spec fn spec_block_texture(block: BlockType, face: BlockFace) -> TextureId {
    match block {
        BlockType::Grass => match face {
            BlockFace::Top => TextureId::GrassTop,
            BlockFace::Bottom => TextureId::Dirt,
            _ => TextureId::GrassSide,
        },
        BlockType::Dirt | BlockType::Air => TextureId::Dirt,
        BlockType::Stone => TextureId::Stone,
        BlockType::Cobblestone => TextureId::Cobblestone,
        BlockType::Wood => match face {
            BlockFace::Top | BlockFace::Bottom => TextureId::WoodTop,
            _ => TextureId::WoodSide,
        },
        BlockType::Leaves => TextureId::Leaves,
        BlockType::Planks => TextureId::Planks,
        BlockType::Sand => TextureId::Sand,
        BlockType::Sandstone => match face {
            BlockFace::Top => TextureId::SandstoneTop,
            _ => TextureId::SandstoneSide,
        },
        BlockType::Water => TextureId::Water,
        BlockType::Snow => match face {
            BlockFace::Top => TextureId::Snow,
            BlockFace::Bottom => TextureId::Dirt,
            _ => TextureId::SnowSide,
        },
        BlockType::Bedrock => TextureId::Bedrock,
        BlockType::CoalOre => TextureId::CoalOre,
        BlockType::IronOre => TextureId::IronOre,
        BlockType::GoldOre => TextureId::GoldOre,
        BlockType::DiamondOre => TextureId::DiamondOre,
        BlockType::Cactus => match face {
            BlockFace::Top | BlockFace::Bottom => TextureId::CactusTop,
            _ => TextureId::CactusSide,
        },
        BlockType::Gravel => TextureId::Gravel,
        BlockType::Ice => TextureId::Ice,
        BlockType::Glass => TextureId::Glass,
    }
}

/// The texture drawn on a face of a block.
pub fn block_texture(block: BlockType, face: BlockFace) -> (r: TextureId)
    ensures
        r == spec_block_texture(block, face),
{
    match block {
        BlockType::Grass => match face {
            BlockFace::Top => TextureId::GrassTop,
            BlockFace::Bottom => TextureId::Dirt,
            _ => TextureId::GrassSide,
        },
        BlockType::Dirt | BlockType::Air => TextureId::Dirt,
        BlockType::Stone => TextureId::Stone,
        BlockType::Cobblestone => TextureId::Cobblestone,
        BlockType::Wood => match face {
            BlockFace::Top | BlockFace::Bottom => TextureId::WoodTop,
            _ => TextureId::WoodSide,
        },
        BlockType::Leaves => TextureId::Leaves,
        BlockType::Planks => TextureId::Planks,
        BlockType::Sand => TextureId::Sand,
        BlockType::Sandstone => match face {
            BlockFace::Top => TextureId::SandstoneTop,
            _ => TextureId::SandstoneSide,
        },
        BlockType::Water => TextureId::Water,
        BlockType::Snow => match face {
            BlockFace::Top => TextureId::Snow,
            BlockFace::Bottom => TextureId::Dirt,
            _ => TextureId::SnowSide,
        },
        BlockType::Bedrock => TextureId::Bedrock,
        BlockType::CoalOre => TextureId::CoalOre,
        BlockType::IronOre => TextureId::IronOre,
        BlockType::GoldOre => TextureId::GoldOre,
        BlockType::DiamondOre => TextureId::DiamondOre,
        BlockType::Cactus => match face {
            BlockFace::Top | BlockFace::Bottom => TextureId::CactusTop,
            _ => TextureId::CactusSide,
        },
        BlockType::Gravel => TextureId::Gravel,
        BlockType::Ice => TextureId::Ice,
        BlockType::Glass => TextureId::Glass,
    }
}

/// A pixel colour: red, green, blue, alpha.
pub type Rgba = (u8, u8, u8, u8);

/// The pseudo-random value that varies the pixels of a tile.
pub open spec fn tex_hash(x: u64, y: u64, salt: u64) -> u64 {
    ((x * 374761393 + y * 668265263 + salt * 31) as u64) ^ ((x * 127 + y * 311) as u64)
}

fn tex_hash_exec(x: u64, y: u64, salt: u64) -> (r: u64)
    requires
        x < 16,
        y < 16,
        salt < 32,
    ensures
        r == tex_hash(x, y, salt),
{
    (x * 374761393 + y * 668265263 + salt * 31) ^ (x * 127 + y * 311)
}

/// One of three shades by a hash value modulo 10: up to `lo`, up to `mid`, or above.
pub open spec fn three_shades(h: u64, lo: u64, mid: u64, a: Rgba, b: Rgba, c: Rgba) -> Rgba {
    if h % 10 <= lo {
        a
    } else if h % 10 <= mid {
        b
    } else {
        c
    }
}

fn three_shades_exec(h: u64, lo: u64, mid: u64, a: Rgba, b: Rgba, c: Rgba) -> (r: Rgba)
    ensures
        r == three_shades(h, lo, mid, a, b, c),
{
    if h % 10 <= lo {
        a
    } else if h % 10 <= mid {
        b
    } else {
        c
    }
}

/// The larger of the distances of a pixel from the centre of the tile along each axis.
pub open spec fn ring_distance(x: u64, y: u64) -> int {
    let dx: int = if x >= 8 { x - 8 } else { 8 - x };
    let dy: int = if y >= 8 { y - 8 } else { 8 - y };
    if dx >= dy { dx } else { dy }
}

fn ring_distance_exec(x: u64, y: u64) -> (r: u64)
    requires
        x < 16,
        y < 16,
    ensures
        r == ring_distance(x, y),
{
    let dx: u64 = if x >= 8 { x - 8 } else { 8 - x };
    let dy: u64 = if y >= 8 { y - 8 } else { 8 - y };
    if dx >= dy { dx } else { dy }
}

/// The crystal flecks of an ore tile.
pub open spec fn is_ore_spot(x: u64, y: u64) -> bool {
    ||| x == 3 && y == 4
    ||| x == 4 && y == 4
    ||| x == 3 && y == 5
    ||| x == 10 && y == 8
    ||| x == 11 && y == 8
    ||| x == 10 && y == 9
    ||| x == 6 && y == 12
    ||| x == 7 && y == 12
    ||| x == 13 && y == 3
    ||| x == 13 && y == 4
}

fn is_ore_spot_exec(x: u64, y: u64) -> (r: bool)
    ensures
        r == is_ore_spot(x, y),
{
    (x == 3 && y == 4) || (x == 4 && y == 4) || (x == 3 && y == 5) || (x == 10 && y == 8) || (x
        == 11 && y == 8) || (x == 10 && y == 9) || (x == 6 && y == 12) || (x == 7 && y == 12) || (x
        == 13 && y == 3) || (x == 13 && y == 4)
}

/// An ore tile: stone with flecks, each with a darker pixel to its right.
pub open spec fn ore_texel(x: u64, y: u64, fleck: Rgba, dark: Rgba) -> Rgba {
    if is_ore_spot(x, y) {
        fleck
    } else if x >= 1 && is_ore_spot((x - 1) as u64, y) {
        dark
    } else {
        three_shades(tex_hash(x, y, 4), 2, 7, (105, 105, 105, 255), (125, 125, 125, 255), (145, 145, 145, 255))
    }
}

fn ore_texel_exec(x: u64, y: u64, fleck: Rgba, dark: Rgba) -> (r: Rgba)
    requires
        x < 16,
        y < 16,
    ensures
        r == ore_texel(x, y, fleck, dark),
{
    if is_ore_spot_exec(x, y) {
        fleck
    } else if x >= 1 && is_ore_spot_exec(x - 1, y) {
        dark
    } else {
        three_shades_exec(tex_hash_exec(x, y, 4), 2, 7, (105, 105, 105, 255), (125, 125, 125, 255), (145, 145, 145, 255))
    }
}

/// The colour of pixel `(x, y)` (column, row) of a texture tile.
pub open spec fn texel(t: TextureId, x: u64, y: u64) -> Rgba {
    match t {
        TextureId::Dirt => three_shades(tex_hash(x, y, 1), 2, 7, (108, 73, 47, 255), (134, 96, 67, 255), (150, 108, 77, 255)),
        TextureId::GrassTop => three_shades(tex_hash(x, y, 2), 2, 7, (76, 134, 39, 255), (95, 159, 53, 255), (115, 178, 68, 255)),
        TextureId::GrassSide => if y < 3 + tex_hash(x, 0, 3) % 3 {
            if tex_hash(x, y, 2) % 3 == 0 { (76, 134, 39, 255) } else { (95, 159, 53, 255) }
        } else {
            if tex_hash(x, y, 1) % 3 == 0 { (108, 73, 47, 255) } else { (134, 96, 67, 255) }
        },
        TextureId::Stone => three_shades(tex_hash(x, y, 4), 2, 7, (105, 105, 105, 255), (125, 125, 125, 255), (145, 145, 145, 255)),
        TextureId::Cobblestone => if x == 0 || x == 8 || y == 0 || y == 5 || y == 11 || (y < 6 && x == 4) || (6 <= y < 12 && x == 12) {
            (65, 65, 65, 255)
        } else if tex_hash(x, y, 5) % 4 == 0 {
            (100, 100, 100, 255)
        } else {
            (135, 135, 135, 255)
        },
        TextureId::WoodSide => {
            let h = (x + tex_hash(x, y / 4, 6) % 2) % 4;
            if h == 0 { (82, 58, 33, 255) } else if h <= 2 { (103, 77, 46, 255) } else { (122, 91, 55, 255) }
        },
        TextureId::WoodTop => {
            let d = ring_distance(x, y);
            if d >= 7 { (82, 58, 33, 255) } else if d == 4 || d == 1 { (140, 105, 65, 255) } else { (175, 138, 92, 255) }
        },
        TextureId::Leaves => {
            let h = tex_hash(x, y, 8) % 10;
            if h == 0 { (30, 80, 22, 255) } else if h <= 4 { (45, 115, 35, 255) } else if h <= 8 { (62, 145, 48, 255) } else { (75, 168, 58, 255) }
        },
        TextureId::Planks => if y % 4 == 0 || (y < 4 && x == 7) || (4 <= y < 8 && x == 14) || (8 <= y < 12 && x == 4) || (y >= 12 && x == 10) {
            (130, 95, 50, 255)
        } else if tex_hash(x, y, 9) % 3 == 0 {
            (170, 130, 78, 255)
        } else {
            (188, 146, 92, 255)
        },
        TextureId::Sand => three_shades(tex_hash(x, y, 10), 2, 7, (205, 195, 140, 255), (218, 210, 158, 255), (230, 222, 175, 255)),
        TextureId::SandstoneSide => if y == 0 || y == 4 || y == 12 {
            (180, 165, 115, 255)
        } else if tex_hash(x, y, 11) % 3 == 0 {
            (205, 192, 140, 255)
        } else {
            (216, 204, 152, 255)
        },
        TextureId::SandstoneTop => if x == 0 || x == 15 || y == 0 || y == 15 { (185, 170, 120, 255) } else { (216, 204, 152, 255) },
        TextureId::Water => if (x + y * 2) % 6 == 0 { (65, 135, 240, 225) } else { (42, 100, 215, 225) },
        TextureId::Snow => if tex_hash(x, y, 14) % 10 <= 2 { (225, 235, 245, 255) } else { (245, 248, 252, 255) },
        TextureId::SnowSide => if y < 4 {
            (245, 248, 252, 255)
        } else if tex_hash(x, y, 1) % 3 == 0 {
            (108, 73, 47, 255)
        } else {
            (134, 96, 67, 255)
        },
        TextureId::Bedrock => three_shades(tex_hash(x, y, 16), 2, 6, (15, 15, 15, 255), (35, 35, 35, 255), (60, 60, 60, 255)),
        TextureId::CoalOre => ore_texel(x, y, (25, 25, 25, 255), (45, 45, 45, 255)),
        TextureId::IronOre => ore_texel(x, y, (210, 175, 145, 255), (175, 135, 105, 255)),
        TextureId::GoldOre => ore_texel(x, y, (250, 220, 60, 255), (215, 175, 35, 255)),
        TextureId::DiamondOre => ore_texel(x, y, (75, 230, 235, 255), (45, 185, 195, 255)),
        TextureId::CactusSide => if (x + y * 3) % 11 == 0 {
            (35, 30, 20, 255)
        } else if x % 4 == 0 {
            (42, 120, 45, 255)
        } else {
            (55, 155, 60, 255)
        },
        TextureId::CactusTop => if ring_distance(x, y) >= 7 { (42, 120, 45, 255) } else { (55, 155, 60, 255) },
        TextureId::Gravel => three_shades(tex_hash(x, y, 23), 2, 7, (95, 90, 90, 255), (120, 115, 115, 255), (140, 135, 135, 255)),
        TextureId::Ice => if (x + y) % 7 == 0 || (x == 10 && 3 < y < 12) { (230, 245, 255, 230) } else { (150, 205, 245, 210) },
        TextureId::Glass => if x == 0 || x == 15 || y == 0 || y == 15 {
            (245, 250, 255, 180)
        } else if (x == y + 2 || x == y + 3) && 3 < x < 12 {
            (255, 255, 255, 160)
        } else {
            (210, 235, 255, 45)
        },
    }
}

/// The colour of pixel `(x, y)` of a texture tile.
pub fn texel_color(t: TextureId, x: u64, y: u64) -> (r: Rgba)
    requires
        x < 16,
        y < 16,
    ensures
        r == texel(t, x, y),
{
    match t {
        TextureId::Dirt => three_shades_exec(tex_hash_exec(x, y, 1), 2, 7, (108, 73, 47, 255), (134, 96, 67, 255), (150, 108, 77, 255)),
        TextureId::GrassTop => three_shades_exec(tex_hash_exec(x, y, 2), 2, 7, (76, 134, 39, 255), (95, 159, 53, 255), (115, 178, 68, 255)),
        TextureId::GrassSide => if y < 3 + tex_hash_exec(x, 0, 3) % 3 {
            if tex_hash_exec(x, y, 2) % 3 == 0 { (76, 134, 39, 255) } else { (95, 159, 53, 255) }
        } else {
            if tex_hash_exec(x, y, 1) % 3 == 0 { (108, 73, 47, 255) } else { (134, 96, 67, 255) }
        },
        TextureId::Stone => three_shades_exec(tex_hash_exec(x, y, 4), 2, 7, (105, 105, 105, 255), (125, 125, 125, 255), (145, 145, 145, 255)),
        TextureId::Cobblestone => if x == 0 || x == 8 || y == 0 || y == 5 || y == 11 || (y < 6 && x == 4) || (6 <= y && y < 12 && x == 12) {
            (65, 65, 65, 255)
        } else if tex_hash_exec(x, y, 5) % 4 == 0 {
            (100, 100, 100, 255)
        } else {
            (135, 135, 135, 255)
        },
        TextureId::WoodSide => {
            let h = (x + tex_hash_exec(x, y / 4, 6) % 2) % 4;
            if h == 0 { (82, 58, 33, 255) } else if h <= 2 { (103, 77, 46, 255) } else { (122, 91, 55, 255) }
        },
        TextureId::WoodTop => {
            let d = ring_distance_exec(x, y);
            if d >= 7 { (82, 58, 33, 255) } else if d == 4 || d == 1 { (140, 105, 65, 255) } else { (175, 138, 92, 255) }
        },
        TextureId::Leaves => {
            let h = tex_hash_exec(x, y, 8) % 10;
            if h == 0 { (30, 80, 22, 255) } else if h <= 4 { (45, 115, 35, 255) } else if h <= 8 { (62, 145, 48, 255) } else { (75, 168, 58, 255) }
        },
        TextureId::Planks => if y % 4 == 0 || (y < 4 && x == 7) || (4 <= y && y < 8 && x == 14) || (8 <= y && y < 12 && x == 4) || (y >= 12 && x == 10) {
            (130, 95, 50, 255)
        } else if tex_hash_exec(x, y, 9) % 3 == 0 {
            (170, 130, 78, 255)
        } else {
            (188, 146, 92, 255)
        },
        TextureId::Sand => three_shades_exec(tex_hash_exec(x, y, 10), 2, 7, (205, 195, 140, 255), (218, 210, 158, 255), (230, 222, 175, 255)),
        TextureId::SandstoneSide => if y == 0 || y == 4 || y == 12 {
            (180, 165, 115, 255)
        } else if tex_hash_exec(x, y, 11) % 3 == 0 {
            (205, 192, 140, 255)
        } else {
            (216, 204, 152, 255)
        },
        TextureId::SandstoneTop => if x == 0 || x == 15 || y == 0 || y == 15 { (185, 170, 120, 255) } else { (216, 204, 152, 255) },
        TextureId::Water => if (x + y * 2) % 6 == 0 { (65, 135, 240, 225) } else { (42, 100, 215, 225) },
        TextureId::Snow => if tex_hash_exec(x, y, 14) % 10 <= 2 { (225, 235, 245, 255) } else { (245, 248, 252, 255) },
        TextureId::SnowSide => if y < 4 {
            (245, 248, 252, 255)
        } else if tex_hash_exec(x, y, 1) % 3 == 0 {
            (108, 73, 47, 255)
        } else {
            (134, 96, 67, 255)
        },
        TextureId::Bedrock => three_shades_exec(tex_hash_exec(x, y, 16), 2, 6, (15, 15, 15, 255), (35, 35, 35, 255), (60, 60, 60, 255)),
        TextureId::CoalOre => ore_texel_exec(x, y, (25, 25, 25, 255), (45, 45, 45, 255)),
        TextureId::IronOre => ore_texel_exec(x, y, (210, 175, 145, 255), (175, 135, 105, 255)),
        TextureId::GoldOre => ore_texel_exec(x, y, (250, 220, 60, 255), (215, 175, 35, 255)),
        TextureId::DiamondOre => ore_texel_exec(x, y, (75, 230, 235, 255), (45, 185, 195, 255)),
        TextureId::CactusSide => if (x + y * 3) % 11 == 0 {
            (35, 30, 20, 255)
        } else if x % 4 == 0 {
            (42, 120, 45, 255)
        } else {
            (55, 155, 60, 255)
        },
        TextureId::CactusTop => if ring_distance_exec(x, y) >= 7 { (42, 120, 45, 255) } else { (55, 155, 60, 255) },
        TextureId::Gravel => three_shades_exec(tex_hash_exec(x, y, 23), 2, 7, (95, 90, 90, 255), (120, 115, 115, 255), (140, 135, 135, 255)),
        TextureId::Ice => if (x + y) % 7 == 0 || (x == 10 && 3 < y && y < 12) { (230, 245, 255, 230) } else { (150, 205, 245, 210) },
        TextureId::Glass => if x == 0 || x == 15 || y == 0 || y == 15 {
            (245, 250, 255, 180)
        } else if (x == y + 2 || x == y + 3) && 3 < x && x < 12 {
            (255, 255, 255, 160)
        } else {
            (210, 235, 255, 45)
        },
    }
}

/// The offset of channel `c` of pixel `(x, y)` of layer `l` in the texture array's bytes:
/// layers one after another, rows top to bottom, pixels left to right, four bytes each.
pub open spec fn texel_offset(l: int, x: int, y: int, c: int) -> int {
    (l * 256 + y * 16 + x) * 4 + c
}

/// Channel `c` of a colour.
pub open spec fn channel(color: Rgba, c: int) -> u8 {
    if c == 0 { color.0 } else if c == 1 { color.1 } else if c == 2 { color.2 } else { color.3 }
}

/// The pixels of all tiles of the block texture array, as RGBA bytes.
pub fn texture_array_pixels() -> (r: Vec<u8>)
    ensures
        r@.len() == LAYER_COUNT * TILE_SIZE * TILE_SIZE * 4,
        forall|l: int, x: int, y: int, c: int|
            0 <= l < 25 && 0 <= x < 16 && 0 <= y < 16 && 0 <= c < 4 ==> #[trigger] r@[texel_offset(l, x, y, c)]
                == channel(texel(texture_at_layer(l), x as u64, y as u64), c),
{
    let mut data: Vec<u8> = Vec::with_capacity(LAYER_COUNT * TILE_SIZE * TILE_SIZE * 4);
    let mut l: usize = 0;
    while l < LAYER_COUNT
        invariant
            l <= 25,
            data@.len() == l * 1024,
            forall|l2: int, x: int, y: int, c: int|
                0 <= l2 < l && 0 <= x < 16 && 0 <= y < 16 && 0 <= c < 4 ==> #[trigger] data@[texel_offset(l2, x, y, c)]
                    == channel(texel(texture_at_layer(l2), x as u64, y as u64), c),
        decreases 25 - l,
    {
        let t = TextureId::from_layer(l);
        let mut y: u64 = 0;
        while y < 16
            invariant
                l < 25,
                t == texture_at_layer(l as int),
                y <= 16,
                data@.len() == l * 1024 + y * 64,
                forall|l2: int, x: int, y2: int, c: int|
                    0 <= l2 < l && 0 <= x < 16 && 0 <= y2 < 16 && 0 <= c < 4 ==> #[trigger] data@[texel_offset(l2, x, y2, c)]
                        == channel(texel(texture_at_layer(l2), x as u64, y2 as u64), c),
                forall|x: int, y2: int, c: int|
                    0 <= x < 16 && 0 <= y2 < y && 0 <= c < 4 ==> #[trigger] data@[texel_offset(l as int, x, y2, c)]
                        == channel(texel(t, x as u64, y2 as u64), c),
            decreases 16 - y,
        {
            let mut x: u64 = 0;
            while x < 16
                invariant
                    l < 25,
                    t == texture_at_layer(l as int),
                    y < 16,
                    x <= 16,
                    data@.len() == l * 1024 + y * 64 + x * 4,
                    forall|l2: int, x2: int, y2: int, c: int|
                        0 <= l2 < l && 0 <= x2 < 16 && 0 <= y2 < 16 && 0 <= c < 4 ==> #[trigger] data@[texel_offset(l2, x2, y2, c)]
                            == channel(texel(texture_at_layer(l2), x2 as u64, y2 as u64), c),
                    forall|x2: int, y2: int, c: int|
                        0 <= x2 < 16 && 0 <= y2 < y && 0 <= c < 4 ==> #[trigger] data@[texel_offset(l as int, x2, y2, c)]
                            == channel(texel(t, x2 as u64, y2 as u64), c),
                    forall|x2: int, c: int|
                        0 <= x2 < x && 0 <= c < 4 ==> #[trigger] data@[texel_offset(l as int, x2, y as int, c)]
                            == channel(texel(t, x2 as u64, y as u64), c),
                decreases 16 - x,
            {
                let color = texel_color(t, x, y);
                let ghost before = data@;
                data.push(color.0);
                data.push(color.1);
                data.push(color.2);
                data.push(color.3);
                proof {
                    assert(data@.len() == before.len() + 4);
                    assert forall|i: int| 0 <= i < before.len() implies data@[i] == before[i] by {}
                    assert(data@[texel_offset(l as int, x as int, y as int, 0)] == color.0);
                    assert(data@[texel_offset(l as int, x as int, y as int, 1)] == color.1);
                    assert(data@[texel_offset(l as int, x as int, y as int, 2)] == color.2);
                    assert(data@[texel_offset(l as int, x as int, y as int, 3)] == color.3);
                }
                x += 1;
            }
            y += 1;
        }
        l += 1;
    }
    data
}

} // verus!
