use vstd::prelude::*;

verus! {

/// The kinds of voxel the world is made of. `Air` is the empty block.
#[derive(Copy, Clone, Debug, PartialEq, Eq, Hash, Structural)]
pub enum BlockType {
    Air,
    Grass,
    Dirt,
    Stone,
    Wood,
    Leaves,
    Cobblestone,
    Planks,
    Sand,
    Water,
    Snow,
    Bedrock,
    CoalOre,
    IronOre,
    GoldOre,
    DiamondOre,
    Sandstone,
    Cactus,
    Gravel,
    Ice,
    Glass,
}

/// The six faces of a unit voxel.
#[derive(Copy, Clone, Debug, PartialEq, Eq, Structural)]
pub enum BlockFace {
    /// +Y
    Top,
    /// -Y
    Bottom,
    /// +Z
    North,
    /// -Z
    South,
    /// +X
    East,
    /// -X
    West,
}

/// The byte that stands for a block kind in serialized chunks.
pub open spec fn block_code(b: BlockType) -> u8 {
    match b {
        BlockType::Air => 0,
        BlockType::Grass => 1,
        BlockType::Dirt => 2,
        BlockType::Stone => 3,
        BlockType::Wood => 4,
        BlockType::Leaves => 5,
        BlockType::Cobblestone => 6,
        BlockType::Planks => 7,
        BlockType::Sand => 8,
        BlockType::Water => 9,
        BlockType::Snow => 10,
        BlockType::Bedrock => 11,
        BlockType::CoalOre => 12,
        BlockType::IronOre => 13,
        BlockType::GoldOre => 14,
        BlockType::DiamondOre => 15,
        BlockType::Sandstone => 16,
        BlockType::Cactus => 17,
        BlockType::Gravel => 18,
        BlockType::Ice => 19,
        BlockType::Glass => 20,
    }
}

/// The block kind that a serialized byte stands for; unknown bytes read as `Air`.
pub open spec fn block_of_code(v: u8) -> BlockType {
    if v == 1 { BlockType::Grass }
    else if v == 2 { BlockType::Dirt }
    else if v == 3 { BlockType::Stone }
    else if v == 4 { BlockType::Wood }
    else if v == 5 { BlockType::Leaves }
    else if v == 6 { BlockType::Cobblestone }
    else if v == 7 { BlockType::Planks }
    else if v == 8 { BlockType::Sand }
    else if v == 9 { BlockType::Water }
    else if v == 10 { BlockType::Snow }
    else if v == 11 { BlockType::Bedrock }
    else if v == 12 { BlockType::CoalOre }
    else if v == 13 { BlockType::IronOre }
    else if v == 14 { BlockType::GoldOre }
    else if v == 15 { BlockType::DiamondOre }
    else if v == 16 { BlockType::Sandstone }
    else if v == 17 { BlockType::Cactus }
    else if v == 18 { BlockType::Gravel }
    else if v == 19 { BlockType::Ice }
    else if v == 20 { BlockType::Glass }
    else { BlockType::Air }
}

/// Solid blocks are everything except air and water.
pub open spec fn spec_is_solid(b: BlockType) -> bool {
    b != BlockType::Air && b != BlockType::Water
}

/// Transparent blocks let neighbouring faces show: air, water and glass.
pub open spec fn spec_is_transparent(b: BlockType) -> bool {
    b == BlockType::Air || b == BlockType::Water || b == BlockType::Glass
}

/// What mining a block yields.
pub open spec fn spec_drop_item(b: BlockType) -> Option<BlockType> {
    match b {
        BlockType::Air | BlockType::Water | BlockType::Bedrock => None,
        BlockType::Grass => Some(BlockType::Dirt),
        BlockType::Stone => Some(BlockType::Cobblestone),
        other => Some(other),
    }
}

impl BlockType {
    pub fn is_solid(self) -> (r: bool)
        ensures
            r == spec_is_solid(self),
    {
        !matches!(self, BlockType::Air | BlockType::Water)
    }

    pub fn is_water(self) -> (r: bool)
        ensures
            r == (self == BlockType::Water),
    {
        matches!(self, BlockType::Water)
    }

    pub fn is_transparent(self) -> (r: bool)
        ensures
            r == spec_is_transparent(self),
    {
        matches!(self, BlockType::Air | BlockType::Water | BlockType::Glass)
    }

    /// Opaque blocks stop sight lines: everything that is not transparent.
    pub fn is_opaque(self) -> (r: bool)
        ensures
            r == !spec_is_transparent(self),
    {
        !self.is_transparent()
    }

    pub fn drop_item(self) -> (r: Option<BlockType>)
        ensures
            r == spec_drop_item(self),
    {
        match self {
            BlockType::Air | BlockType::Water | BlockType::Bedrock => None,
            BlockType::Grass => Some(BlockType::Dirt),
            BlockType::Stone => Some(BlockType::Cobblestone),
            BlockType::Leaves => Some(BlockType::Leaves),
            other => Some(other),
        }
    }

    pub fn from_u8(val: u8) -> (r: BlockType)
        ensures
            r == block_of_code(val),
    {
        match val {
            1 => BlockType::Grass,
            2 => BlockType::Dirt,
            3 => BlockType::Stone,
            4 => BlockType::Wood,
            5 => BlockType::Leaves,
            6 => BlockType::Cobblestone,
            7 => BlockType::Planks,
            8 => BlockType::Sand,
            9 => BlockType::Water,
            10 => BlockType::Snow,
            11 => BlockType::Bedrock,
            12 => BlockType::CoalOre,
            13 => BlockType::IronOre,
            14 => BlockType::GoldOre,
            15 => BlockType::DiamondOre,
            16 => BlockType::Sandstone,
            17 => BlockType::Cactus,
            18 => BlockType::Gravel,
            19 => BlockType::Ice,
            20 => BlockType::Glass,
            _ => BlockType::Air,
        }
    }

    pub fn to_u8(self) -> (r: u8)
        ensures
            r == block_code(self),
    {
        match self {
            BlockType::Air => 0,
            BlockType::Grass => 1,
            BlockType::Dirt => 2,
            BlockType::Stone => 3,
            BlockType::Wood => 4,
            BlockType::Leaves => 5,
            BlockType::Cobblestone => 6,
            BlockType::Planks => 7,
            BlockType::Sand => 8,
            BlockType::Water => 9,
            BlockType::Snow => 10,
            BlockType::Bedrock => 11,
            BlockType::CoalOre => 12,
            BlockType::IronOre => 13,
            BlockType::GoldOre => 14,
            BlockType::DiamondOre => 15,
            BlockType::Sandstone => 16,
            BlockType::Cactus => 17,
            BlockType::Gravel => 18,
            BlockType::Ice => 19,
            BlockType::Glass => 20,
        }
    }
}

impl Default for BlockType {
    fn default() -> (r: BlockType)
        ensures
            r == BlockType::Air,
    {
        BlockType::Air
    }
}

/// Decoding the byte of a block gives the block back.
pub proof fn lemma_block_code_roundtrip(b: BlockType)
    ensures
        block_of_code(block_code(b)) == b,
        block_code(b) <= 20,
{
}

/// Encoding a decoded byte gives the byte back for the known codes `0..=20`,
/// and every other byte decodes to `Air`.
pub proof fn lemma_code_block_roundtrip(v: u8)
    ensures
        v <= 20 ==> block_code(block_of_code(v)) == v,
        v > 20 ==> block_of_code(v) == BlockType::Air,
{
}

/// Solid and water are exclusive, and every solid non-glass block is opaque.
pub proof fn lemma_block_classes(b: BlockType)
    ensures
        spec_is_solid(b) ==> b != BlockType::Water,
        spec_is_solid(b) && b != BlockType::Glass ==> !spec_is_transparent(b),
        spec_is_transparent(b) ==> (b == BlockType::Glass || !spec_is_solid(b)),
{
}

/// What mining gives: every minable block gives itself, except that grass gives dirt
/// and stone gives cobblestone; air, water and bedrock give nothing. No block gives air,
/// water or bedrock.
pub proof fn lemma_drops(b: BlockType)
    ensures
        b != BlockType::Air && b != BlockType::Water && b != BlockType::Bedrock && b != BlockType::Grass
            && b != BlockType::Stone ==> spec_drop_item(b) == Some(b),
        b == BlockType::Grass ==> spec_drop_item(b) == Some(BlockType::Dirt),
        b == BlockType::Stone ==> spec_drop_item(b) == Some(BlockType::Cobblestone),
        b == BlockType::Air || b == BlockType::Water || b == BlockType::Bedrock ==> spec_drop_item(b) is None,
        spec_drop_item(b) matches Some(d) ==> d != BlockType::Air && d != BlockType::Water && d != BlockType::Bedrock,
{
}

} // verus!
