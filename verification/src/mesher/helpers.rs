use vstd::prelude::*;

use crate::block::{BlockFace, BlockType, spec_is_solid, spec_is_transparent};

verus! {

/// Whether a block's face toward `neighbor` is drawn: never between equal blocks; water
/// shows only against air and glass; solid blocks show against transparent neighbours.
pub open spec fn spec_should_render_face(block: BlockType, neighbor: BlockType) -> bool {
    if block == neighbor {
        false
    } else if block == BlockType::Water {
        neighbor == BlockType::Air || neighbor == BlockType::Glass
    } else if spec_is_solid(block) {
        spec_is_transparent(neighbor)
    } else {
        false
    }
}

/// The block kind drawn for a block at a distant level of detail: ores and cobblestone
/// become stone, gravel becomes sand.
pub open spec fn spec_simplify_block_for_lod(block: BlockType) -> BlockType {
    match block {
        BlockType::CoalOre | BlockType::IronOre | BlockType::GoldOre | BlockType::DiamondOre
        | BlockType::Cobblestone => BlockType::Stone,
        BlockType::Gravel => BlockType::Sand,
        other => other,
    }
}

pub fn should_render_face(block: BlockType, neighbor: BlockType, _face: BlockFace) -> (r: bool)
    ensures
        r == spec_should_render_face(block, neighbor),
{
    if block.to_u8() == neighbor.to_u8() {
        proof {
            crate::block::lemma_block_code_roundtrip(block);
            crate::block::lemma_block_code_roundtrip(neighbor);
        }
        return false;
    }
    proof {
        assert(block != neighbor);
    }
    if block.is_water() {
        matches!(neighbor, BlockType::Air | BlockType::Glass)
    } else if block.is_solid() {
        neighbor.is_transparent()
    } else {
        false
    }
}

/// Two faces merge into one quad when their blocks are equal.
pub fn can_merge_blocks(b1: BlockType, b2: BlockType) -> (r: bool)
    ensures
        r == (b1 == b2),
{
    proof {
        crate::block::lemma_block_code_roundtrip(b1);
        crate::block::lemma_block_code_roundtrip(b2);
    }
    b1.to_u8() == b2.to_u8()
}

/// Simplifies ore and block types into base rock for distant LOD rendering.
pub fn simplify_block_for_lod(block: BlockType) -> (r: BlockType)
    ensures
        r == spec_simplify_block_for_lod(block),
{
    match block {
        BlockType::CoalOre | BlockType::IronOre | BlockType::GoldOre | BlockType::DiamondOre
        | BlockType::Cobblestone => BlockType::Stone,
        BlockType::Gravel => BlockType::Sand,
        other => other,
    }
}

/// No face is drawn between two blocks of the same kind, and air never draws a face.
pub proof fn lemma_render_face_rules(block: BlockType, neighbor: BlockType)
    ensures
        !spec_should_render_face(block, block),
        !spec_should_render_face(BlockType::Air, neighbor),
        spec_should_render_face(block, neighbor) ==> spec_is_transparent(neighbor),
{
}

/// Simplifying twice is simplifying once; simplified blocks are never ores or gravel.
pub proof fn lemma_simplify_idempotent(block: BlockType)
    ensures
        spec_simplify_block_for_lod(spec_simplify_block_for_lod(block)) == spec_simplify_block_for_lod(block),
        spec_simplify_block_for_lod(block) != BlockType::CoalOre,
        spec_simplify_block_for_lod(block) != BlockType::IronOre,
        spec_simplify_block_for_lod(block) != BlockType::GoldOre,
        spec_simplify_block_for_lod(block) != BlockType::DiamondOre,
        spec_simplify_block_for_lod(block) != BlockType::Gravel,
{
}

} // verus!
