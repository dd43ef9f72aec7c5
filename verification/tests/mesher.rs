use minerust::block::{BlockFace, BlockType};
use minerust::chunk::{Chunk, CHUNK_DEPTH, CHUNK_HEIGHT, CHUNK_WIDTH};
use minerust::mesher::greedy::{greedy_chunk_quads, greedy_merge, GreedyQuad, MaskRect};
use minerust::mesher::helpers::{can_merge_blocks, should_render_face, simplify_block_for_lod};
use minerust::mesher::standard::{standard_chunk_faces, VoxelFace};
use minerust::mesher::sloped::{column_top, dominant_block, sample_column, sample_columns};

/// The height limit used when meshing with the height skip on.
fn skip_height(chunk: &Chunk) -> usize {
    chunk.max_y.min(CHUNK_HEIGHT - 1)
}

/// Vertices a list of merged faces draws: four per face, and four more for the underside
/// of each water surface.
fn greedy_vertices(quads: &[GreedyQuad]) -> usize {
    quads
        .iter()
        .map(|q| if q.face == BlockFace::Top && q.rect.block == BlockType::Water { 8 } else { 4 })
        .sum()
}

fn standard_vertices(faces: &[VoxelFace]) -> usize {
    faces
        .iter()
        .map(|f| if f.face == BlockFace::Top && f.block == BlockType::Water { 8 } else { 4 })
        .sum()
}

fn greedy(chunk: &Chunk) -> Vec<GreedyQuad> {
    greedy_chunk_quads(chunk, None, None, None, None, skip_height(chunk))
}

fn standard(chunk: &Chunk) -> Vec<VoxelFace> {
    standard_chunk_faces(chunk, None, None, None, None, skip_height(chunk))
}

#[test]
fn test_greedy_meshing_reduces_vertices() {
    let mut chunk = Chunk::new();
    for lx in 0..4 {
        for lz in 0..4 {
            chunk.set(lx, 10, lz, BlockType::Stone);
        }
    }

    let std_verts = standard_vertices(&standard(&chunk));
    let greedy_verts = greedy_vertices(&greedy(&chunk));

    assert_eq!(std_verts, 192);
    assert_eq!(greedy_verts, 24);
    assert!(greedy_verts < std_verts);
}

#[test]
fn test_water_ocean_renders_only_on_surface() {
    let mut chunk = Chunk::new();
    for lx in 0..CHUNK_WIDTH {
        for lz in 0..CHUNK_DEPTH {
            for ly in 0..=9 {
                chunk.set(lx as i32, ly, lz as i32, BlockType::Bedrock);
            }
        }
    }
    for lx in 0..CHUNK_WIDTH {
        for lz in 0..CHUNK_DEPTH {
            for ly in 10..=20 {
                chunk.set(lx as i32, ly, lz as i32, BlockType::Water);
            }
        }
    }

    let quads = greedy(&chunk);
    assert!(quads.iter().any(|q| q.rect.block != BlockType::Water));
    assert!(quads.iter().any(|q| q.rect.block == BlockType::Water));
    assert_eq!(greedy_vertices(&quads), 28);
}

#[test]
fn test_waterfall_renders_sides_in_air() {
    let mut chunk = Chunk::new();
    for ly in 10..=12 {
        chunk.set(5, ly, 5, BlockType::Water);
    }
    let quads = greedy(&chunk);
    let water: Vec<GreedyQuad> =
        quads.into_iter().filter(|q| q.rect.block == BlockType::Water).collect();
    assert!(!water.is_empty(), "Water mesh must exist for waterfall");
    assert!(greedy_vertices(&water) > 8);
}

#[test]
fn test_seabed_sand_gravel_greedy_merging() {
    let mut chunk = Chunk::new();
    for lx in 0..4 {
        for lz in 0..4 {
            let block = if (lx + lz) % 2 == 0 { BlockType::Sand } else { BlockType::Gravel };
            chunk.set(lx, 10, lz, block);
            chunk.set(lx, 11, lz, BlockType::Water);
        }
    }

    let std_verts = standard_vertices(&standard(&chunk));
    let greedy_verts = greedy_vertices(&greedy(&chunk));
    assert!(greedy_verts < std_verts);
}

#[test]
fn test_submerged_terrain_renders_against_water_no_holes() {
    let mut chunk = Chunk::new();
    chunk.set(0, 10, 0, BlockType::Sand);
    chunk.set(0, 11, 0, BlockType::Water);

    let faces = standard(&chunk);
    assert_eq!(standard_vertices(&faces), 40);
    assert!(faces.iter().any(|f| f.block == BlockType::Sand));
    assert!(faces.iter().any(|f| f.block == BlockType::Water));
}

#[test]
fn test_two_pass_water_and_solid_mesh_separation() {
    let mut chunk = Chunk::new();
    chunk.set(0, 10, 0, BlockType::Stone);
    chunk.set(1, 10, 0, BlockType::Water);

    let quads = greedy(&chunk);
    assert!(quads.iter().any(|q| q.rect.block == BlockType::Stone), "Solid mesh must exist");
    assert!(quads.iter().any(|q| q.rect.block == BlockType::Water), "Water mesh must exist");
}

#[test]
fn test_simplify_block_for_lod() {
    assert_eq!(simplify_block_for_lod(BlockType::CoalOre), BlockType::Stone);
    assert_eq!(simplify_block_for_lod(BlockType::IronOre), BlockType::Stone);
    assert_eq!(simplify_block_for_lod(BlockType::GoldOre), BlockType::Stone);
    assert_eq!(simplify_block_for_lod(BlockType::DiamondOre), BlockType::Stone);
    assert_eq!(simplify_block_for_lod(BlockType::Cobblestone), BlockType::Stone);

    assert_eq!(simplify_block_for_lod(BlockType::Gravel), BlockType::Sand);

    assert_eq!(simplify_block_for_lod(BlockType::Grass), BlockType::Grass);
    assert_eq!(simplify_block_for_lod(BlockType::Water), BlockType::Water);
    assert_eq!(simplify_block_for_lod(BlockType::Snow), BlockType::Snow);
}

#[test]
fn greedy_merge_splits_mask_exactly() {
    // Two rows: a 3-wide run of stone over a 2-wide run, and a lone dirt cell.
    let s = Some(BlockType::Stone);
    let d = Some(BlockType::Dirt);
    let mut mask = vec![None; 32];
    mask[0] = s;
    mask[1] = s;
    mask[2] = s;
    mask[5] = d;
    mask[16] = s;
    mask[17] = s;
    let mut out = Vec::new();
    greedy_merge(&mut mask, 2, &mut out);
    assert_eq!(
        out,
        vec![
            MaskRect { u: 0, v: 0, w: 3, h: 1, block: BlockType::Stone },
            MaskRect { u: 5, v: 0, w: 1, h: 1, block: BlockType::Dirt },
            MaskRect { u: 0, v: 1, w: 2, h: 1, block: BlockType::Stone },
        ]
    );
    let covered: usize = out.iter().map(|r| r.w * r.h).sum();
    assert_eq!(covered, 6);
}

#[test]
fn greedy_merge_grows_squares() {
    let mut mask = vec![Some(BlockType::Sand); 16 * 4];
    let mut out = Vec::new();
    greedy_merge(&mut mask, 4, &mut out);
    assert_eq!(out, vec![MaskRect { u: 0, v: 0, w: 16, h: 4, block: BlockType::Sand }]);
}

#[test]
fn greedy_faces_see_neighbor_chunks() {
    let mut chunk = Chunk::new();
    chunk.set(15, 0, 0, BlockType::Stone);
    let mut east = Chunk::new();
    east.set(0, 0, 0, BlockType::Stone);
    let without = greedy_chunk_quads(&chunk, None, None, None, None, 0);
    let with = greedy_chunk_quads(&chunk, None, None, Some(&east), None, 0);
    assert!(without.iter().any(|q| q.face == BlockFace::East));
    assert!(!with.iter().any(|q| q.face == BlockFace::East));
    // Top, north, south, east, west: the bottom of the lowest layer is not drawn.
    assert_eq!(without.len(), 5);
    let std = standard_chunk_faces(&chunk, None, None, None, None, 0);
    assert_eq!(std.len(), 6);
    assert_eq!(std[0], VoxelFace { face: BlockFace::Top, x: 15, y: 0, z: 0, block: BlockType::Stone });
}

#[test]
fn face_rules() {
    assert!(!should_render_face(BlockType::Stone, BlockType::Stone, BlockFace::Top));
    assert!(should_render_face(BlockType::Stone, BlockType::Water, BlockFace::Top));
    assert!(!should_render_face(BlockType::Water, BlockType::Stone, BlockFace::Top));
    assert!(should_render_face(BlockType::Water, BlockType::Glass, BlockFace::North));
    assert!(!should_render_face(BlockType::Air, BlockType::Air, BlockFace::North));
    assert!(can_merge_blocks(BlockType::Dirt, BlockType::Dirt));
    assert!(!can_merge_blocks(BlockType::Dirt, BlockType::Sand));
}

#[test]
fn sloped_columns_sample_surface_and_seabed() {
    let mut chunk = Chunk::new();
    chunk.set(2, 10, 3, BlockType::Gravel);
    chunk.set(2, 11, 3, BlockType::Water);
    chunk.set(2, 12, 3, BlockType::Water);
    chunk.set(4, 20, 4, BlockType::CoalOre);
    chunk.set(5, 30, 5, BlockType::Water);
    let s = sample_column(&chunk, 2, 3, 127);
    assert_eq!((s.height, s.block), (13, BlockType::Water));
    assert_eq!((s.seabed_height, s.seabed_block), (11, BlockType::Sand));
    let ore = sample_column(&chunk, 4, 4, 127);
    assert_eq!((ore.height, ore.block, ore.seabed_height, ore.seabed_block), (21, BlockType::Stone, 21, BlockType::Stone));
    let pool = sample_column(&chunk, 5, 5, 127);
    assert_eq!((pool.seabed_height, pool.seabed_block), (56, BlockType::Sand));
    let empty = sample_column(&chunk, 0, 0, 127);
    assert_eq!((empty.height, empty.block), (0, BlockType::Air));
    // Heights above the limit are not seen.
    assert_eq!(sample_column(&chunk, 4, 4, 15).height, 0);
    let all = sample_columns(&chunk, 127);
    assert_eq!(all.len(), 256);
    assert_eq!(all[3 * 16 + 2], s);
    assert_eq!(column_top(&chunk, 2, 3, 127), Some(13));
    assert_eq!(column_top(&chunk, 9, 9, 127), None);

    assert_eq!(dominant_block([BlockType::Air; 4]), BlockType::Air);
    assert_eq!(dominant_block([BlockType::Sand, BlockType::Stone, BlockType::Stone, BlockType::Sand]), BlockType::Sand);
    assert_eq!(dominant_block([BlockType::Air, BlockType::Water, BlockType::Grass, BlockType::Grass]), BlockType::Grass);
    assert_eq!(dominant_block([BlockType::Air, BlockType::Air, BlockType::Snow, BlockType::Air]), BlockType::Snow);
}
