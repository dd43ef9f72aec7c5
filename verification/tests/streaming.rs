use std::collections::{HashMap, HashSet};

use minerust::chunk::Chunk;

use minerust::coords::IVec2;
use minerust::streaming::{chunk_tier, needed_chunks, plan_loaded, square_coords, stream_radii, ChunkTier};
use minerust::world::chunk_key;

#[test]
fn needed_chunks_are_unknown_and_farthest_first() {
    let center = IVec2::new(10, -3);
    let mut loaded = HashMap::new();
    loaded.insert(chunk_key(IVec2::new(10, -3)), Chunk::new());
    let mut in_progress = HashSet::new();
    in_progress.insert(chunk_key(IVec2::new(10, -4)));
    let needed = needed_chunks(center, 1, &loaded, &in_progress);
    assert_eq!(needed.len(), 7);
    assert!(!needed.contains(&center));
    // Corners first, in row order, then the edge neighbours.
    assert_eq!(needed[0], IVec2::new(9, -4));
    assert_eq!(needed[3], IVec2::new(11, -2));
    assert_eq!(*needed.last().unwrap(), IVec2::new(11, -3));
    let d = |c: &IVec2| (c.x - center.x).pow(2) + (c.y - center.y).pow(2);
    for w in needed.windows(2) {
        assert!(d(&w[0]) >= d(&w[1]));
    }
    assert_eq!(needed_chunks(center, 0, &loaded, &in_progress), vec![]);
    assert!(!needed.contains(&IVec2::new(10, -4)));
}

#[test]
fn radii_and_tiers() {
    let (gen_dist, unload_dist) = stream_radii(16, 2);
    assert_eq!((gen_dist, unload_dist), (18, 20));
    let center = IVec2::new(0, 0);
    assert_eq!(chunk_tier(IVec2::new(16, 0), center, 16, unload_dist), ChunkTier::Visible);
    assert_eq!(chunk_tier(IVec2::new(17, 1), center, 16, unload_dist), ChunkTier::Buffered);
    assert_eq!(chunk_tier(IVec2::new(21, 0), center, 16, unload_dist), ChunkTier::Unload);
}

#[test]
fn loaded_chunks_are_planned() {
    let loaded = vec![IVec2::new(0, 0), IVec2::new(5, 0), IVec2::new(1, 1), IVec2::new(-9, 0)];
    let mut meshed = HashSet::new();
    meshed.insert(chunk_key(IVec2::new(5, 0)));
    meshed.insert(chunk_key(IVec2::new(1, 1)));
    let plan = plan_loaded(&loaded, IVec2::new(0, 0), 2, 6, &meshed);
    assert_eq!(plan.to_mesh, vec![IVec2::new(0, 0)]);
    assert_eq!(plan.to_demesh, vec![IVec2::new(5, 0)]);
    assert_eq!(plan.to_unload, vec![IVec2::new(-9, 0)]);
}

#[test]
fn square_coords_cover_the_spawn_grid() {
    let grid = square_coords(IVec2::new(10, -3), 4);
    assert_eq!(grid.len(), 81);
    assert_eq!(grid[0], IVec2::new(6, -7));
    assert_eq!(grid[1], IVec2::new(6, -6));
    assert_eq!(grid[9], IVec2::new(7, -7));
    assert_eq!(grid[80], IVec2::new(14, 1));
    assert_eq!(square_coords(IVec2::new(0, 0), 0), vec![IVec2::new(0, 0)]);
}
