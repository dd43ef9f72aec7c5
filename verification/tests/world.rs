use std::collections::HashSet;

use minerust::collision::box_has_solid;
use minerust::block::BlockType;
use minerust::chunk::Chunk;
use minerust::coords::{ChunkPos, IVec2, IVec3, LocalBlockPos};
use minerust::world::{chunk_key, WorldGrid, WorldSeed};

#[test]
fn test_world_seed_random_and_alphanumeric() {
    let seed1 = WorldSeed::random();
    let seed2 = WorldSeed::random();

    assert!(seed1.0 > 0);
    assert!(seed2.0 > 0);

    let num_seed = WorldSeed::from_seed_str("987654321");
    assert_eq!(num_seed.0, 987654321);

    let alpha1 = WorldSeed::from_seed_str("minecraft");
    let alpha2 = WorldSeed::from_seed_str("minecraft");
    let alpha3 = WorldSeed::from_seed_str("custom_seed_42");

    assert_eq!(alpha1, alpha2);
    assert_ne!(alpha1, alpha3);
    assert_ne!(alpha1.0, 0);
}

#[test]
fn test_lookahead_buffer_tier_radii() {
    let view_dist = 16;
    let pregen_margin = 2;
    let gen_dist = view_dist + pregen_margin;
    let unload_dist = gen_dist + 2;

    let tier1_chunk = IVec2::new(16, 0);
    assert!(tier1_chunk.x.abs() <= view_dist && tier1_chunk.y.abs() <= view_dist);

    let tier2_chunk = IVec2::new(17, 1);
    let diff_2d = tier2_chunk.x.abs().max(tier2_chunk.y.abs());
    assert!(diff_2d > view_dist, "Tier 2 chunk must be outside visual view distance");
    assert!(diff_2d <= gen_dist, "Tier 2 chunk must be inside lookahead generation radius");
    assert!(diff_2d <= unload_dist, "Tier 2 chunk must not be unloaded");

    let far_chunk = IVec2::new(21, 0);
    let far_diff = far_chunk.x.abs().max(far_chunk.y.abs());
    assert!(far_diff > unload_dist, "Far chunk must exceed unload threshold");
}

#[test]
fn seed_text_is_trimmed_and_hashed_with_fnv1a() {
    assert_eq!(WorldSeed::from_seed_str("  42 ").0, 42);
    assert_eq!(WorldSeed::from_seed_str("+7").0, 7);
    // FNV-1a of the empty string is its offset basis.
    assert_eq!(WorldSeed::from_seed_str("   ").0, 0xcbf29ce484222325);
    // FNV-1a of "a".
    assert_eq!(WorldSeed::from_seed_str("a").0, 0xaf63dc4c8601ec8c);
    // A number too large for 64 bits is hashed as text.
    assert_ne!(WorldSeed::from_seed_str("18446744073709551616").0, 0);
    assert_eq!(WorldSeed::default().0, 133742);
}

#[test]
fn seed_mixing_clears_the_top_bit() {
    for n in [0u64, 1, 42, u64::MAX, 1_700_000_000_000_000_000] {
        assert!(WorldSeed::from_nanos(n).0 <= 0x7fff_ffff_ffff_ffff);
    }
    assert_eq!(WorldSeed::from_nanos(0).0, 0xe220a8397b1dcdaf & 0x7fff_ffff_ffff_ffff);
}

#[test]
fn world_set_then_get_block() {
    let mut world = WorldGrid::new(WorldSeed(1));
    world.chunks.insert(chunk_key(IVec2::new(-1, 2)), Chunk::new());
    let pos = IVec3::new(-3, 40, 33);
    assert_eq!(world.get_block(pos), BlockType::Air);
    let dirty = world.set_block(pos, BlockType::Planks);
    assert_eq!(world.get_block(pos), BlockType::Planks);
    assert!(world.is_solid_at(pos));
    assert_eq!(dirty, vec![IVec2::new(-1, 2)]);
    assert!(world.modified_chunks.contains(&chunk_key(IVec2::new(-1, 2))));
    // Writes into chunks that are not loaded are dropped.
    let missing = IVec3::new(100, 40, 100);
    assert!(world.set_block(missing, BlockType::Stone).is_empty());
    assert_eq!(world.get_block(missing), BlockType::Air);
}

#[test]
fn world_chunk_coords_and_mesh_queue() {
    let (c, lx, lz) = WorldGrid::world_to_chunk_coord(-1, 17);
    assert_eq!(c, IVec2::new(-1, 1));
    assert_eq!((lx, lz), (15, 1));
    let mut world = WorldGrid::new(WorldSeed(1));
    world.queue_mesh(ChunkPos::new(2, 3));
    world.queue_mesh(ChunkPos::new(2, 3));
    assert_eq!(world.mesh_queue, vec![IVec2::new(2, 3)]);
}

#[test]
fn box_test_finds_solid_blocks() {
    let mut world = WorldGrid::new(WorldSeed(3));
    world.chunks.insert(chunk_key(IVec2::new(0, 0)), Chunk::new());
    let lo = IVec3::new(2, 10, 2);
    let hi = IVec3::new(3, 11, 3);
    assert!(!box_has_solid(&world, lo, hi));
    world.set_block(IVec3::new(3, 11, 2), BlockType::Stone);
    assert!(box_has_solid(&world, lo, hi));
    assert!(!box_has_solid(&world, IVec3::new(4, 10, 2), IVec3::new(5, 12, 3)));
    world.set_block(IVec3::new(5, 12, 3), BlockType::Water);
    assert!(!box_has_solid(&world, IVec3::new(4, 10, 2), IVec3::new(5, 12, 3)));
    assert!(!box_has_solid(&world, hi, lo));
}

#[test]
fn reinitializing_forgets_the_world() {
    let mut world = WorldGrid::new(WorldSeed(1));
    world.chunks.insert(chunk_key(IVec2::new(0, 0)), Chunk::new());
    world.set_block(IVec3::new(1, 1, 1), BlockType::Stone);
    world.last_player_chunk = IVec2::new(0, 0);
    world.reinitialize_with_seed(WorldSeed(99));
    assert!(world.chunks.is_empty());
    assert!(world.modified_chunks.is_empty() && world.dirty_chunks.is_empty());
    assert!(world.mesh_queue.is_empty() && world.queued_for_mesh.is_empty());
    assert_eq!(world.last_player_chunk, IVec2::new(i32::MAX, i32::MAX));
    assert_eq!(world.seed, WorldSeed(99));
}

#[test]
fn test_lru_chunk_cache_insertion_and_retrieval() {
    let mut world = WorldGrid::default();
    let coord = IVec2::new(42, -99);
    let mut chunk = Chunk::new();
    chunk.set_local(LocalBlockPos::new(1, 2, 3), BlockType::DiamondOre);

    assert!(world.chunk_cache.get(chunk_key(coord)).is_none());

    world.chunk_cache.insert(chunk_key(coord), chunk);

    let retrieved = world.chunk_cache.get(chunk_key(coord)).expect("chunk should be in cache");
    assert_eq!(retrieved.get_local(LocalBlockPos::new(1, 2, 3)), BlockType::DiamondOre);
}

#[test]
fn unloading_caches_and_saves_changed_chunks() {
    let mut world = WorldGrid::new(WorldSeed(5));
    let a = IVec2::new(0, 0);
    let b = IVec2::new(1, 0);
    world.chunks.insert(chunk_key(a), Chunk::new());
    world.chunks.insert(chunk_key(b), Chunk::new());
    world.set_block(IVec3::new(3, 4, 5), BlockType::Stone);
    world.queue_mesh(ChunkPos(b));
    let saved = world.unload_chunk(a).expect("a changed chunk is saved");
    assert_eq!(Chunk::from_compressed_bytes(&saved).unwrap().get_local(LocalBlockPos::new(3, 4, 5)), BlockType::Stone);
    assert!(!world.chunks.contains_key(&chunk_key(a)));
    assert!(world.chunk_cache.get(chunk_key(a)).is_some());
    assert!(world.unload_chunk(b).is_none());
    assert!(!world.queued_for_mesh.contains(&chunk_key(b)));
    assert!(world.unload_chunk(IVec2::new(7, 7)).is_none());
}

#[test]
fn generation_is_dispatched_nearest_first_and_accepted() {
    let mut world = WorldGrid::new(WorldSeed(5));
    let center = IVec2::new(0, 0);
    world.replan_generation(center, 1);
    assert_eq!(world.last_player_chunk, center);
    assert_eq!(world.generation_queue.len(), 9);
    assert_eq!(*world.generation_queue.last().unwrap(), IVec2::new(0, 0));
    let first = world.dispatch_generation(center, 1, 3);
    assert_eq!(first, vec![IVec2::new(0, 0), IVec2::new(1, 0), IVec2::new(0, 1)]);
    assert!(first.iter().all(|c| world.in_progress_chunks.contains(&chunk_key(*c))));
    assert_eq!(world.generation_queue.len(), 6);

    let meshed = HashSet::new();
    world.accept_generated(first[0], Chunk::new(), true, center, 1, 3, &meshed);
    assert!(world.chunks.contains_key(&chunk_key(first[0])));
    assert!(world.modified_chunks.contains(&chunk_key(first[0])));
    assert!(!world.in_progress_chunks.contains(&chunk_key(first[0])));
    assert_eq!(world.mesh_queue, vec![first[0]]);

    world.accept_generated(IVec2::new(9, 9), Chunk::new(), false, center, 1, 3, &meshed);
    assert!(!world.chunks.contains_key(&chunk_key(IVec2::new(9, 9))));

    world.unload_chunk(first[0]);
    world.replan_generation(center, 1);
    let again = world.dispatch_generation(center, 1, 9);
    assert!(!again.contains(&first[0]));
    assert!(world.chunks.contains_key(&chunk_key(first[0])));
}

#[test]
fn arrivals_redraw_meshed_neighbours() {
    let mut world = WorldGrid::new(WorldSeed(5));
    let center = IVec2::new(0, 0);
    let mut meshed = HashSet::new();
    meshed.insert(chunk_key(IVec2::new(-1, 0)));
    meshed.insert(chunk_key(IVec2::new(0, 5)));
    world.accept_generated(IVec2::new(0, 0), Chunk::new(), false, center, 2, 4, &meshed);
    assert_eq!(world.mesh_queue, vec![IVec2::new(0, 0), IVec2::new(-1, 0)]);
}

#[test]
fn mesh_batches_take_the_nearest_loaded_chunks() {
    let mut world = WorldGrid::new(WorldSeed(5));
    let center = IVec2::new(0, 0);
    for c in [IVec2::new(0, 0), IVec2::new(1, 0), IVec2::new(0, 1)] {
        world.chunks.insert(chunk_key(c), Chunk::new());
    }
    for c in [IVec2::new(0, 1), IVec2::new(5, 5), IVec2::new(2, 2), IVec2::new(1, 0), IVec2::new(0, 0)] {
        world.queue_mesh(ChunkPos(c));
    }
    let batch = world.take_mesh_batch(center, 3, 2, true);
    assert_eq!(batch, vec![IVec2::new(0, 0), IVec2::new(1, 0)]);
    assert!(world.in_progress_meshes.contains(&chunk_key(IVec2::new(0, 0))));
    assert!(!world.queued_for_mesh.contains(&chunk_key(IVec2::new(1, 0))));
    assert_eq!(world.mesh_queue.len(), 3);
    world.queue_mesh(ChunkPos(IVec2::new(0, 0)));
    let next = world.take_mesh_batch(center, 3, 6, true);
    assert_eq!(next, vec![IVec2::new(0, 1)]);
    assert!(world.mesh_queue.is_empty());
    assert!(world.finish_mesh(IVec2::new(0, 0)));
    assert!(!world.in_progress_meshes.contains(&chunk_key(IVec2::new(0, 0))));
    world.demesh_chunk(IVec2::new(0, 1));
    assert!(!world.in_progress_meshes.contains(&chunk_key(IVec2::new(0, 1))));
    assert!(!world.finish_mesh(IVec2::new(9, 9)));
}
