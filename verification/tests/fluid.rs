use minerust::block::BlockType;
use minerust::chunk::Chunk;
use minerust::coords::{IVec2, IVec3};
use minerust::fluid::{process_fluid_step, FluidSimulation};
use minerust::world::{block_key, chunk_key, WorldGrid, WorldSeed};

fn world_with(chunk: Chunk) -> WorldGrid {
    let mut world = WorldGrid::new(WorldSeed(12345));
    world.chunks.insert(chunk_key(IVec2::new(0, 0)), chunk);
    world
}

#[test]
fn test_seabed_hole_filling() {
    let mut chunk = Chunk::new();
    chunk.set(5, 30, 5, BlockType::Sand);
    chunk.set(5, 31, 5, BlockType::Water);
    let mut world = world_with(chunk);

    let mut fluid_sim = FluidSimulation::default();

    let hit_block = IVec3::new(5, 30, 5);
    world.set_block(hit_block, BlockType::Air);
    fluid_sim.schedule_neighbors(hit_block);

    assert_eq!(world.get_block(hit_block), BlockType::Air);

    process_fluid_step(&mut world, &mut fluid_sim);

    assert_eq!(world.get_block(hit_block), BlockType::Water);
}

#[test]
fn test_waterfall_cascades_downward() {
    let mut chunk = Chunk::new();
    chunk.set(5, 70, 5, BlockType::Stone);
    let mut world = world_with(chunk);

    let mut fluid_sim = FluidSimulation::default();

    let source_pos = IVec3::new(5, 75, 5);
    world.set_block(source_pos, BlockType::Water);
    fluid_sim.sources.insert(block_key(source_pos));
    fluid_sim.schedule(source_pos);

    for _ in 0..10 {
        process_fluid_step(&mut world, &mut fluid_sim);
    }

    for y in 71..=75 {
        assert_eq!(
            world.get_block(IVec3::new(5, y, 5)),
            BlockType::Water,
            "Waterfall should be water at y = {}",
            y
        );
    }
    assert_eq!(world.get_block(IVec3::new(5, 70, 5)), BlockType::Stone);
}

#[test]
fn test_waterfall_dries_up_when_plugged() {
    let mut chunk = Chunk::new();
    for y in 70..=72 {
        chunk.set(5, y, 5, BlockType::Water);
    }
    let mut world = world_with(chunk);

    let mut fluid_sim = FluidSimulation::default();
    fluid_sim.sources.insert(block_key(IVec3::new(5, 72, 5)));

    let source_pos = IVec3::new(5, 72, 5);
    world.set_block(source_pos, BlockType::Stone);
    fluid_sim.sources.remove(&block_key(source_pos));
    fluid_sim.schedule_neighbors(source_pos);

    for _ in 0..10 {
        process_fluid_step(&mut world, &mut fluid_sim);
    }

    assert_eq!(world.get_block(IVec3::new(5, 71, 5)), BlockType::Air);
    assert_eq!(world.get_block(IVec3::new(5, 70, 5)), BlockType::Air);
}

#[test]
fn test_water_advances_strictly_one_block_per_tick() {
    let mut chunk = Chunk::new();
    chunk.set(5, 70, 5, BlockType::Stone);
    let mut world = world_with(chunk);

    let mut fluid_sim = FluidSimulation::default();
    let source_pos = IVec3::new(5, 75, 5);
    world.set_block(source_pos, BlockType::Water);
    fluid_sim.sources.insert(block_key(source_pos));
    fluid_sim.schedule(source_pos);

    process_fluid_step(&mut world, &mut fluid_sim);
    assert_eq!(world.get_block(IVec3::new(5, 74, 5)), BlockType::Air);

    process_fluid_step(&mut world, &mut fluid_sim);
    assert_eq!(world.get_block(IVec3::new(5, 74, 5)), BlockType::Water);
    assert_eq!(world.get_block(IVec3::new(5, 73, 5)), BlockType::Air);

    process_fluid_step(&mut world, &mut fluid_sim);
    assert_eq!(world.get_block(IVec3::new(5, 73, 5)), BlockType::Water);
    assert_eq!(world.get_block(IVec3::new(5, 72, 5)), BlockType::Air);

    process_fluid_step(&mut world, &mut fluid_sim);
    assert_eq!(world.get_block(IVec3::new(5, 72, 5)), BlockType::Water);
    assert_eq!(world.get_block(IVec3::new(5, 71, 5)), BlockType::Air);

    process_fluid_step(&mut world, &mut fluid_sim);
    assert_eq!(world.get_block(IVec3::new(5, 71, 5)), BlockType::Water);
}

#[test]
fn fluid_schedule_ignores_out_of_range_and_duplicates() {
    let mut sim = FluidSimulation::new();
    sim.schedule(IVec3::new(0, 0, 0));
    sim.schedule(IVec3::new(0, 128, 0));
    assert!(sim.queue.is_empty());
    sim.schedule(IVec3::new(1, 5, 1));
    sim.schedule(IVec3::new(1, 5, 1));
    assert_eq!(sim.queue.len(), 1);
    assert_eq!(sim.queued.len(), 1);
    assert!(sim.queued.contains(&block_key(IVec3::new(1, 5, 1))));
}

#[test]
fn fluid_queue_stays_consistent_after_ticks() {
    let mut chunk = Chunk::new();
    chunk.set(5, 70, 5, BlockType::Stone);
    let mut world = world_with(chunk);
    let mut sim = FluidSimulation::new();
    let source = IVec3::new(5, 75, 5);
    world.set_block(source, BlockType::Water);
    sim.schedule_neighbors(source);
    for _ in 0..3 {
        process_fluid_step(&mut world, &mut sim);
        assert_eq!(sim.queue.len(), sim.queued.len());
        for p in sim.queue.iter() {
            assert!(sim.queued.contains(&block_key(*p)));
            assert!(p.y > 0 && p.y < 128);
        }
    }
}

#[test]
fn fluid_step_reports_dirty_chunks() {
    let mut chunk = Chunk::new();
    chunk.set(0, 31, 0, BlockType::Water);
    let mut world = world_with(chunk);
    let mut sim = FluidSimulation::new();
    sim.schedule(IVec3::new(0, 30, 0));
    let dirty = process_fluid_step(&mut world, &mut sim);
    assert_eq!(world.get_block(IVec3::new(0, 30, 0)), BlockType::Water);
    assert!(dirty.contains(&IVec2::new(0, 0)));
    assert!(dirty.contains(&IVec2::new(-1, 0)));
    assert!(dirty.contains(&IVec2::new(0, -1)));
}
