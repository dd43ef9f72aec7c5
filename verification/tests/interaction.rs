use minerust::block::BlockType;
use minerust::chunk::Chunk;
use minerust::coords::{IVec2, IVec3};
use minerust::fluid::FluidSimulation;
use minerust::interaction::{break_block, normalize_dirty, place_block};
use minerust::inventory::{Inventory, ItemStack};
use minerust::world::{block_key, chunk_key, WorldGrid, WorldSeed};

fn world() -> WorldGrid {
    let mut w = WorldGrid::new(WorldSeed(7));
    w.chunks.insert(chunk_key(IVec2::new(0, 0)), Chunk::new());
    w
}

#[test]
fn breaking_stone_gives_cobblestone() {
    let mut w = world();
    let mut f = FluidSimulation::new();
    let mut inv = Inventory::default();
    let p = IVec3::new(3, 40, 4);
    w.set_block(p, BlockType::Stone);
    let dirty = break_block(&mut w, &mut f, &mut inv, p);
    assert_eq!(dirty, vec![IVec2::new(0, 0)]);
    assert_eq!(w.get_block(p), BlockType::Air);
    assert_eq!(inv.hotbar[0], Some(ItemStack { block_type: BlockType::Cobblestone, count: 1 }));
    assert!(f.queued.contains(&block_key(p)));
    assert!(f.queued.contains(&block_key(IVec3::new(3, 41, 4))));
}

#[test]
fn bedrock_air_and_floor_cannot_be_broken() {
    let mut w = world();
    let mut f = FluidSimulation::new();
    let mut inv = Inventory::default();
    let p = IVec3::new(1, 5, 1);
    w.set_block(p, BlockType::Bedrock);
    assert!(break_block(&mut w, &mut f, &mut inv, p).is_empty());
    assert_eq!(w.get_block(p), BlockType::Bedrock);
    assert!(break_block(&mut w, &mut f, &mut inv, IVec3::new(2, 5, 2)).is_empty());
    let floor = IVec3::new(2, 0, 2);
    w.set_block(floor, BlockType::Stone);
    assert!(break_block(&mut w, &mut f, &mut inv, floor).is_empty());
    assert_eq!(w.get_block(floor), BlockType::Stone);
    assert!(f.queue.is_empty());
    assert_eq!(inv.hotbar[0], None);
}

#[test]
fn placing_uses_the_selected_stack() {
    let mut w = world();
    let mut f = FluidSimulation::new();
    let mut inv = Inventory::default();
    inv.hotbar[0] = Some(ItemStack { block_type: BlockType::Planks, count: 2 });
    let p = IVec3::new(5, 60, 5);
    let dirty = place_block(&mut w, &mut f, &mut inv, p, false);
    assert_eq!(dirty, vec![IVec2::new(0, 0)]);
    assert_eq!(w.get_block(p), BlockType::Planks);
    assert_eq!(inv.hotbar[0], Some(ItemStack { block_type: BlockType::Planks, count: 1 }));
    let q = IVec3::new(6, 60, 5);
    assert!(place_block(&mut w, &mut f, &mut inv, q, true).is_empty());
    assert_eq!(w.get_block(q), BlockType::Air);
    place_block(&mut w, &mut f, &mut inv, q, false);
    assert_eq!(inv.hotbar[0], None);
    assert!(place_block(&mut w, &mut f, &mut inv, IVec3::new(7, 60, 5), false).is_empty());
}

#[test]
fn placing_water_makes_a_source() {
    let mut w = world();
    let mut f = FluidSimulation::new();
    let mut inv = Inventory::default();
    inv.hotbar[0] = Some(ItemStack { block_type: BlockType::Water, count: 1 });
    let p = IVec3::new(8, 70, 8);
    place_block(&mut w, &mut f, &mut inv, p, true);
    assert_eq!(w.get_block(p), BlockType::Water);
    assert!(f.sources.contains(&block_key(p)));
}

#[test]
fn dirty_chunks_are_sorted_and_deduplicated() {
    let coords = vec![
        IVec2::new(1, 0),
        IVec2::new(0, 2),
        IVec2::new(1, 0),
        IVec2::new(0, -1),
        IVec2::new(-3, 5),
    ];
    assert_eq!(
        normalize_dirty(&coords),
        vec![IVec2::new(-3, 5), IVec2::new(0, -1), IVec2::new(0, 2), IVec2::new(1, 0)]
    );
    assert!(normalize_dirty(&Vec::new()).is_empty());
}
