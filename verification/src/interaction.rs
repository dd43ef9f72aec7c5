use vstd::prelude::*;

use crate::block::{BlockType, spec_drop_item, spec_is_solid};
use crate::coords::{IVec2, IVec3};
use crate::fluid::{FluidSimulation, FluidView, interior_pos, schedule_around};
use crate::inventory::{Inventory, ItemStack, add_item_result, all_slots};
use crate::world::{WorldGrid, block_key, spec_block_key, view_block, view_set_block};

verus! {

broadcast use vstd::std_specs::hash::group_hash_axioms;

/// A block can be mined when it lies above the world's floor and is neither bedrock nor
/// air.
pub open spec fn can_break(world_block: BlockType, pos: IVec3) -> bool {
    pos.y > 0 && world_block != BlockType::Bedrock && world_block != BlockType::Air
}

/// The fluid bookkeeping after the block at `pos` changed: `pos` is a water source exactly
/// when water was placed there, and it and its neighbours are queued.
pub open spec fn fluid_after_edit(f: FluidView, pos: IVec3, water_source: bool) -> FluidView {
    let sources = if water_source {
        f.sources.insert(spec_block_key(pos))
    } else {
        f.sources.remove(spec_block_key(pos))
    };
    schedule_around(FluidView { sources, ..f }, pos)
}

/// Mines the targeted block: it turns to air, the water around it is woken and what it
/// drops goes into the inventory (what does not fit is lost). Bedrock, air and the
/// bottom layer cannot be mined. Returns the chunks to re-mesh.
pub fn break_block(world: &mut WorldGrid, fluid: &mut FluidSimulation, inventory: &mut Inventory, hit: IVec3) -> (dirty: Vec<IVec2>)
    requires
        old(world).wf(),
        interior_pos(hit),
    ensures
        final(world).wf(),
        final(world).queued_for_mesh == old(world).queued_for_mesh,
        final(world).mesh_queue == old(world).mesh_queue,
        final(world).last_player_chunk == old(world).last_player_chunk,
        final(world).seed == old(world).seed,
        final(world).generation_queue == old(world).generation_queue,
        final(world).in_progress_chunks == old(world).in_progress_chunks,
        final(world).in_progress_meshes == old(world).in_progress_meshes,
        final(world).chunk_cache == old(world).chunk_cache,
        ({
            let target = view_block(old(world).view().chunks, hit);
            if can_break(target, hit) {
                &&& (final(world).view(), dirty@) == view_set_block(old(world).view(), hit, BlockType::Air)
                &&& final(fluid).view() == fluid_after_edit(old(fluid).view(), hit, false)
                &&& match spec_drop_item(target) {
                    Some(d) => all_slots(*final(inventory)) == add_item_result(all_slots(*old(inventory)), d, 1).0,
                    None => all_slots(*final(inventory)) == all_slots(*old(inventory)),
                }
                &&& final(inventory).selected_slot == old(inventory).selected_slot
                &&& final(inventory).is_open == old(inventory).is_open
            } else {
                &&& final(world).view() == old(world).view()
                &&& dirty@.len() == 0
                &&& final(fluid).view() == old(fluid).view()
                &&& *final(inventory) == *old(inventory)
            }
        }),
{
    let target = world.get_block(hit);
    if !(hit.y > 0 && target != BlockType::Bedrock && target != BlockType::Air) {
        return Vec::new();
    }
    let dirty = world.set_block(hit, BlockType::Air);
    fluid.sources.remove(&block_key(hit));
    fluid.schedule_neighbors(hit);
    if let Some(drop) = target.drop_item() {
        inventory.add_item(drop, 1);
    }
    dirty
}

/// Places the block of the selected hotbar stack at `place`, using one of the stack. A
/// solid block is not placed where it would overlap the player (`blocks_player`). Water
/// becomes a source; anything else ends a source there. Returns the chunks to re-mesh.
pub fn place_block(
    world: &mut WorldGrid,
    fluid: &mut FluidSimulation,
    inventory: &mut Inventory,
    place: IVec3,
    blocks_player: bool,
) -> (dirty: Vec<IVec2>)
    requires
        old(world).wf(),
        old(inventory).wf(),
        interior_pos(place),
    ensures
        final(world).wf(),
        final(inventory).wf(),
        final(world).queued_for_mesh == old(world).queued_for_mesh,
        final(world).mesh_queue == old(world).mesh_queue,
        final(world).last_player_chunk == old(world).last_player_chunk,
        final(world).seed == old(world).seed,
        final(world).generation_queue == old(world).generation_queue,
        final(world).in_progress_chunks == old(world).in_progress_chunks,
        final(world).in_progress_meshes == old(world).in_progress_meshes,
        final(world).chunk_cache == old(world).chunk_cache,
        ({
            match old(inventory).hotbar@[old(inventory).selected_slot as int] {
                Some(stack) => if stack.block_type != BlockType::Air && !(spec_is_solid(stack.block_type) && blocks_player) {
                    &&& (final(world).view(), dirty@) == view_set_block(old(world).view(), place, stack.block_type)
                    &&& final(fluid).view() == fluid_after_edit(old(fluid).view(), place, stack.block_type == BlockType::Water)
                    &&& final(inventory).hotbar@ == old(inventory).hotbar@.update(
                        old(inventory).selected_slot as int,
                        if stack.count > 1 {
                            Some(ItemStack { block_type: stack.block_type, count: (stack.count - 1) as u32 })
                        } else {
                            None
                        },
                    )
                    &&& final(inventory).main == old(inventory).main
                    &&& final(inventory).selected_slot == old(inventory).selected_slot
                    &&& final(inventory).is_open == old(inventory).is_open
                } else {
                    &&& final(world).view() == old(world).view()
                    &&& dirty@.len() == 0
                    &&& final(fluid).view() == old(fluid).view()
                    &&& *final(inventory) == *old(inventory)
                },
                None => {
                    &&& final(world).view() == old(world).view()
                    &&& dirty@.len() == 0
                    &&& final(fluid).view() == old(fluid).view()
                    &&& *final(inventory) == *old(inventory)
                },
            }
        }),
{
    let stack = match inventory.selected_item() {
        Some(s) => s,
        None => {
            return Vec::new();
        },
    };
    let block = stack.block_type;
    if block == BlockType::Air || (block.is_solid() && blocks_player) {
        return Vec::new();
    }
    let dirty = world.set_block(place, block);
    if block == BlockType::Water {
        fluid.sources.insert(block_key(place));
    } else {
        fluid.sources.remove(&block_key(place));
    }
    fluid.schedule_neighbors(place);
    inventory.consume_selected(1);
    dirty
}

/// Chunk coordinates in the order of `x`, then `z`.
pub open spec fn coord_lt(a: IVec2, b: IVec2) -> bool {
    a.x < b.x || (a.x == b.x && a.y < b.y)
}

/// Strictly increasing, so without repeats.
pub open spec fn strictly_sorted(s: Seq<IVec2>) -> bool {
    forall|i: int, j: int| 0 <= i < j < s.len() ==> coord_lt(#[trigger] s[i], #[trigger] s[j])
}

fn coord_less(a: IVec2, b: IVec2) -> (r: bool)
    ensures
        r == coord_lt(a, b),
{
    a.x < b.x || (a.x == b.x && a.y < b.y)
}

/// The chunks to re-mesh, each once, in the order of `x`, then `z`.
pub fn normalize_dirty(coords: &Vec<IVec2>) -> (r: Vec<IVec2>)
    ensures
        strictly_sorted(r@),
        forall|c: IVec2| r@.contains(c) <==> coords@.contains(c),
{
    let mut out: Vec<IVec2> = Vec::new();
    let mut k: usize = 0;
    while k < coords.len()
        invariant
            k <= coords@.len(),
            strictly_sorted(out@),
            forall|c: IVec2| out@.contains(c) <==> coords@.take(k as int).contains(c),
        decreases coords@.len() - k,
    {
        let c = coords[k];
        let mut i: usize = 0;
        while i < out.len() && coord_less(out[i], c)
            invariant
                i <= out@.len(),
                strictly_sorted(out@),
                forall|j: int| 0 <= j < i ==> coord_lt(#[trigger] out@[j], c),
            decreases out@.len() - i,
        {
            i += 1;
        }
        let ghost before = out@;
        let ghost t0 = coords@.take(k as int);
        let ghost t1 = coords@.take(k + 1);
        proof {
            assert(t1 == t0.push(c));
            assert forall|x: IVec2| t1.contains(x) <==> (t0.contains(x) || x == c) by {
                if t1.contains(x) {
                    let j = choose|j: int| 0 <= j < t1.len() && #[trigger] t1[j] == x;
                    if j < k {
                        assert(t0[j] == x);
                    }
                }
                if t0.contains(x) {
                    let j = choose|j: int| 0 <= j < t0.len() && #[trigger] t0[j] == x;
                    assert(t1[j] == x);
                }
                if x == c {
                    assert(t1[k as int] == x);
                }
            }
        }
        if i < out.len() && out[i] == c {
            proof {
                assert(out@[i as int] == c);
                assert(out@.contains(c));
                assert forall|x: IVec2| out@.contains(x) <==> t1.contains(x) by {
                    if x == c {
                        assert(out@.contains(c));
                    }
                }
            }
        } else {
            out.insert(i, c);
            proof {
                assert forall|a: int, b: int| 0 <= a < b < out@.len() implies coord_lt(#[trigger] out@[a], #[trigger] out@[b]) by {
                    if i < before.len() {
                        assert(!coord_lt(before[i as int], c));
                        assert(before[i as int] != c);
                    }
                    if a < i && b == i {
                    } else if a == i && b > i {
                        assert(out@[b] == before[b - 1]);
                        if b - 1 > i {
                            assert(coord_lt(before[i as int], before[b - 1]));
                        }
                    } else if a < i && b > i {
                        assert(out@[b] == before[b - 1]);
                    } else if a > i {
                        assert(out@[a] == before[a - 1] && out@[b] == before[b - 1]);
                    }
                }
                assert forall|x: IVec2| out@.contains(x) <==> (before.contains(x) || x == c) by {
                    if out@.contains(x) {
                        let j = choose|j: int| 0 <= j < out@.len() && #[trigger] out@[j] == x;
                        if j < i {
                            assert(before[j] == x);
                        } else if j > i {
                            assert(before[j - 1] == x);
                        }
                    }
                    if before.contains(x) {
                        let j = choose|j: int| 0 <= j < before.len() && #[trigger] before[j] == x;
                        if j < i {
                            assert(out@[j] == x);
                        } else {
                            assert(out@[j + 1] == x);
                        }
                    }
                    if x == c {
                        assert(out@[i as int] == x);
                    }
                }
                assert forall|x: IVec2| out@.contains(x) <==> t1.contains(x) by {
                    assert(out@.contains(x) <==> (before.contains(x) || x == c));
                    assert(before.contains(x) <==> t0.contains(x));
                    assert(t1.contains(x) <==> (t0.contains(x) || x == c));
                }
            }
        }
        k += 1;
    }
    proof {
        assert(coords@.take(coords@.len() as int) == coords@);
    }
    out
}

} // verus!
