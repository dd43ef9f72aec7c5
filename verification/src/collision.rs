//! Solid blocks around the player: the block box that the player's body covers is tested
//! for a solid block.
use vstd::prelude::*;

use crate::block::spec_is_solid;
use crate::chunk::ChunkView;
use crate::coords::IVec3;
use crate::world::{WorldGrid, view_block};

verus! {

/// `p` lies in the box of block positions from `lo` to `hi`, both corners included.
pub open spec fn in_box(p: IVec3, lo: IVec3, hi: IVec3) -> bool {
    &&& lo.x <= p.x <= hi.x
    &&& lo.y <= p.y <= hi.y
    &&& lo.z <= p.z <= hi.z
}

/// Some block of the box is solid.
pub open spec fn solid_in_box(chunks: Map<u64, ChunkView>, lo: IVec3, hi: IVec3) -> bool {
    exists|p: IVec3| in_box(p, lo, hi) && #[trigger] spec_is_solid(view_block(chunks, p))
}

/// Whether a solid block lies in the box of block positions from `lo` to `hi`, both
/// corners included; an empty box (a corner of `lo` above that of `hi`) holds none.
pub fn box_has_solid(world: &WorldGrid, lo: IVec3, hi: IVec3) -> (r: bool)
    requires
        world.wf(),
    ensures
        r == solid_in_box(world.view().chunks, lo, hi),
{
    let ghost chunks = world.view().chunks;
    let mut x: i64 = lo.x as i64;
    while x <= hi.x as i64
        invariant
            world.wf(),
            chunks == world.view().chunks,
            lo.x <= x,
            x <= hi.x + 1 || x == lo.x,
            forall|p: IVec3| in_box(p, lo, hi) && p.x < x ==> !#[trigger] spec_is_solid(view_block(chunks, p)),
        decreases hi.x + 1 - x,
    {
        let mut y: i64 = lo.y as i64;
        while y <= hi.y as i64
            invariant
                world.wf(),
                chunks == world.view().chunks,
                lo.x <= x <= hi.x,
                lo.y <= y,
                y <= hi.y + 1 || y == lo.y,
                forall|p: IVec3|
                    in_box(p, lo, hi) && (p.x < x || (p.x == x && p.y < y)) ==> !#[trigger] spec_is_solid(view_block(chunks, p)),
            decreases hi.y + 1 - y,
        {
            let mut z: i64 = lo.z as i64;
            while z <= hi.z as i64
                invariant
                    world.wf(),
                    chunks == world.view().chunks,
                    lo.x <= x <= hi.x,
                    lo.y <= y <= hi.y,
                    lo.z <= z,
                    z <= hi.z + 1 || z == lo.z,
                    forall|p: IVec3|
                        in_box(p, lo, hi) && (p.x < x || (p.x == x && p.y < y) || (p.x == x && p.y == y && p.z < z))
                            ==> !#[trigger] spec_is_solid(view_block(chunks, p)),
                decreases hi.z + 1 - z,
            {
                let p = IVec3 { x: x as i32, y: y as i32, z: z as i32 };
                if world.is_solid_at(p) {
                    assert(in_box(p, lo, hi));
                    return true;
                }
                z += 1;
            }
            y += 1;
        }
        x += 1;
    }
    false
}

} // verus!
