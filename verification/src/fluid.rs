use vstd::prelude::*;
use std::collections::{HashSet, VecDeque};

use crate::block::{BlockType, spec_is_solid};
use crate::coords::{BlockPos, IVec2, IVec3, spec_to_chunk_and_local};
use crate::world::{
    SEA_LEVEL, WorldGrid, WorldView, block_key, chunk_containing, chunks_wf, spec_chunk_key, lemma_get_after_set, spec_block_key, view_block,
    view_set_block,
};

verus! {

broadcast use vstd::std_specs::hash::group_hash_axioms;

pub const MAX_FLUID_TICKS_PER_FRAME: usize = 48;

/// The pending water updates: a queue of positions to examine (each at most once, tracked
/// by key in `queued`) and the positions that are permanent water sources.
pub struct FluidSimulation {
    pub queue: VecDeque<IVec3>,
    pub queued: HashSet<u128>,
    pub sources: HashSet<u128>,
}

/// The contents of a fluid simulation.
pub struct FluidView {
    pub queue: Seq<IVec3>,
    pub queued: Set<u128>,
    pub sources: Set<u128>,
}

/// A position displaced by a small offset.
pub open spec fn off(p: IVec3, dx: int, dy: int, dz: int) -> IVec3 {
    IVec3 { x: (p.x + dx) as i32, y: (p.y + dy) as i32, z: (p.z + dz) as i32 }
}

/// A position whose six neighbours can be computed without overflow.
pub open spec fn interior_pos(p: IVec3) -> bool {
    &&& i32::MIN < p.x < i32::MAX
    &&& i32::MIN < p.y < i32::MAX
    &&& i32::MIN < p.z < i32::MAX
}

/// Scheduling a position: positions at or below the floor, at or above the world top, or
/// already queued are ignored; others join the back of the queue.
pub open spec fn spec_schedule(f: FluidView, p: IVec3) -> FluidView {
    if p.y <= 0 || p.y >= 128 || f.queued.contains(spec_block_key(p)) {
        f
    } else {
        FluidView { queue: f.queue.push(p), queued: f.queued.insert(spec_block_key(p)), sources: f.sources }
    }
}

/// Scheduling a position, then the positions above, below, east, west, north and south of
/// it.
pub open spec fn schedule_around(f: FluidView, pos: IVec3) -> FluidView {
    spec_schedule(spec_schedule(spec_schedule(spec_schedule(spec_schedule(
        spec_schedule(spec_schedule(f, pos), off(pos, 0, 1, 0)), off(pos, 0, -1, 0)),
        off(pos, 1, 0, 0)), off(pos, -1, 0, 0)), off(pos, 0, 0, 1)), off(pos, 0, 0, -1))
}

pub open spec fn schedule_if(f: FluidView, p: IVec3, cond: bool) -> FluidView {
    if cond { spec_schedule(f, p) } else { f }
}

pub open spec fn water_at(w: WorldView, p: IVec3) -> bool {
    view_block(w.chunks, p) == BlockType::Water
}

pub open spec fn air_at(w: WorldView, p: IVec3) -> bool {
    view_block(w.chunks, p) == BlockType::Air
}

/// Water flows sideways from `n` into `p`: at or below sea level any neighbouring water
/// fills the hole; above it, only water resting on a solid block or the world floor.
pub open spec fn flows_from(w: WorldView, p: IVec3, n: IVec3) -> bool {
    water_at(w, n) && (p.y <= 64 || spec_is_solid(view_block(w.chunks, off(n, 0, -1, 0))) || n.y - 1 <= 0)
}

/// An air position fills with water from above or from a side.
pub open spec fn should_fill(w: WorldView, p: IVec3) -> bool {
    ||| water_at(w, off(p, 0, 1, 0))
    ||| flows_from(w, p, off(p, 1, 0, 0))
    ||| flows_from(w, p, off(p, -1, 0, 0))
    ||| flows_from(w, p, off(p, 0, 0, 1))
    ||| flows_from(w, p, off(p, 0, 0, -1))
}

/// Water has a neighbour of water beside it.
pub open spec fn has_side_water(w: WorldView, p: IVec3) -> bool {
    ||| water_at(w, off(p, 1, 0, 0))
    ||| water_at(w, off(p, -1, 0, 0))
    ||| water_at(w, off(p, 0, 0, 1))
    ||| water_at(w, off(p, 0, 0, -1))
}

/// One fluid tick: examine the front of the queue. Air that water can reach becomes water
/// and schedules the air below and beside it; water schedules the air below it and, above
/// sea level and away from sources, dries up when neither the block above nor any side
/// holds water, scheduling the block below and the water beside it.
pub open spec fn fluid_tick(w: WorldView, f: FluidView) -> (WorldView, FluidView, Seq<IVec2>) {
    let pos = f.queue[0];
    let f1 = FluidView { queue: f.queue.drop_first(), queued: f.queued.remove(spec_block_key(pos)), sources: f.sources };
    let below = off(pos, 0, -1, 0);
    if air_at(w, pos) {
        if should_fill(w, pos) {
            let (w2, d) = view_set_block(w, pos, BlockType::Water);
            let f2 = schedule_if(f1, below, below.y > 0 && air_at(w2, below));
            let f3 = schedule_if(f2, off(pos, 1, 0, 0), air_at(w2, off(pos, 1, 0, 0)));
            let f4 = schedule_if(f3, off(pos, -1, 0, 0), air_at(w2, off(pos, -1, 0, 0)));
            let f5 = schedule_if(f4, off(pos, 0, 0, 1), air_at(w2, off(pos, 0, 0, 1)));
            let f6 = schedule_if(f5, off(pos, 0, 0, -1), air_at(w2, off(pos, 0, 0, -1)));
            (w2, f6, d)
        } else {
            (w, f1, Seq::empty())
        }
    } else if water_at(w, pos) {
        let f2 = schedule_if(f1, below, below.y > 0 && air_at(w, below));
        if pos.y > 64 && !f2.sources.contains(spec_block_key(pos)) && !water_at(w, off(pos, 0, 1, 0))
            && !has_side_water(w, pos) {
            let f3 = FluidView { queue: f2.queue, queued: f2.queued, sources: f2.sources.remove(spec_block_key(pos)) };
            let (w2, d) = view_set_block(w, pos, BlockType::Air);
            let f4 = spec_schedule(f3, below);
            let f5 = schedule_if(f4, off(pos, 1, 0, 0), water_at(w2, off(pos, 1, 0, 0)));
            let f6 = schedule_if(f5, off(pos, -1, 0, 0), water_at(w2, off(pos, -1, 0, 0)));
            let f7 = schedule_if(f6, off(pos, 0, 0, 1), water_at(w2, off(pos, 0, 0, 1)));
            let f8 = schedule_if(f7, off(pos, 0, 0, -1), water_at(w2, off(pos, 0, 0, -1)));
            (w2, f8, d)
        } else {
            (w, f2, Seq::empty())
        }
    } else {
        (w, f1, Seq::empty())
    }
}

/// `n` fluid ticks in a row (stopping early when the queue runs dry), with the dirty chunk
/// coordinates of all of them in order.
pub open spec fn fluid_steps(w: WorldView, f: FluidView, n: int) -> (WorldView, FluidView, Seq<IVec2>)
    decreases n,
{
    if n <= 0 {
        (w, f, Seq::empty())
    } else {
        let (w1, f1, d1) = fluid_steps(w, f, n - 1);
        if f1.queue.len() == 0 {
            (w1, f1, d1)
        } else {
            let (w2, f2, d2) = fluid_tick(w1, f1);
            (w2, f2, d1 + d2)
        }
    }
}

impl FluidSimulation {
    pub open spec fn view(&self) -> FluidView {
        FluidView { queue: self.queue@, queued: self.queued@, sources: self.sources@ }
    }

    /// An empty simulation.
    pub fn new() -> (r: FluidSimulation)
        ensures
            r.view().queue == Seq::<IVec3>::empty(),
            r.view().queued == Set::<u128>::empty(),
            r.view().sources == Set::<u128>::empty(),
    {
        FluidSimulation {
            queue: VecDeque::with_capacity(256),
            queued: HashSet::new(),
            sources: HashSet::new(),
        }
    }

    /// Queues a position for examination unless it is outside the world's height range or
    /// already queued.
    pub fn schedule(&mut self, pos: IVec3)
        ensures
            final(self).view() == spec_schedule(old(self).view(), pos),
    {
        if pos.y <= 0 || pos.y >= 128 {
            return;
        }
        if self.queued.insert(block_key(pos)) {
            self.queue.push_back(pos);
        } else {
            proof {
                assert(self.queued@ =~= old(self).queued@);
            }
        }
    }

    /// Queues a position and its six neighbours.
    pub fn schedule_neighbors(&mut self, pos: IVec3)
        requires
            interior_pos(pos),
        ensures
            final(self).view() == schedule_around(old(self).view(), pos),
    {
        self.schedule(pos);
        self.schedule(IVec3 { x: pos.x, y: pos.y + 1, z: pos.z });
        self.schedule(IVec3 { x: pos.x, y: pos.y - 1, z: pos.z });
        self.schedule(IVec3 { x: pos.x + 1, y: pos.y, z: pos.z });
        self.schedule(IVec3 { x: pos.x - 1, y: pos.y, z: pos.z });
        self.schedule(IVec3 { x: pos.x, y: pos.y, z: pos.z + 1 });
        self.schedule(IVec3 { x: pos.x, y: pos.y, z: pos.z - 1 });
    }
}

impl Default for FluidSimulation {
    fn default() -> (r: FluidSimulation)
        ensures
            r.view().queue == Seq::<IVec3>::empty(),
            r.view().queued == Set::<u128>::empty(),
            r.view().sources == Set::<u128>::empty(),
    {
        FluidSimulation::new()
    }
}

/// Whether water from the side neighbour `npos` flows into the air at `pos`.
fn flows_in(world: &WorldGrid, pos: IVec3, npos: IVec3) -> (r: bool)
    requires
        world.wf(),
        i32::MIN < npos.y,
    ensures
        r == flows_from(world.view(), pos, npos),
{
    if world.get_block(npos) == BlockType::Water {
        if pos.y <= SEA_LEVEL {
            true
        } else {
            let below_npos = IVec3 { x: npos.x, y: npos.y - 1, z: npos.z };
            world.is_solid_at(below_npos) || below_npos.y <= 0
        }
    } else {
        false
    }
}

/// Schedules `p` when the world holds `kind` there.
fn schedule_if_block(world: &WorldGrid, fluid_sim: &mut FluidSimulation, p: IVec3, kind: BlockType)
    requires
        world.wf(),
    ensures
        final(fluid_sim).view() == schedule_if(old(fluid_sim).view(), p, view_block(world.view().chunks, p) == kind),
{
    if world.get_block(p) == kind {
        fluid_sim.schedule(p);
    }
}

/// Runs one fluid tick on the front of the queue, appending the dirty chunk coordinates.
fn run_tick(world: &mut WorldGrid, fluid_sim: &mut FluidSimulation, dirty: &mut Vec<IVec2>)
    requires
        old(world).wf(),
        old(fluid_sim).view().queue.len() > 0,
        interior_pos(old(fluid_sim).view().queue[0]),
    ensures
        final(world).wf(),
        final(world).view() == fluid_tick(old(world).view(), old(fluid_sim).view()).0,
        final(fluid_sim).view() == fluid_tick(old(world).view(), old(fluid_sim).view()).1,
        final(dirty)@ == old(dirty)@ + fluid_tick(old(world).view(), old(fluid_sim).view()).2,
        final(world).queued_for_mesh == old(world).queued_for_mesh,
        final(world).mesh_queue == old(world).mesh_queue,
        final(world).last_player_chunk == old(world).last_player_chunk,
        final(world).seed == old(world).seed,
        final(world).generation_queue == old(world).generation_queue,
        final(world).in_progress_chunks == old(world).in_progress_chunks,
        final(world).in_progress_meshes == old(world).in_progress_meshes,
        final(world).chunk_cache == old(world).chunk_cache,
{
    let ghost w0 = world.view();
    let ghost f0 = fluid_sim.view();
    let pos = match fluid_sim.queue.pop_front() {
        Some(p) => p,
        None => {
            return;
        },
    };
    fluid_sim.queued.remove(&block_key(pos));
    let ghost f1 = fluid_sim.view();
    proof {
        assert(f1 == FluidView { queue: f0.queue.drop_first(), queued: f0.queued.remove(spec_block_key(pos)), sources: f0.sources });
    }
    let above = IVec3 { x: pos.x, y: pos.y + 1, z: pos.z };
    let below = IVec3 { x: pos.x, y: pos.y - 1, z: pos.z };
    let px = IVec3 { x: pos.x + 1, y: pos.y, z: pos.z };
    let nx = IVec3 { x: pos.x - 1, y: pos.y, z: pos.z };
    let pz = IVec3 { x: pos.x, y: pos.y, z: pos.z + 1 };
    let nz = IVec3 { x: pos.x, y: pos.y, z: pos.z - 1 };
    proof {
        assert(above == off(pos, 0, 1, 0));
        assert(below == off(pos, 0, -1, 0));
        assert(px == off(pos, 1, 0, 0));
        assert(nx == off(pos, -1, 0, 0));
        assert(pz == off(pos, 0, 0, 1));
        assert(nz == off(pos, 0, 0, -1));
    }
    let current_block = world.get_block(pos);
    if current_block == BlockType::Air {
        // Water directly above falls down; water beside flows in.
        let should_fill_water = world.get_block(above) == BlockType::Water || flows_in(world, pos, px)
            || flows_in(world, pos, nx) || flows_in(world, pos, pz) || flows_in(world, pos, nz);
        if should_fill_water {
            let mut affected = world.set_block(pos, BlockType::Water);
            dirty.append(&mut affected);
            if below.y > 0 && world.get_block(below) == BlockType::Air {
                fluid_sim.schedule(below);
            }
            schedule_if_block(world, fluid_sim, px, BlockType::Air);
            schedule_if_block(world, fluid_sim, nx, BlockType::Air);
            schedule_if_block(world, fluid_sim, pz, BlockType::Air);
            schedule_if_block(world, fluid_sim, nz, BlockType::Air);
        }
    } else if current_block == BlockType::Water {
        if below.y > 0 && world.get_block(below) == BlockType::Air {
            fluid_sim.schedule(below);
        }
        if pos.y > SEA_LEVEL && !fluid_sim.sources.contains(&block_key(pos)) {
            let has_water_above = world.get_block(above) == BlockType::Water;
            let has_horizontal_water = world.get_block(px) == BlockType::Water || world.get_block(nx)
                == BlockType::Water || world.get_block(pz) == BlockType::Water || world.get_block(nz)
                == BlockType::Water;
            if !has_water_above && !has_horizontal_water {
                fluid_sim.sources.remove(&block_key(pos));
                let mut affected = world.set_block(pos, BlockType::Air);
                dirty.append(&mut affected);
                fluid_sim.schedule(below);
                schedule_if_block(world, fluid_sim, px, BlockType::Water);
                schedule_if_block(world, fluid_sim, nx, BlockType::Water);
                schedule_if_block(world, fluid_sim, pz, BlockType::Water);
                schedule_if_block(world, fluid_sim, nz, BlockType::Water);
            }
        }
    }
    proof {
        if !(current_block == BlockType::Air && should_fill(w0, pos)) && !(current_block == BlockType::Water && pos.y > 64 && !f0.sources.contains(spec_block_key(pos)) && !water_at(w0, off(pos, 0, 1, 0)) && !has_side_water(w0, pos)) {
            assert(dirty@ =~= old(dirty)@ + Seq::<IVec2>::empty());
        }
    }
}

/// Executes a batch of fluid ticks: as many as the queue held at the start, at most
/// [`MAX_FLUID_TICKS_PER_FRAME`]; returns the coordinates of the chunks whose blocks changed
/// or that border a change.
pub fn process_fluid_step(world: &mut WorldGrid, fluid_sim: &mut FluidSimulation) -> (r: Vec<IVec2>)
    requires
        old(world).wf(),
        forall|k: int| 0 <= k < old(fluid_sim).view().queue.len() && k < 48 ==> interior_pos(#[trigger] old(fluid_sim).view().queue[k]),
    ensures
        final(world).wf(),
        ({
            let n = if old(fluid_sim).view().queue.len() < 48 { old(fluid_sim).view().queue.len() as int } else { 48 };
            let (w, f, d) = fluid_steps(old(world).view(), old(fluid_sim).view(), n);
            &&& final(world).view() == w
            &&& final(fluid_sim).view() == f
            &&& r@ == d
        }),
        final(world).queued_for_mesh == old(world).queued_for_mesh,
        final(world).mesh_queue == old(world).mesh_queue,
        final(world).last_player_chunk == old(world).last_player_chunk,
        final(world).seed == old(world).seed,
        final(world).generation_queue == old(world).generation_queue,
        final(world).in_progress_chunks == old(world).in_progress_chunks,
        final(world).in_progress_meshes == old(world).in_progress_meshes,
        final(world).chunk_cache == old(world).chunk_cache,
{
    let mut dirty_coords: Vec<IVec2> = Vec::new();
    let len = fluid_sim.queue.len();
    let batch_size = if len < MAX_FLUID_TICKS_PER_FRAME { len } else { MAX_FLUID_TICKS_PER_FRAME };
    let ghost w0 = world.view();
    let ghost f0 = fluid_sim.view();
    let mut k: usize = 0;
    while k < batch_size
        invariant
            batch_size <= len,
            batch_size <= 48,
            len == f0.queue.len(),
            k <= batch_size,
            world.wf(),
            forall|j: int| 0 <= j < f0.queue.len() && j < 48 ==> interior_pos(#[trigger] f0.queue[j]),
            fluid_sim.view().queue.len() >= len - k,
            forall|j: int| 0 <= j < len - k ==> #[trigger] fluid_sim.view().queue[j] == f0.queue[j + k],
            (world.view(), fluid_sim.view(), dirty_coords@) == fluid_steps(w0, f0, k as int),
            world.queued_for_mesh == old(world).queued_for_mesh,
            world.mesh_queue == old(world).mesh_queue,
            world.last_player_chunk == old(world).last_player_chunk,
            world.seed == old(world).seed,
            world.generation_queue == old(world).generation_queue,
            world.in_progress_chunks == old(world).in_progress_chunks,
            world.in_progress_meshes == old(world).in_progress_meshes,
            world.chunk_cache == old(world).chunk_cache,
        decreases batch_size - k,
    {
        let ghost fq = fluid_sim.view();
        let ghost wq = world.view();
        proof {
            assert(fq.queue[0] == f0.queue[k as int]);
        }
        run_tick(world, fluid_sim, &mut dirty_coords);
        proof {
            lemma_tick_queue(wq, fq);
            assert forall|j: int| 0 <= j < len - (k + 1) implies #[trigger] fluid_sim.view().queue[j] == f0.queue[j + k + 1] by {
                assert(fluid_sim.view().queue[j] == fq.queue[j + 1]);
            }
        }
        k += 1;
    }
    dirty_coords
}

/// Scheduling only appends to the queue.
proof fn lemma_schedule_appends(f: FluidView, p: IVec3)
    ensures
        spec_schedule(f, p).queue.len() >= f.queue.len(),
        forall|j: int| 0 <= j < f.queue.len() ==> #[trigger] spec_schedule(f, p).queue[j] == f.queue[j],
        spec_schedule(f, p).sources == f.sources,
{
}

/// A tick drops the front of the queue and only appends behind the rest.
proof fn lemma_tick_queue(w: WorldView, f: FluidView)
    requires
        f.queue.len() > 0,
    ensures
        fluid_tick(w, f).1.queue.len() >= f.queue.len() - 1,
        forall|j: int| 0 <= j < f.queue.len() - 1 ==> #[trigger] fluid_tick(w, f).1.queue[j] == f.queue[j + 1],
{
    let pos = f.queue[0];
    let f1 = FluidView { queue: f.queue.drop_first(), queued: f.queued.remove(spec_block_key(pos)), sources: f.sources };
    let below = off(pos, 0, -1, 0);
    let (w2, d) = view_set_block(w, pos, BlockType::Water);
    let f2 = schedule_if(f1, below, below.y > 0 && air_at(w2, below));
    let f3 = schedule_if(f2, off(pos, 1, 0, 0), air_at(w2, off(pos, 1, 0, 0)));
    let f4 = schedule_if(f3, off(pos, -1, 0, 0), air_at(w2, off(pos, -1, 0, 0)));
    let f5 = schedule_if(f4, off(pos, 0, 0, 1), air_at(w2, off(pos, 0, 0, 1)));
    lemma_schedule_appends(f1, below);
    lemma_schedule_appends(f2, off(pos, 1, 0, 0));
    lemma_schedule_appends(f3, off(pos, -1, 0, 0));
    lemma_schedule_appends(f4, off(pos, 0, 0, 1));
    lemma_schedule_appends(f5, off(pos, 0, 0, -1));
    let g2 = schedule_if(f1, below, below.y > 0 && air_at(w, below));
    lemma_schedule_appends(f1, below);
    let g3 = FluidView { queue: g2.queue, queued: g2.queued, sources: g2.sources.remove(spec_block_key(pos)) };
    let (v2, e) = view_set_block(w, pos, BlockType::Air);
    let g4 = spec_schedule(g3, below);
    let g5 = schedule_if(g4, off(pos, 1, 0, 0), water_at(v2, off(pos, 1, 0, 0)));
    let g6 = schedule_if(g5, off(pos, -1, 0, 0), water_at(v2, off(pos, -1, 0, 0)));
    let g7 = schedule_if(g6, off(pos, 0, 0, 1), water_at(v2, off(pos, 0, 0, 1)));
    lemma_schedule_appends(g3, below);
    lemma_schedule_appends(g4, off(pos, 1, 0, 0));
    lemma_schedule_appends(g5, off(pos, -1, 0, 0));
    lemma_schedule_appends(g6, off(pos, 0, 0, 1));
    lemma_schedule_appends(g7, off(pos, 0, 0, -1));
}

/// The bookkeeping of a simulation is consistent: `queued` holds exactly the keys of the
/// queued positions, no position is queued twice, and every queued position lies strictly
/// between the world floor and the world top.
pub open spec fn queue_wf(f: FluidView) -> bool {
    &&& forall|i: int| 0 <= i < f.queue.len() ==> f.queued.contains(spec_block_key(#[trigger] f.queue[i]))
    &&& forall|i: int| 0 <= i < f.queue.len() ==> 0 < (#[trigger] f.queue[i]).y < 128
    &&& forall|k: u128| f.queued.contains(k) ==> exists|i: int| 0 <= i < f.queue.len() && spec_block_key(#[trigger] f.queue[i]) == k
    &&& forall|i: int, j: int| 0 <= i < j < f.queue.len() ==> spec_block_key(#[trigger] f.queue[i]) != spec_block_key(#[trigger] f.queue[j])
}

/// Scheduling keeps the bookkeeping consistent.
pub proof fn lemma_schedule_keeps_queue_wf(f: FluidView, p: IVec3)
    requires
        queue_wf(f),
    ensures
        queue_wf(spec_schedule(f, p)),
{
    let g = spec_schedule(f, p);
    if !(p.y <= 0 || p.y >= 128 || f.queued.contains(spec_block_key(p))) {
        assert forall|k: u128| g.queued.contains(k) implies exists|i: int| 0 <= i < g.queue.len() && spec_block_key(#[trigger] g.queue[i]) == k by {
            if k == spec_block_key(p) {
                assert(g.queue[f.queue.len() as int] == p);
            } else {
                let i = choose|i: int| 0 <= i < f.queue.len() && spec_block_key(#[trigger] f.queue[i]) == k;
                assert(g.queue[i] == f.queue[i]);
            }
        }
        assert forall|i: int, j: int| 0 <= i < j < g.queue.len() implies spec_block_key(#[trigger] g.queue[i]) != spec_block_key(#[trigger] g.queue[j]) by {
            if j == f.queue.len() {
                assert(f.queued.contains(spec_block_key(f.queue[i])));
            }
        }
    }
}

proof fn lemma_schedule_if_keeps_queue_wf(f: FluidView, p: IVec3, cond: bool)
    requires
        queue_wf(f),
    ensures
        queue_wf(schedule_if(f, p, cond)),
{
    if cond {
        lemma_schedule_keeps_queue_wf(f, p);
    }
}

/// A fluid tick keeps the bookkeeping consistent.
pub proof fn lemma_tick_keeps_queue_wf(w: WorldView, f: FluidView)
    requires
        queue_wf(f),
        f.queue.len() > 0,
    ensures
        queue_wf(fluid_tick(w, f).1),
{
    let pos = f.queue[0];
    let f1 = FluidView { queue: f.queue.drop_first(), queued: f.queued.remove(spec_block_key(pos)), sources: f.sources };
    assert forall|i: int| 0 <= i < f1.queue.len() implies f1.queued.contains(spec_block_key(#[trigger] f1.queue[i])) by {
        assert(f1.queue[i] == f.queue[i + 1]);
        assert(spec_block_key(f.queue[0]) != spec_block_key(f.queue[i + 1]));
    }
    assert forall|i: int| 0 <= i < f1.queue.len() implies 0 < (#[trigger] f1.queue[i]).y < 128 by {
        assert(f1.queue[i] == f.queue[i + 1]);
    }
    assert forall|k: u128| f1.queued.contains(k) implies exists|i: int| 0 <= i < f1.queue.len() && spec_block_key(#[trigger] f1.queue[i]) == k by {
        let i = choose|i: int| 0 <= i < f.queue.len() && spec_block_key(#[trigger] f.queue[i]) == k;
        assert(i != 0);
        assert(f1.queue[i - 1] == f.queue[i]);
    }
    assert forall|i: int, j: int| 0 <= i < j < f1.queue.len() implies spec_block_key(#[trigger] f1.queue[i]) != spec_block_key(#[trigger] f1.queue[j]) by {
        assert(f1.queue[i] == f.queue[i + 1]);
        assert(f1.queue[j] == f.queue[j + 1]);
    }
    assert(queue_wf(f1));
    let below = off(pos, 0, -1, 0);
    let (w2, d) = view_set_block(w, pos, BlockType::Water);
    let f2 = schedule_if(f1, below, below.y > 0 && air_at(w2, below));
    let f3 = schedule_if(f2, off(pos, 1, 0, 0), air_at(w2, off(pos, 1, 0, 0)));
    let f4 = schedule_if(f3, off(pos, -1, 0, 0), air_at(w2, off(pos, -1, 0, 0)));
    let f5 = schedule_if(f4, off(pos, 0, 0, 1), air_at(w2, off(pos, 0, 0, 1)));
    lemma_schedule_if_keeps_queue_wf(f1, below, below.y > 0 && air_at(w2, below));
    lemma_schedule_if_keeps_queue_wf(f2, off(pos, 1, 0, 0), air_at(w2, off(pos, 1, 0, 0)));
    lemma_schedule_if_keeps_queue_wf(f3, off(pos, -1, 0, 0), air_at(w2, off(pos, -1, 0, 0)));
    lemma_schedule_if_keeps_queue_wf(f4, off(pos, 0, 0, 1), air_at(w2, off(pos, 0, 0, 1)));
    lemma_schedule_if_keeps_queue_wf(f5, off(pos, 0, 0, -1), air_at(w2, off(pos, 0, 0, -1)));
    let g2 = schedule_if(f1, below, below.y > 0 && air_at(w, below));
    lemma_schedule_if_keeps_queue_wf(f1, below, below.y > 0 && air_at(w, below));
    let g3 = FluidView { queue: g2.queue, queued: g2.queued, sources: g2.sources.remove(spec_block_key(pos)) };
    let (v2, e) = view_set_block(w, pos, BlockType::Air);
    let g4 = spec_schedule(g3, below);
    let g5 = schedule_if(g4, off(pos, 1, 0, 0), water_at(v2, off(pos, 1, 0, 0)));
    let g6 = schedule_if(g5, off(pos, -1, 0, 0), water_at(v2, off(pos, -1, 0, 0)));
    let g7 = schedule_if(g6, off(pos, 0, 0, 1), water_at(v2, off(pos, 0, 0, 1)));
    assert(queue_wf(g3)) by {
        assert(g3.queue == g2.queue && g3.queued == g2.queued);
    }
    lemma_schedule_keeps_queue_wf(g3, below);
    lemma_schedule_if_keeps_queue_wf(g4, off(pos, 1, 0, 0), water_at(v2, off(pos, 1, 0, 0)));
    lemma_schedule_if_keeps_queue_wf(g5, off(pos, -1, 0, 0), water_at(v2, off(pos, -1, 0, 0)));
    lemma_schedule_if_keeps_queue_wf(g6, off(pos, 0, 0, 1), water_at(v2, off(pos, 0, 0, 1)));
    lemma_schedule_if_keeps_queue_wf(g7, off(pos, 0, 0, -1), water_at(v2, off(pos, 0, 0, -1)));
}

/// Any number of fluid ticks keeps the bookkeeping consistent.
pub proof fn lemma_steps_keep_queue_wf(w: WorldView, f: FluidView, n: int)
    requires
        queue_wf(f),
    ensures
        queue_wf(fluid_steps(w, f, n).1),
    decreases n,
{
    if n > 0 {
        lemma_steps_keep_queue_wf(w, f, n - 1);
        let (w1, f1, d1) = fluid_steps(w, f, n - 1);
        if f1.queue.len() > 0 {
            lemma_tick_keeps_queue_wf(w1, f1);
        }
    }
}

/// One fluid tick changes at most the block at the front of the queue, and only between
/// air and water: air becomes water only where water lies above it or flows in from a side,
/// and water becomes air only where no water lies above or beside it.
pub proof fn lemma_tick_changes_one_block(w: WorldView, f: FluidView, q: IVec3)
    requires
        chunks_wf(w.chunks),
        f.queue.len() > 0,
    ensures
        ({
            let pos = f.queue[0];
            let w2 = fluid_tick(w, f).0;
            &&& q != pos ==> view_block(w2.chunks, q) == view_block(w.chunks, q)
            &&& view_block(w2.chunks, pos) != view_block(w.chunks, pos) ==> {
                ||| air_at(w, pos) && water_at(w2, pos) && should_fill(w, pos)
                ||| water_at(w, pos) && air_at(w2, pos) && !water_at(w, off(pos, 0, 1, 0)) && !has_side_water(w, pos)
            }
        }),
{
    let pos = f.queue[0];
    lemma_get_after_set(w, pos, BlockType::Water, q);
    lemma_get_after_set(w, pos, BlockType::Water, pos);
    lemma_get_after_set(w, pos, BlockType::Air, q);
    lemma_get_after_set(w, pos, BlockType::Air, pos);
}

/// Water fills a hole from above, and at or below sea level from any side: when the
/// position at the front of the queue is air in a loaded chunk and water lies directly
/// above it, or beside it while the hole is at or below sea level, the tick turns it into
/// water.
pub proof fn lemma_hole_fills(w: WorldView, f: FluidView, n: IVec3)
    requires
        chunks_wf(w.chunks),
        f.queue.len() > 0,
        interior_pos(f.queue[0]),
        0 <= f.queue[0].y < 128,
        w.chunks.contains_key(spec_chunk_key(chunk_containing(f.queue[0]))),
        view_block(w.chunks, f.queue[0]) == BlockType::Air,
        view_block(w.chunks, n) == BlockType::Water,
        ({
            let p = f.queue[0];
            ||| n.x == p.x && n.y == p.y + 1 && n.z == p.z
            ||| p.y <= SEA_LEVEL && n.y == p.y && (
                (n.z == p.z && (n.x == p.x + 1 || n.x == p.x - 1))
                || (n.x == p.x && (n.z == p.z + 1 || n.z == p.z - 1)))
        }),
    ensures
        view_block(fluid_tick(w, f).0.chunks, f.queue[0]) == BlockType::Water,
{
    let p = f.queue[0];
    assert(spec_to_chunk_and_local(BlockPos(p)).0.0 == chunk_containing(p));
    assert(should_fill(w, p));
    lemma_get_after_set(w, p, BlockType::Water, p);
}

/// Water beside `p` at `n` that can flow into `p` above sea level: it rests on a solid
/// block.
pub open spec fn resting_water(w: WorldView, n: IVec3) -> bool {
    view_block(w.chunks, n) == BlockType::Water
        && spec_is_solid(view_block(w.chunks, IVec3 { x: n.x, y: (n.y - 1) as i32, z: n.z }))
}

/// What one tick does to the position at the front of the queue, in a loaded chunk.
/// Air fills with water when water lies above it; at or below sea level also when water
/// lies on any side; above sea level only when water beside it rests on a solid block.
/// Otherwise it stays air. Water above sea level that is not a source dries up exactly
/// when no water lies above or beside it; sources and water at or below sea level stay.
pub proof fn lemma_tick_at_front(w: WorldView, f: FluidView)
    requires
        chunks_wf(w.chunks),
        f.queue.len() > 0,
        interior_pos(f.queue[0]),
        1 <= f.queue[0].y < 127,
        w.chunks.contains_key(spec_chunk_key(chunk_containing(f.queue[0]))),
    ensures
        ({
            let p = f.queue[0];
            let before = view_block(w.chunks, p);
            let after = view_block(fluid_tick(w, f).0.chunks, p);
            let above = IVec3 { x: p.x, y: (p.y + 1) as i32, z: p.z };
            let e = IVec3 { x: (p.x + 1) as i32, y: p.y, z: p.z };
            let wst = IVec3 { x: (p.x - 1) as i32, y: p.y, z: p.z };
            let n = IVec3 { x: p.x, y: p.y, z: (p.z + 1) as i32 };
            let s = IVec3 { x: p.x, y: p.y, z: (p.z - 1) as i32 };
            let water = |q: IVec3| view_block(w.chunks, q) == BlockType::Water;
            &&& before == BlockType::Air && p.y <= SEA_LEVEL ==> (after == BlockType::Water
                <==> water(above) || water(e) || water(wst) || water(n) || water(s))
            &&& before == BlockType::Air && p.y > SEA_LEVEL ==> (after == BlockType::Water
                <==> water(above) || resting_water(w, e) || resting_water(w, wst) || resting_water(w, n) || resting_water(w, s))
            &&& before == BlockType::Air ==> (after == BlockType::Water || after == BlockType::Air)
            &&& before == BlockType::Water && (p.y <= SEA_LEVEL || f.sources.contains(spec_block_key(p))) ==> after == BlockType::Water
            &&& before == BlockType::Water && p.y > SEA_LEVEL && !f.sources.contains(spec_block_key(p)) ==> (after == BlockType::Air
                <==> !(water(above) || water(e) || water(wst) || water(n) || water(s)))
            &&& before == BlockType::Water ==> (after == BlockType::Water || after == BlockType::Air)
            &&& before != BlockType::Air && before != BlockType::Water ==> after == before
        }),
{
    let p = f.queue[0];
    assert(spec_to_chunk_and_local(BlockPos(p)).0.0 == chunk_containing(p));
    lemma_get_after_set(w, p, BlockType::Water, p);
    lemma_get_after_set(w, p, BlockType::Air, p);
    assert(off(p, 0, 1, 0) == IVec3 { x: p.x, y: (p.y + 1) as i32, z: p.z });
    assert(off(p, 1, 0, 0) == IVec3 { x: (p.x + 1) as i32, y: p.y, z: p.z });
    assert(off(p, -1, 0, 0) == IVec3 { x: (p.x - 1) as i32, y: p.y, z: p.z });
    assert(off(p, 0, 0, 1) == IVec3 { x: p.x, y: p.y, z: (p.z + 1) as i32 });
    assert(off(p, 0, 0, -1) == IVec3 { x: p.x, y: p.y, z: (p.z - 1) as i32 });
}

} // verus!
