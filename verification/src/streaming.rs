use vstd::prelude::*;
use std::collections::{HashMap, HashSet};

use crate::chunk::{CHUNK_BLOCKS, Chunk, ChunkView, encode_blocks, lz4_compressed};
use crate::chunk_cache::{cached_chunks, kept_after_insert};
use crate::coords::IVec2;
use crate::coords::ChunkPos;
use crate::world::{WorldGrid, chunk_key, mesh_requested, spec_chunk_key};

verus! {

broadcast use vstd::std_specs::hash::group_hash_axioms;

/// Chunks kept loaded but not meshed beyond the render distance, by default.
pub const DEFAULT_PREGEN_MARGIN: i32 = 2;

/// Extra distance, past the generation radius, before a chunk is unloaded.
pub const UNLOAD_SLACK: i32 = 2;

/// Most chunks handed out for generation in one frame.
pub const MAX_CHUNK_DISPATCH_PER_FRAME: usize = 12;

/// Most chunks meshed in one frame when the mesh budget is on.
pub const MAX_MESHES_PER_FRAME: usize = 6;

pub open spec fn abs_i(v: int) -> int {
    if v < 0 { -v } else { v }
}

/// A chunk lies within `r` chunks of `center` along both axes.
pub open spec fn within(c: IVec2, center: IVec2, r: int) -> bool {
    abs_i(c.x - center.x) <= r && abs_i(c.y - center.y) <= r
}

/// The squared distance between two chunk coordinates.
pub open spec fn dist_sq(c: IVec2, center: IVec2) -> int {
    (c.x - center.x) * (c.x - center.x) + (c.y - center.y) * (c.y - center.y)
}

/// Row `dx` of the square of radius `r` around `center`, by increasing `z`.
pub open spec fn square_row(center: IVec2, r: int, dx: int) -> Seq<IVec2> {
    Seq::new((2 * r + 1) as nat, |j: int| IVec2 { x: (center.x + dx) as i32, y: (center.y - r + j) as i32 })
}

/// The rows of the square before row `dx`, by increasing `x`.
pub open spec fn rows_before(center: IVec2, r: int, dx: int) -> Seq<IVec2>
    decreases dx + r,
{
    if dx <= -r {
        Seq::empty()
    } else {
        rows_before(center, r, dx - 1) + square_row(center, r, dx - 1)
    }
}

/// All chunk coordinates within `r` of `center`, row by row.
pub open spec fn square(center: IVec2, r: int) -> Seq<IVec2> {
    rows_before(center, r, r + 1)
}

/// The coordinates whose chunks are neither loaded nor being generated.
pub open spec fn unknown_chunks(s: Seq<IVec2>, known: Set<u64>) -> Seq<IVec2> {
    s.filter(|c: IVec2| !known.contains(spec_chunk_key(c)))
}

/// The coordinates at squared distance `d` or less, farthest first and in the order given
/// among equals.
pub open spec fn farthest_first(s: Seq<IVec2>, center: IVec2, d: int) -> Seq<IVec2>
    decreases d + 1,
{
    if d < 0 {
        Seq::empty()
    } else {
        s.filter(|c: IVec2| dist_sq(c, center) == d) + farthest_first(s, center, d - 1)
    }
}

/// No squared distance between two `i32` coordinate pairs reaches this bound.
pub open spec fn dist_bound() -> int {
    0x2_0000_0000_0000_0000
}

/// The sort key that puts far chunks first.
pub fn farness_key(c: &IVec2, center: IVec2) -> (r: i128)
    ensures
        r == -dist_sq(*c, center),
{
    let dx = c.x as i128 - center.x as i128;
    let dz = c.y as i128 - center.y as i128;
    assert(-0x1_0000_0000 < dx < 0x1_0000_0000 && -0x1_0000_0000 < dz < 0x1_0000_0000);
    assert(dx * dx < 0x1_0000_0000_0000_0000 && dz * dz < 0x1_0000_0000_0000_0000) by (nonlinear_arith)
        requires
            -0x1_0000_0000 < dx < 0x1_0000_0000,
            -0x1_0000_0000 < dz < 0x1_0000_0000;
    assert(dx * dx >= 0 && dz * dz >= 0) by (nonlinear_arith);
    -(dx * dx + dz * dz)
}

/// Calls `slice::sort_by_key` with [`farness_key`]. Trusted: std documents the sort as
/// stable, so the result lists the coordinates by decreasing squared distance and keeps
/// the order of the input among equal distances.
#[verifier::external_body]
fn sort_farthest_first(v: &mut Vec<IVec2>, center: IVec2)
    ensures
        final(v)@ == farthest_first(old(v)@, center, dist_bound()),
{
    v.sort_by_key(|c| farness_key(c, center));
}

/// The chunk coordinates within `r` of `center`, by increasing `x`, then `z`: the grid
/// generated around the spawn point, for one.
pub fn square_coords(center: IVec2, r: i32) -> (out: Vec<IVec2>)
    requires
        0 <= r,
        i32::MIN + r <= center.x <= i32::MAX - r,
        i32::MIN + r <= center.y <= i32::MAX - r,
    ensures
        out@ == square(center, r as int),
{
    let ghost g = r as int;
    let mut out: Vec<IVec2> = Vec::new();
    let mut dx: i64 = -(r as i64);
    while dx <= r as i64
        invariant
            0 <= r,
            g == r,
            i32::MIN + r <= center.x <= i32::MAX - r,
            i32::MIN + r <= center.y <= i32::MAX - r,
            -g <= dx <= g + 1,
            out@ == rows_before(center, g, dx as int),
        decreases g + 1 - dx,
    {
        let mut dz: i64 = -(r as i64);
        let ghost row = square_row(center, g, dx as int);
        while dz <= r as i64
            invariant
                0 <= r,
                g == r,
                i32::MIN + r <= center.x <= i32::MAX - r,
                i32::MIN + r <= center.y <= i32::MAX - r,
                -g <= dx <= g,
                -g <= dz <= g + 1,
                row == square_row(center, g, dx as int),
                out@ == rows_before(center, g, dx as int) + row.take(dz + g),
            decreases g + 1 - dz,
        {
            let c = IVec2 { x: (center.x as i64 + dx) as i32, y: (center.y as i64 + dz) as i32 };
            proof {
                assert(row[dz + g] == c);
                assert(row.take(dz + g + 1) == row.take(dz + g).push(c));
            }
            out.push(c);
            dz += 1;
        }
        proof {
            assert(row.take(2 * g + 1) == row);
        }
        dx += 1;
    }
    out
}

/// The chunks to generate around the player: those within the generation radius that
/// are neither loaded nor being generated, farthest first so that the nearest come off
/// the end of the queue first.
pub fn needed_chunks(center: IVec2, gen_dist: i32, loaded: &HashMap<u64, Chunk>, in_progress: &HashSet<u64>) -> (r: Vec<IVec2>)
    requires
        0 <= gen_dist,
        i32::MIN + gen_dist <= center.x <= i32::MAX - gen_dist,
        i32::MIN + gen_dist <= center.y <= i32::MAX - gen_dist,
    ensures
        r@ == farthest_first(
            unknown_chunks(square(center, gen_dist as int), loaded@.dom().union(in_progress@)),
            center,
            dist_bound(),
        ),
{
    let ghost known = loaded@.dom().union(in_progress@);
    let ghost pred = |c: IVec2| !known.contains(spec_chunk_key(c));
    let ghost g = gen_dist as int;
    let mut out: Vec<IVec2> = Vec::new();
    let ghost mut sq: Seq<IVec2> = Seq::empty();
    let mut dx: i64 = -(gen_dist as i64);
    while dx <= gen_dist as i64
        invariant
            0 <= gen_dist,
            g == gen_dist,
            i32::MIN + gen_dist <= center.x <= i32::MAX - gen_dist,
            i32::MIN + gen_dist <= center.y <= i32::MAX - gen_dist,
            -g <= dx <= g + 1,
            sq == rows_before(center, g, dx as int),
            out@ == sq.filter(pred),
            known == loaded@.dom().union(in_progress@),
            pred == (|c: IVec2| !known.contains(spec_chunk_key(c))),
        decreases g + 1 - dx,
    {
        let mut dz: i64 = -(gen_dist as i64);
        let ghost row = square_row(center, g, dx as int);
        while dz <= gen_dist as i64
            invariant
                0 <= gen_dist,
                g == gen_dist,
                i32::MIN + gen_dist <= center.x <= i32::MAX - gen_dist,
                i32::MIN + gen_dist <= center.y <= i32::MAX - gen_dist,
                -g <= dx <= g,
                -g <= dz <= g + 1,
                row == square_row(center, g, dx as int),
                sq == rows_before(center, g, dx as int) + row.take(dz + g),
                out@ == sq.filter(pred),
                known == loaded@.dom().union(in_progress@),
                pred == (|c: IVec2| !known.contains(spec_chunk_key(c))),
            decreases g + 1 - dz,
        {
            let c = IVec2 { x: (center.x as i64 + dx) as i32, y: (center.y as i64 + dz) as i32 };
            proof {
                assert(row[dz + g] == c);
                assert(row.take(dz + g + 1) == row.take(dz + g).push(c));
                assert(rows_before(center, g, dx as int) + row.take(dz + g + 1)
                    == (rows_before(center, g, dx as int) + row.take(dz + g)).push(c));
                sq.lemma_filter_push(c, pred);
                sq = sq.push(c);
            }
            let k = chunk_key(c);
            if !loaded.contains_key(&k) && !in_progress.contains(&k) {
                out.push(c);
            }
            dz += 1;
        }
        proof {
            assert(row.take(2 * g + 1) == row);
        }
        dx += 1;
    }
    sort_farthest_first(&mut out, center);
    out
}

/// What happens to a loaded chunk as the player moves: chunks within the render distance
/// need a mesh; chunks outside it lose theirs; chunks beyond the unload distance leave
/// memory.
#[derive(Clone, Copy, Debug, PartialEq, Eq, Structural)]
pub enum ChunkTier {
    Visible,
    Buffered,
    Unload,
}

pub open spec fn spec_chunk_tier(c: IVec2, center: IVec2, view_dist: int, unload_dist: int) -> ChunkTier {
    if within(c, center, view_dist) {
        ChunkTier::Visible
    } else if within(c, center, unload_dist) {
        ChunkTier::Buffered
    } else {
        ChunkTier::Unload
    }
}

fn abs_diff_within(a: i32, b: i32, r: i32) -> (res: bool)
    ensures
        res == (abs_i(a - b) <= r),
{
    let d = a as i64 - b as i64;
    let ad = if d < 0 { -d } else { d };
    ad <= r as i64
}

/// Whether a chunk lies within `r` chunks of `center` along both axes.
pub fn chunk_within(c: IVec2, center: IVec2, r: i32) -> (res: bool)
    ensures
        res == within(c, center, r as int),
{
    abs_diff_within(c.x, center.x, r) && abs_diff_within(c.y, center.y, r)
}

/// The tier of a loaded chunk.
pub fn chunk_tier(c: IVec2, center: IVec2, view_dist: i32, unload_dist: i32) -> (r: ChunkTier)
    ensures
        r == spec_chunk_tier(c, center, view_dist as int, unload_dist as int),
{
    if chunk_within(c, center, view_dist) {
        ChunkTier::Visible
    } else if chunk_within(c, center, unload_dist) {
        ChunkTier::Buffered
    } else {
        ChunkTier::Unload
    }
}

/// The generation and unload distances for a render distance and a pre-generation margin.
pub fn stream_radii(view_dist: i32, pregen_margin: i32) -> (r: (i32, i32))
    requires
        i32::MIN <= view_dist + pregen_margin,
        view_dist + pregen_margin + UNLOAD_SLACK <= i32::MAX,
    ensures
        r.0 == view_dist + pregen_margin,
        r.1 == view_dist + pregen_margin + UNLOAD_SLACK,
{
    let gen_dist = view_dist + pregen_margin;
    (gen_dist, gen_dist + UNLOAD_SLACK)
}

/// The changes to make to the loaded chunks after the player moved.
pub struct LoadedPlan {
    /// Visible chunks without a mesh.
    pub to_mesh: Vec<IVec2>,
    /// Meshed chunks outside the render distance but still loaded.
    pub to_demesh: Vec<IVec2>,
    /// Chunks beyond the unload distance.
    pub to_unload: Vec<IVec2>,
}

pub open spec fn plan_mesh(loaded: Seq<IVec2>, center: IVec2, view_dist: int, meshed: Set<u64>) -> Seq<IVec2> {
    loaded.filter(|c: IVec2| within(c, center, view_dist) && !meshed.contains(spec_chunk_key(c)))
}

pub open spec fn plan_demesh(loaded: Seq<IVec2>, center: IVec2, view_dist: int, meshed: Set<u64>) -> Seq<IVec2> {
    loaded.filter(|c: IVec2| !within(c, center, view_dist) && meshed.contains(spec_chunk_key(c)))
}

pub open spec fn plan_unload(loaded: Seq<IVec2>, center: IVec2, unload_dist: int) -> Seq<IVec2> {
    loaded.filter(|c: IVec2| !within(c, center, unload_dist))
}

/// Sorts the loaded chunks into those to mesh, to strip of their mesh, and to unload,
/// each in the order given.
pub fn plan_loaded(
    loaded: &Vec<IVec2>,
    center: IVec2,
    view_dist: i32,
    unload_dist: i32,
    meshed: &HashSet<u64>,
) -> (r: LoadedPlan)
    ensures
        r.to_mesh@ == plan_mesh(loaded@, center, view_dist as int, meshed@),
        r.to_demesh@ == plan_demesh(loaded@, center, view_dist as int, meshed@),
        r.to_unload@ == plan_unload(loaded@, center, unload_dist as int),
{
    let ghost pm = |c: IVec2| within(c, center, view_dist as int) && !meshed@.contains(spec_chunk_key(c));
    let ghost pd = |c: IVec2| !within(c, center, view_dist as int) && meshed@.contains(spec_chunk_key(c));
    let ghost pu = |c: IVec2| !within(c, center, unload_dist as int);
    let mut to_mesh: Vec<IVec2> = Vec::new();
    let mut to_demesh: Vec<IVec2> = Vec::new();
    let mut to_unload: Vec<IVec2> = Vec::new();
    let mut i: usize = 0;
    while i < loaded.len()
        invariant
            i <= loaded@.len(),
            pm == (|c: IVec2| within(c, center, view_dist as int) && !meshed@.contains(spec_chunk_key(c))),
            pd == (|c: IVec2| !within(c, center, view_dist as int) && meshed@.contains(spec_chunk_key(c))),
            pu == (|c: IVec2| !within(c, center, unload_dist as int)),
            to_mesh@ == loaded@.take(i as int).filter(pm),
            to_demesh@ == loaded@.take(i as int).filter(pd),
            to_unload@ == loaded@.take(i as int).filter(pu),
        decreases loaded@.len() - i,
    {
        let c = loaded[i];
        proof {
            assert(loaded@.take(i + 1) == loaded@.take(i as int).push(c));
            loaded@.take(i as int).lemma_filter_push(c, pm);
            loaded@.take(i as int).lemma_filter_push(c, pd);
            loaded@.take(i as int).lemma_filter_push(c, pu);
        }
        let visible = chunk_within(c, center, view_dist);
        let has_mesh = meshed.contains(&chunk_key(c));
        if visible {
            if !has_mesh {
                to_mesh.push(c);
            }
        } else if has_mesh {
            to_demesh.push(c);
        }
        if !chunk_within(c, center, unload_dist) {
            to_unload.push(c);
        }
        i += 1;
    }
    proof {
        assert(loaded@.take(loaded@.len() as int) == loaded@);
    }
    LoadedPlan { to_mesh, to_demesh, to_unload }
}

proof fn lemma_dist_nonneg(c: IVec2, center: IVec2)
    ensures
        0 <= dist_sq(c, center),
{
    let dx = c.x - center.x;
    let dz = c.y - center.y;
    assert(dx * dx >= 0 && dz * dz >= 0) by (nonlinear_arith);
}

/// A coordinate is listed farthest-first exactly when it is in the list and no farther
/// than the bound.
proof fn lemma_farthest_first_contains(s: Seq<IVec2>, center: IVec2, d: int, x: IVec2)
    ensures
        farthest_first(s, center, d).contains(x) <==> (s.contains(x) && dist_sq(x, center) <= d),
    decreases d + 1,
{
    broadcast use vstd::seq_lib::group_filter_ensures;
    lemma_dist_nonneg(x, center);
    if d >= 0 {
        let p = |c: IVec2| dist_sq(c, center) == d;
        let head = s.filter(p);
        let rest = farthest_first(s, center, d - 1);
        lemma_farthest_first_contains(s, center, d - 1, x);
        assert(farthest_first(s, center, d) == head + rest);
        if head.contains(x) {
            s.lemma_filter_contains_rev(p, x);
            let i = choose|i: int| 0 <= i < head.len() && head[i] == x;
            assert((head + rest)[i] == x);
        }
        if rest.contains(x) {
            let i = choose|i: int| 0 <= i < rest.len() && rest[i] == x;
            assert((head + rest)[head.len() + i] == x);
        }
        if (head + rest).contains(x) {
            let i = choose|i: int| 0 <= i < (head + rest).len() && (head + rest)[i] == x;
            if i < head.len() {
                assert(head.contains(x));
            } else {
                assert(rest[i - head.len()] == x);
            }
        }
        if s.contains(x) && dist_sq(x, center) == d {
            let i = choose|i: int| 0 <= i < s.len() && s[i] == x;
            s.lemma_filter_contains(p, i);
        }
    }
}

/// A coordinate lies in the square of radius `r` exactly when it is within `r` along both
/// axes (for coordinates whose square fits in `i32`).
proof fn lemma_square_contains(center: IVec2, r: int, dx: int, x: IVec2)
    requires
        0 <= r,
        -r <= dx <= r + 1,
        i32::MIN + r <= center.x <= i32::MAX - r,
        i32::MIN + r <= center.y <= i32::MAX - r,
    ensures
        rows_before(center, r, dx).contains(x) <==> (within(x, center, r) && x.x - center.x < dx),
    decreases dx + r,
{
    if dx > -r {
        lemma_square_contains(center, r, dx - 1, x);
        let a = rows_before(center, r, dx - 1);
        let b = square_row(center, r, dx - 1);
        assert(rows_before(center, r, dx) == a + b);
        if b.contains(x) {
            let j = choose|j: int| 0 <= j < b.len() && b[j] == x;
            assert((a + b)[a.len() + j] == x);
        }
        if a.contains(x) {
            let j = choose|j: int| 0 <= j < a.len() && a[j] == x;
            assert((a + b)[j] == x);
        }
        if (a + b).contains(x) {
            let j = choose|j: int| 0 <= j < (a + b).len() && (a + b)[j] == x;
            if j < a.len() {
                assert(a.contains(x));
            } else {
                assert(b[j - a.len()] == x);
            }
        }
        if within(x, center, r) && x.x - center.x == dx - 1 {
            let j = x.y - center.y + r;
            assert(b[j] == x);
        }
    }
}

/// The chunks to generate are exactly the coordinates within the generation radius whose
/// chunks are neither loaded nor being generated.
pub proof fn lemma_needed_chunks_exact(center: IVec2, gen_dist: int, known: Set<u64>, x: IVec2)
    requires
        0 <= gen_dist,
        i32::MIN + gen_dist <= center.x <= i32::MAX - gen_dist,
        i32::MIN + gen_dist <= center.y <= i32::MAX - gen_dist,
    ensures
        farthest_first(unknown_chunks(square(center, gen_dist), known), center, dist_bound()).contains(x)
            <==> (within(x, center, gen_dist) && !known.contains(spec_chunk_key(x))),
{
    broadcast use vstd::seq_lib::group_filter_ensures;
    let sq = square(center, gen_dist);
    let p = |c: IVec2| !known.contains(spec_chunk_key(c));
    let u = unknown_chunks(sq, known);
    lemma_farthest_first_contains(u, center, dist_bound(), x);
    lemma_square_contains(center, gen_dist, gen_dist + 1, x);
    if u.contains(x) {
        sq.lemma_filter_contains_rev(p, x);
    }
    if sq.contains(x) && p(x) {
        let i = choose|i: int| 0 <= i < sq.len() && sq[i] == x;
        sq.lemma_filter_contains(p, i);
    }
    let dx = x.x - center.x;
    let dz = x.y - center.y;
    assert(dist_sq(x, center) < dist_bound()) by (nonlinear_arith)
        requires
            dist_sq(x, center) == dx * dx + dz * dz,
            -0x1_0000_0000 < dx < 0x1_0000_0000,
            -0x1_0000_0000 < dz < 0x1_0000_0000,
            dist_bound() == 0x2_0000_0000_0000_0000;
}

/// With the unload distance at least the render distance, no chunk is both meshed and
/// unloaded, and no chunk is both meshed and stripped of its mesh.
pub proof fn lemma_plan_disjoint(loaded: Seq<IVec2>, center: IVec2, view_dist: int, unload_dist: int, meshed: Set<u64>, x: IVec2)
    requires
        view_dist <= unload_dist,
    ensures
        !(plan_mesh(loaded, center, view_dist, meshed).contains(x) && plan_unload(loaded, center, unload_dist).contains(x)),
        !(plan_mesh(loaded, center, view_dist, meshed).contains(x) && plan_demesh(loaded, center, view_dist, meshed).contains(x)),
{
    broadcast use vstd::seq_lib::group_filter_ensures;
    let pm = |c: IVec2| within(c, center, view_dist) && !meshed.contains(spec_chunk_key(c));
    let pd = |c: IVec2| !within(c, center, view_dist) && meshed.contains(spec_chunk_key(c));
    let pu = |c: IVec2| !within(c, center, unload_dist);
    if plan_mesh(loaded, center, view_dist, meshed).contains(x) {
        let i = choose|i: int| 0 <= i < loaded.filter(pm).len() && loaded.filter(pm)[i] == x;
        assert(pm(loaded.filter(pm)[i]));
        if plan_unload(loaded, center, unload_dist).contains(x) {
            let j = choose|j: int| 0 <= j < loaded.filter(pu).len() && loaded.filter(pu)[j] == x;
            assert(pu(loaded.filter(pu)[j]));
        }
        if plan_demesh(loaded, center, view_dist, meshed).contains(x) {
            let j = choose|j: int| 0 <= j < loaded.filter(pd).len() && loaded.filter(pd)[j] == x;
            assert(pd(loaded.filter(pd)[j]));
        }
    }
}

/// The mesh requests after a request for `c` when `cond` holds.
pub open spec fn request_if(q: (Set<u64>, Seq<IVec2>), c: IVec2, cond: bool) -> (Set<u64>, Seq<IVec2>) {
    if cond {
        mesh_requested(q.0, q.1, c)
    } else {
        q
    }
}

/// A side neighbour that is within the render distance and already has a mesh: its seam
/// with a chunk that just arrived must be redrawn.
pub open spec fn needs_seam(n: IVec2, center: IVec2, view_dist: int, meshed: Set<u64>) -> bool {
    within(n, center, view_dist) && meshed.contains(spec_chunk_key(n))
}

/// The mesh requests after chunk `c` arrived: `c` itself when it is within the render
/// distance, then the neighbours at `x - 1`, `x + 1`, `z - 1` and `z + 1` whose seams need
/// redrawing.
pub open spec fn arrival_requests(q: (Set<u64>, Seq<IVec2>), c: IVec2, center: IVec2, view_dist: int, meshed: Set<u64>) -> (Set<u64>, Seq<IVec2>) {
    let w = IVec2 { x: (c.x - 1) as i32, y: c.y };
    let e = IVec2 { x: (c.x + 1) as i32, y: c.y };
    let s = IVec2 { x: c.x, y: (c.y - 1) as i32 };
    let n = IVec2 { x: c.x, y: (c.y + 1) as i32 };
    let q1 = request_if(q, c, within(c, center, view_dist));
    let q2 = request_if(q1, w, needs_seam(w, center, view_dist, meshed));
    let q3 = request_if(q2, e, needs_seam(e, center, view_dist, meshed));
    let q4 = request_if(q3, s, needs_seam(s, center, view_dist, meshed));
    request_if(q4, n, needs_seam(n, center, view_dist, meshed))
}

/// What handing out chunks for generation works on: the generation queue, the chunks in
/// progress, the loaded chunks, the mesh requests, and the chunks handed out so far.
pub struct DispatchState {
    pub queue: Seq<IVec2>,
    pub in_progress: Set<u64>,
    pub chunks: Map<u64, ChunkView>,
    pub requests: (Set<u64>, Seq<IVec2>),
    pub out: Seq<IVec2>,
}

/// One chunk off the end of the queue: skipped when loaded or in progress; taken back from
/// the cache of unloaded chunks when the cache still holds it whole (with a mesh request
/// when it is within the render distance); otherwise handed out for generation.
pub open spec fn dispatch_step(st: DispatchState, cache: Map<u64, ChunkView>, center: IVec2, view_dist: int) -> DispatchState {
    let c = st.queue.last();
    let k = spec_chunk_key(c);
    let rest = st.queue.drop_last();
    if st.chunks.contains_key(k) || st.in_progress.contains(k) {
        DispatchState { queue: rest, ..st }
    } else if cache.contains_key(k) && cache[k].wf() {
        DispatchState {
            queue: rest,
            chunks: st.chunks.insert(k, cache[k]),
            requests: request_if(st.requests, c, within(c, center, view_dist)),
            ..st
        }
    } else {
        DispatchState { queue: rest, in_progress: st.in_progress.insert(k), out: st.out.push(c), ..st }
    }
}

/// Steps until the queue is empty or `budget` chunks are handed out.
pub open spec fn dispatch_run(st: DispatchState, cache: Map<u64, ChunkView>, center: IVec2, view_dist: int, budget: int) -> DispatchState
    decreases st.queue.len(),
{
    if st.queue.len() == 0 || st.out.len() >= budget {
        st
    } else {
        dispatch_run(dispatch_step(st, cache, center, view_dist), cache, center, view_dist, budget)
    }
}

/// No chunk is both loaded and being generated.
pub open spec fn loading_disjoint(chunks: Map<u64, ChunkView>, in_progress: Set<u64>) -> bool {
    forall|k: u64| !(chunks.contains_key(k) && #[trigger] in_progress.contains(k))
}

/// Handing out chunks for generation keeps loaded chunks and chunks in progress apart,
/// and hands out each chunk once: every chunk handed out is then in progress, none was
/// loaded or in progress before, and none comes twice.
pub proof fn lemma_dispatch_disjoint(st: DispatchState, cache: Map<u64, ChunkView>, center: IVec2, view_dist: int, budget: int)
    requires
        loading_disjoint(st.chunks, st.in_progress),
    ensures
        ({
            let r = dispatch_run(st, cache, center, view_dist, budget);
            &&& loading_disjoint(r.chunks, r.in_progress)
            &&& st.in_progress.subset_of(r.in_progress)
            &&& st.chunks.dom().subset_of(r.chunks.dom())
            &&& r.out.len() >= st.out.len()
            &&& r.out.take(st.out.len() as int) == st.out
            &&& forall|i: int, j: int| st.out.len() <= i < j < r.out.len() ==> r.out[i] != r.out[j]
            &&& forall|i: int| st.out.len() <= i < r.out.len() ==> {
                let k = spec_chunk_key(#[trigger] r.out[i]);
                &&& r.in_progress.contains(k)
                &&& !st.in_progress.contains(k)
                &&& !st.chunks.contains_key(k)
            }
        }),
    decreases st.queue.len(),
{
    if !(st.queue.len() == 0 || st.out.len() >= budget) {
        let st2 = dispatch_step(st, cache, center, view_dist);
        lemma_dispatch_disjoint(st2, cache, center, view_dist, budget);
        let r = dispatch_run(st2, cache, center, view_dist, budget);
        let c = st.queue.last();
        let k = spec_chunk_key(c);
        assert(loading_disjoint(st2.chunks, st2.in_progress));
        assert(st2.out.take(st.out.len() as int) == st.out);
        assert(r.out.take(st.out.len() as int) == st.out) by {
            assert(r.out.take(st2.out.len() as int) == st2.out);
        }
        assert forall|i: int| st.out.len() <= i < r.out.len() implies {
            let k2 = spec_chunk_key(#[trigger] r.out[i]);
            &&& r.in_progress.contains(k2)
            &&& !st.in_progress.contains(k2)
            &&& !st.chunks.contains_key(k2)
        } by {
            if i < st2.out.len() {
                assert(r.out[i] == st2.out[i]);
                assert(st2.out[i] == c);
                assert(st2.in_progress.contains(k));
            } else {
                let k2 = spec_chunk_key(r.out[i]);
                assert(!st2.in_progress.contains(k2));
                assert(!st2.chunks.contains_key(k2));
            }
        }
        assert forall|i: int, j: int| st.out.len() <= i < j < r.out.len() implies r.out[i] != r.out[j] by {
            if i < st2.out.len() {
                assert(r.out[i] == st2.out[i]);
                assert(st2.out[i] == c);
                assert(st2.in_progress.contains(k));
                let kj = spec_chunk_key(r.out[j]);
                assert(!st2.in_progress.contains(kj));
            }
        }
    }
}

/// What taking chunks off the mesh queue works on: the queue, the chunks queued, the
/// chunks whose meshes are being built, and the chunks taken so far.
pub struct MeshBatchState {
    pub queue: Seq<IVec2>,
    pub queued: Set<u64>,
    pub in_progress: Set<u64>,
    pub out: Seq<IVec2>,
}

/// One chunk off the end of the mesh queue: it is no longer queued; it is taken when it is
/// loaded, within the render distance and (when meshes are built in the background) not
/// already being meshed, and then marked as being meshed.
pub open spec fn mesh_step(st: MeshBatchState, loaded: Set<u64>, center: IVec2, view_dist: int, background: bool) -> MeshBatchState {
    let c = st.queue.last();
    let k = spec_chunk_key(c);
    let st1 = MeshBatchState { queue: st.queue.drop_last(), queued: st.queued.remove(k), ..st };
    if loaded.contains(k) && within(c, center, view_dist) && !(background && st.in_progress.contains(k)) {
        MeshBatchState {
            in_progress: if background { st.in_progress.insert(k) } else { st.in_progress },
            out: st.out.push(c),
            ..st1
        }
    } else {
        st1
    }
}

/// Steps until the queue is empty or `budget` chunks are taken.
pub open spec fn mesh_run(st: MeshBatchState, loaded: Set<u64>, center: IVec2, view_dist: int, background: bool, budget: int) -> MeshBatchState
    decreases st.queue.len(),
{
    if st.queue.len() == 0 || st.out.len() >= budget {
        st
    } else {
        mesh_run(mesh_step(st, loaded, center, view_dist, background), loaded, center, view_dist, background, budget)
    }
}

impl WorldGrid {
    /// After the player entered chunk `center` (or the distances changed): remembers the
    /// player's chunk and queues anew the chunks to generate, those within `gen_dist` that
    /// are neither loaded nor being generated, farthest first so that the nearest come off
    /// the end of the queue first.
    pub fn replan_generation(&mut self, center: IVec2, gen_dist: i32)
        requires
            0 <= gen_dist,
            i32::MIN + gen_dist <= center.x <= i32::MAX - gen_dist,
            i32::MIN + gen_dist <= center.y <= i32::MAX - gen_dist,
        ensures
            final(self).generation_queue@ == farthest_first(
                unknown_chunks(square(center, gen_dist as int), old(self).chunks@.dom().union(old(self).in_progress_chunks@)),
                center,
                dist_bound(),
            ),
            final(self).last_player_chunk == center,
            final(self).chunks == old(self).chunks,
            final(self).modified_chunks == old(self).modified_chunks,
            final(self).dirty_chunks == old(self).dirty_chunks,
            final(self).queued_for_mesh == old(self).queued_for_mesh,
            final(self).mesh_queue == old(self).mesh_queue,
            final(self).seed == old(self).seed,
            final(self).in_progress_chunks == old(self).in_progress_chunks,
            final(self).in_progress_meshes == old(self).in_progress_meshes,
            final(self).chunk_cache == old(self).chunk_cache,
    {
        self.last_player_chunk = center;
        self.generation_queue = needed_chunks(center, gen_dist, &self.chunks, &self.in_progress_chunks);
    }

    /// Unloads the chunk at `coord`: it leaves the loaded chunks and the mesh requests and
    /// goes into the cache of recently unloaded chunks. When the player changed it since it
    /// was loaded or last saved, its compressed bytes are returned for saving.
    pub fn unload_chunk(&mut self, coord: IVec2) -> (save: Option<Vec<u8>>)
        requires
            old(self).wf(),
        ensures
            ({
                let k = spec_chunk_key(coord);
                let loaded = old(self).chunks@.contains_key(k);
                &&& final(self).chunks@ == old(self).chunks@.remove(k)
                &&& final(self).dirty_chunks@ == old(self).dirty_chunks@.remove(k)
                &&& final(self).queued_for_mesh@ == old(self).queued_for_mesh@.remove(k)
                &&& final(self).in_progress_meshes@ == old(self).in_progress_meshes@.remove(k)
                &&& save is Some <==> loaded && (old(self).dirty_chunks@.contains(k) || old(self).modified_chunks@.contains(k))
                &&& save matches Some(b) ==> b@ == lz4_compressed(encode_blocks(old(self).chunks@[k].blocks@))
                &&& if loaded {
                    kept_after_insert(cached_chunks(old(self).chunk_cache), cached_chunks(final(self).chunk_cache), k, old(self).chunks@[k]@)
                } else {
                    final(self).chunk_cache == old(self).chunk_cache
                }
            }),
            final(self).modified_chunks == old(self).modified_chunks,
            final(self).mesh_queue == old(self).mesh_queue,
            final(self).last_player_chunk == old(self).last_player_chunk,
            final(self).seed == old(self).seed,
            final(self).generation_queue == old(self).generation_queue,
            final(self).in_progress_chunks == old(self).in_progress_chunks,
            loading_disjoint(old(self).view().chunks, old(self).in_progress_chunks@)
                ==> loading_disjoint(final(self).view().chunks, final(self).in_progress_chunks@),
            final(self).wf(),
    {
        let k = chunk_key(coord);
        self.queued_for_mesh.remove(&k);
        self.in_progress_meshes.remove(&k);
        let was_dirty = self.dirty_chunks.remove(&k);
        let needs_save = was_dirty || self.modified_chunks.contains(&k);
        match self.chunks.remove(&k) {
            Some(chunk) => {
                proof {
                    assert(old(self).view().chunks.contains_key(k));
                }
                let save = if needs_save {
                    Some(chunk.to_compressed_bytes())
                } else {
                    None
                };
                self.chunk_cache.insert(k, chunk);
                proof {
                    assert(self.view().chunks == old(self).view().chunks.remove(k));
                }
                save
            },
            None => {
                proof {
                    assert(self.view().chunks == old(self).view().chunks);
                }
                None
            },
        }
    }

    /// Requests a mesh for `c` when `cond` holds.
    fn request_mesh_if(&mut self, c: IVec2, cond: bool)
        ensures
            (final(self).queued_for_mesh@, final(self).mesh_queue@) == request_if(
                (old(self).queued_for_mesh@, old(self).mesh_queue@),
                c,
                cond,
            ),
            final(self).chunks == old(self).chunks,
            final(self).modified_chunks == old(self).modified_chunks,
            final(self).dirty_chunks == old(self).dirty_chunks,
            final(self).last_player_chunk == old(self).last_player_chunk,
            final(self).seed == old(self).seed,
            final(self).generation_queue == old(self).generation_queue,
            final(self).in_progress_chunks == old(self).in_progress_chunks,
            final(self).in_progress_meshes == old(self).in_progress_meshes,
            final(self).chunk_cache == old(self).chunk_cache,
    {
        if cond {
            self.queue_mesh(ChunkPos(c));
        }
    }

    /// Takes in a chunk that finished generating (or was read from disk, `from_disk`) at
    /// `coord`: it is no longer in progress; when the player has meanwhile gone beyond the
    /// unload distance it is dropped; otherwise it is loaded (marked as changed when it came
    /// from disk, so that it is saved again) and meshes are requested for it and for the
    /// meshed neighbours whose seams it changes. `meshed` holds the chunks with a mesh.
    pub fn accept_generated(
        &mut self,
        coord: IVec2,
        chunk: Chunk,
        from_disk: bool,
        center: IVec2,
        view_dist: i32,
        unload_dist: i32,
        meshed: &HashSet<u64>,
    )
        requires
            old(self).wf(),
            chunk.wf(),
            i32::MIN < coord.x < i32::MAX,
            i32::MIN < coord.y < i32::MAX,
        ensures
            ({
                let k = spec_chunk_key(coord);
                if within(coord, center, unload_dist as int) {
                    &&& final(self).chunks@ == old(self).chunks@.insert(k, chunk)
                    &&& final(self).modified_chunks@ == if from_disk {
                        old(self).modified_chunks@.insert(k)
                    } else {
                        old(self).modified_chunks@
                    }
                    &&& (final(self).queued_for_mesh@, final(self).mesh_queue@) == arrival_requests(
                        (old(self).queued_for_mesh@, old(self).mesh_queue@),
                        coord,
                        center,
                        view_dist as int,
                        meshed@,
                    )
                } else {
                    &&& final(self).chunks == old(self).chunks
                    &&& final(self).modified_chunks == old(self).modified_chunks
                    &&& final(self).queued_for_mesh == old(self).queued_for_mesh
                    &&& final(self).mesh_queue == old(self).mesh_queue
                }
            }),
            final(self).in_progress_chunks@ == old(self).in_progress_chunks@.remove(spec_chunk_key(coord)),
            loading_disjoint(old(self).view().chunks, old(self).in_progress_chunks@)
                ==> loading_disjoint(final(self).view().chunks, final(self).in_progress_chunks@),
            final(self).dirty_chunks == old(self).dirty_chunks,
            final(self).last_player_chunk == old(self).last_player_chunk,
            final(self).seed == old(self).seed,
            final(self).generation_queue == old(self).generation_queue,
            final(self).in_progress_meshes == old(self).in_progress_meshes,
            final(self).chunk_cache == old(self).chunk_cache,
            final(self).wf(),
    {
        let k = chunk_key(coord);
        self.in_progress_chunks.remove(&k);
        if !chunk_within(coord, center, unload_dist) {
            return;
        }
        if from_disk {
            self.modified_chunks.insert(k);
        }
        let ghost before = self.view().chunks;
        self.chunks.insert(k, chunk);
        proof {
            assert(self.view().chunks == before.insert(k, chunk@));
        }
        let w = IVec2 { x: coord.x - 1, y: coord.y };
        let e = IVec2 { x: coord.x + 1, y: coord.y };
        let s = IVec2 { x: coord.x, y: coord.y - 1 };
        let n = IVec2 { x: coord.x, y: coord.y + 1 };
        let visible = chunk_within(coord, center, view_dist);
        self.request_mesh_if(coord, visible);
        let seam_w = chunk_within(w, center, view_dist) && meshed.contains(&chunk_key(w));
        self.request_mesh_if(w, seam_w);
        let seam_e = chunk_within(e, center, view_dist) && meshed.contains(&chunk_key(e));
        self.request_mesh_if(e, seam_e);
        let seam_s = chunk_within(s, center, view_dist) && meshed.contains(&chunk_key(s));
        self.request_mesh_if(s, seam_s);
        let seam_n = chunk_within(n, center, view_dist) && meshed.contains(&chunk_key(n));
        self.request_mesh_if(n, seam_n);
    }


    /// The state of the generation queue, as [`dispatch_run`] sees it.
    pub open spec fn dispatch_state(&self, out: Seq<IVec2>) -> DispatchState {
        DispatchState {
            queue: self.generation_queue@,
            in_progress: self.in_progress_chunks@,
            chunks: self.view().chunks,
            requests: (self.queued_for_mesh@, self.mesh_queue@),
            out,
        }
    }

    /// Hands out up to `budget` chunks for generation, nearest first, from the end of the
    /// generation queue; on the way chunks already loaded or in progress are skipped, and
    /// chunks the cache of unloaded chunks still holds are loaded from it. The chunks handed
    /// out are marked in progress and returned, to be generated.
    pub fn dispatch_generation(&mut self, center: IVec2, view_dist: i32, budget: usize) -> (to_generate: Vec<IVec2>)
        requires
            old(self).wf(),
        ensures
            ({
                let st = dispatch_run(
                    old(self).dispatch_state(Seq::empty()),
                    cached_chunks(old(self).chunk_cache),
                    center,
                    view_dist as int,
                    budget as int,
                );
                final(self).dispatch_state(to_generate@) == st
            }),
            final(self).modified_chunks == old(self).modified_chunks,
            final(self).dirty_chunks == old(self).dirty_chunks,
            final(self).last_player_chunk == old(self).last_player_chunk,
            final(self).seed == old(self).seed,
            final(self).in_progress_meshes == old(self).in_progress_meshes,
            final(self).chunk_cache == old(self).chunk_cache,
            loading_disjoint(old(self).view().chunks, old(self).in_progress_chunks@)
                ==> loading_disjoint(final(self).view().chunks, final(self).in_progress_chunks@),
            final(self).wf(),
    {
        proof {
            if loading_disjoint(self.view().chunks, self.in_progress_chunks@) {
                lemma_dispatch_disjoint(
                    self.dispatch_state(Seq::empty()),
                    cached_chunks(self.chunk_cache),
                    center,
                    view_dist as int,
                    budget as int,
                );
            }
        }
        let ghost cache = cached_chunks(self.chunk_cache);
        let ghost target = dispatch_run(self.dispatch_state(Seq::empty()), cache, center, view_dist as int, budget as int);
        let mut out: Vec<IVec2> = Vec::new();
        while out.len() < budget && self.generation_queue.len() > 0
            invariant
                self.wf(),
                cache == cached_chunks(self.chunk_cache),
                dispatch_run(self.dispatch_state(out@), cache, center, view_dist as int, budget as int) == target,
                self.modified_chunks == old(self).modified_chunks,
                self.dirty_chunks == old(self).dirty_chunks,
                self.last_player_chunk == old(self).last_player_chunk,
                self.seed == old(self).seed,
                self.in_progress_meshes == old(self).in_progress_meshes,
                self.chunk_cache == old(self).chunk_cache,
            decreases self.generation_queue@.len(),
        {
            let ghost st = self.dispatch_state(out@);
            let c = self.generation_queue.pop().unwrap();
            let k = chunk_key(c);
            if self.chunks.contains_key(&k) || self.in_progress_chunks.contains(&k) {
                proof {
                    assert(st.chunks.contains_key(k) == self.chunks@.contains_key(k));
                    assert(self.dispatch_state(out@) == dispatch_step(st, cache, center, view_dist as int));
                }
                continue;
            }
            let cached = self.chunk_cache.get(k);
            let mut taken = false;
            if let Some(ch) = cached {
                if ch.blocks.len() == CHUNK_BLOCKS {
                    let ghost before = self.view().chunks;
                    self.chunks.insert(k, ch);
                    proof {
                        assert(self.view().chunks == before.insert(k, cache[k]));
                    }
                    let visible = chunk_within(c, center, view_dist);
                    self.request_mesh_if(c, visible);
                    taken = true;
                }
            }
            if !taken {
                self.in_progress_chunks.insert(k);
                out.push(c);
            }
            proof {
                assert(self.dispatch_state(out@) == dispatch_step(st, cache, center, view_dist as int));
            }
        }
        proof {
            assert(dispatch_run(self.dispatch_state(out@), cache, center, view_dist as int, budget as int) == self.dispatch_state(out@));
        }
        out
    }


    /// The state of the mesh queue, as [`mesh_run`] sees it.
    pub open spec fn mesh_batch_state(&self, out: Seq<IVec2>) -> MeshBatchState {
        MeshBatchState {
            queue: self.mesh_queue@,
            queued: self.queued_for_mesh@,
            in_progress: self.in_progress_meshes@,
            out,
        }
    }

    /// Stops meshing a chunk that left the render distance: it is neither queued nor
    /// being meshed any more.
    pub fn demesh_chunk(&mut self, coord: IVec2)
        ensures
            final(self).queued_for_mesh@ == old(self).queued_for_mesh@.remove(spec_chunk_key(coord)),
            final(self).in_progress_meshes@ == old(self).in_progress_meshes@.remove(spec_chunk_key(coord)),
            final(self).chunks == old(self).chunks,
            final(self).modified_chunks == old(self).modified_chunks,
            final(self).dirty_chunks == old(self).dirty_chunks,
            final(self).mesh_queue == old(self).mesh_queue,
            final(self).last_player_chunk == old(self).last_player_chunk,
            final(self).seed == old(self).seed,
            final(self).generation_queue == old(self).generation_queue,
            final(self).in_progress_chunks == old(self).in_progress_chunks,
            final(self).chunk_cache == old(self).chunk_cache,
    {
        let k = chunk_key(coord);
        self.queued_for_mesh.remove(&k);
        self.in_progress_meshes.remove(&k);
    }

    /// Takes up to `budget` chunks off the end of the mesh queue to mesh now. Each chunk
    /// taken off leaves the queued set; chunks no longer loaded or outside the render
    /// distance are dropped, and when meshes are built in the background (`background`)
    /// chunks whose mesh is still being built are passed over and the chunks taken are
    /// marked as being meshed. Returns the chunks to mesh, in the order taken.
    pub fn take_mesh_batch(&mut self, center: IVec2, view_dist: i32, budget: usize, background: bool) -> (batch: Vec<IVec2>)
        ensures
            final(self).mesh_batch_state(batch@) == mesh_run(
                old(self).mesh_batch_state(Seq::empty()),
                old(self).chunks@.dom(),
                center,
                view_dist as int,
                background,
                budget as int,
            ),
            final(self).chunks == old(self).chunks,
            final(self).modified_chunks == old(self).modified_chunks,
            final(self).dirty_chunks == old(self).dirty_chunks,
            final(self).last_player_chunk == old(self).last_player_chunk,
            final(self).seed == old(self).seed,
            final(self).generation_queue == old(self).generation_queue,
            final(self).in_progress_chunks == old(self).in_progress_chunks,
            final(self).chunk_cache == old(self).chunk_cache,
    {
        let ghost loaded = self.chunks@.dom();
        let ghost target = mesh_run(self.mesh_batch_state(Seq::empty()), loaded, center, view_dist as int, background, budget as int);
        let mut out: Vec<IVec2> = Vec::new();
        while out.len() < budget && self.mesh_queue.len() > 0
            invariant
                loaded == self.chunks@.dom(),
                mesh_run(self.mesh_batch_state(out@), loaded, center, view_dist as int, background, budget as int) == target,
                self.chunks == old(self).chunks,
                self.modified_chunks == old(self).modified_chunks,
                self.dirty_chunks == old(self).dirty_chunks,
                self.last_player_chunk == old(self).last_player_chunk,
                self.seed == old(self).seed,
                self.generation_queue == old(self).generation_queue,
                self.in_progress_chunks == old(self).in_progress_chunks,
                self.chunk_cache == old(self).chunk_cache,
            decreases self.mesh_queue@.len(),
        {
            let ghost st = self.mesh_batch_state(out@);
            let c = self.mesh_queue.pop().unwrap();
            let k = chunk_key(c);
            self.queued_for_mesh.remove(&k);
            if self.chunks.contains_key(&k) && chunk_within(c, center, view_dist)
                && !(background && self.in_progress_meshes.contains(&k)) {
                if background {
                    self.in_progress_meshes.insert(k);
                }
                out.push(c);
            }
            proof {
                assert(self.mesh_batch_state(out@) == mesh_step(st, loaded, center, view_dist as int, background));
            }
        }
        proof {
            assert(mesh_run(self.mesh_batch_state(out@), loaded, center, view_dist as int, background, budget as int) == self.mesh_batch_state(out@));
        }
        out
    }

    /// A mesh built in the background is done: the chunk is no longer being meshed.
    /// Returns whether the chunk is still loaded, that is, whether the mesh is to be shown.
    pub fn finish_mesh(&mut self, coord: IVec2) -> (show: bool)
        ensures
            final(self).in_progress_meshes@ == old(self).in_progress_meshes@.remove(spec_chunk_key(coord)),
            show == old(self).chunks@.contains_key(spec_chunk_key(coord)),
            final(self).chunks == old(self).chunks,
            final(self).modified_chunks == old(self).modified_chunks,
            final(self).dirty_chunks == old(self).dirty_chunks,
            final(self).queued_for_mesh == old(self).queued_for_mesh,
            final(self).mesh_queue == old(self).mesh_queue,
            final(self).last_player_chunk == old(self).last_player_chunk,
            final(self).seed == old(self).seed,
            final(self).generation_queue == old(self).generation_queue,
            final(self).in_progress_chunks == old(self).in_progress_chunks,
            final(self).chunk_cache == old(self).chunk_cache,
    {
        let k = chunk_key(coord);
        self.in_progress_meshes.remove(&k);
        self.chunks.contains_key(&k)
    }

}

} // verus!
