use vstd::prelude::*;

use crate::block::{BlockFace, BlockType};
use crate::chunk::Chunk;
use crate::coords::local_index;
use crate::mesher::helpers::{can_merge_blocks, should_render_face, spec_should_render_face};

verus! {

/// A rectangle of equal faces in a 16-cell-wide face mask: the cells `u..u + w` of the rows
/// `v..v + h`, all showing `block`.
#[derive(Clone, Copy, Debug, PartialEq, Eq, Structural)]
pub struct MaskRect {
    pub u: usize,
    pub v: usize,
    pub w: usize,
    pub h: usize,
    pub block: BlockType,
}

/// The cell `(u, v)` of a face mask stored row by row, 16 cells per row.
pub open spec fn cell(m: Seq<Option<BlockType>>, u: int, v: int) -> Option<BlockType> {
    m[v * 16 + u]
}

/// How far a run of `b` cells starting at `(u, v)` reaches along the row, given that its
/// first `k` cells are known to match.
pub open spec fn run_width(m: Seq<Option<BlockType>>, u: int, v: int, b: BlockType, k: int) -> int
    decreases 16 - u - k,
{
    if u + k < 16 && cell(m, u + k, v) == Some(b) {
        run_width(m, u, v, b, k + 1)
    } else {
        k
    }
}

/// The cell `k` places right of `(u, v)`.
pub open spec fn row_cell(m: Seq<Option<BlockType>>, u: int, v: int, k: int) -> Option<BlockType> {
    cell(m, u + k, v)
}

/// Cells `u..u + w` of row `v` all show `b`.
pub open spec fn row_full(m: Seq<Option<BlockType>>, u: int, v: int, w: int, b: BlockType) -> bool {
    forall|k: int| 0 <= k < w ==> #[trigger] row_cell(m, u, v, k) == Some(b)
}

/// How many rows, from row `v` on, hold the run `u..u + w` of `b` cells, given that the
/// first `h` are known to.
pub open spec fn run_height(
    m: Seq<Option<BlockType>>,
    rows: int,
    u: int,
    v: int,
    w: int,
    b: BlockType,
    h: int,
) -> int
    decreases rows - v - h,
{
    if v + h < rows && row_full(m, u, v + h, w, b) {
        run_height(m, rows, u, v, w, b, h + 1)
    } else {
        h
    }
}

/// Whether mask position `i` lies in the rectangle `u..u + w` x `v..v + h`.
pub open spec fn in_rect(i: int, u: int, v: int, w: int, h: int) -> bool {
    u <= i % 16 < u + w && v <= i / 16 < v + h
}

/// The mask with a rectangle emptied.
pub open spec fn cleared(m: Seq<Option<BlockType>>, u: int, v: int, w: int, h: int) -> Seq<Option<BlockType>> {
    Seq::new(m.len(), |i: int| if in_rect(i, u, v, w, h) { None } else { m[i] })
}

/// Greedy merging of a face mask from position `p` on, in row-major order: at each
/// occupied cell, the run along the row is as wide as equal cells allow, then grows over as
/// many following rows as hold the whole run; the rectangle is emptied and the scan goes on.
pub open spec fn scan(m: Seq<Option<BlockType>>, rows: int, p: int) -> Seq<MaskRect>
    decreases m.len() - p,
{
    if p < 0 || p >= m.len() {
        Seq::empty()
    } else {
        let u = p % 16;
        let v = p / 16;
        match m[p] {
            Some(b) => {
                let w = run_width(m, u, v, b, 1);
                let h = run_height(m, rows, u, v, w, b, 1);
                seq![MaskRect { u: u as usize, v: v as usize, w: w as usize, h: h as usize, block: b }]
                    + scan(cleared(m, u, v, w, h), rows, p + 1)
            },
            None => scan(m, rows, p + 1),
        }
    }
}

fn shows(c: Option<BlockType>, b: BlockType) -> (r: bool)
    ensures
        r == (c == Some(b)),
{
    match c {
        Some(x) => can_merge_blocks(b, x),
        None => false,
    }
}

fn row_matches(mask: &Vec<Option<BlockType>>, u: usize, v: usize, w: usize, b: BlockType) -> (r: bool)
    requires
        u + w <= 16,
        v < 128,
        (v + 1) * 16 <= mask@.len(),
    ensures
        r == row_full(mask@, u as int, v as int, w as int, b),
{
    let mut k: usize = 0;
    while k < w
        invariant
            k <= w,
            u + w <= 16,
            v < 128,
            (v + 1) * 16 <= mask@.len(),
            forall|j: int| 0 <= j < k ==> #[trigger] row_cell(mask@, u as int, v as int, j) == Some(b),
        decreases w - k,
    {
        if !shows(mask[v * 16 + u + k], b) {
            assert(row_cell(mask@, u as int, v as int, k as int) != Some(b));
            return false;
        }
        k += 1;
    }
    true
}

/// Splits the occupied cells of a face mask of `rows` rows into rectangles of equal faces,
/// greedily in row-major order, appending them to `out`; the mask is emptied.
pub fn greedy_merge(mask: &mut Vec<Option<BlockType>>, rows: usize, out: &mut Vec<MaskRect>)
    requires
        old(mask)@.len() == 16 * rows,
        rows <= 128,
    ensures
        final(out)@ == old(out)@ + scan(old(mask)@, rows as int, 0),
        final(mask)@.len() == old(mask)@.len(),
{
    let ghost m0 = mask@;
    let n = mask.len();
    let mut p: usize = 0;
    while p < n
        invariant
            n == mask@.len(),
            n == 16 * rows,
            rows <= 128,
            p <= n,
            old(out)@ + scan(m0, rows as int, 0) == out@ + scan(mask@, rows as int, p as int),
        decreases n - p,
    {
        let u = p % 16;
        let v = p / 16;
        match mask[p] {
            Some(b) => {
                let ghost mb = mask@;
                let mut w: usize = 1;
                while u + w < 16 && shows(mask[p + w], b)
                    invariant
                        mask@ == mb,
                        n == mask@.len(),
                        n == 16 * rows,
                        p < n,
                        u == p % 16,
                        v == p / 16,
                        1 <= w,
                        u + w <= 16,
                        run_width(mb, u as int, v as int, b, 1) == run_width(mb, u as int, v as int, b, w as int),
                    decreases 16 - w,
                {
                    w += 1;
                }
                assert(p == v * 16 + u);
                assert(run_width(mb, u as int, v as int, b, w as int) == w);
                let mut h: usize = 1;
                loop
                    invariant
                        mask@ == mb,
                        n == mask@.len(),
                        n == 16 * rows,
                        p < n,
                        u == p % 16,
                        v == p / 16,
                        u + w <= 16,
                        1 <= h,
                        v + h <= rows,
                        rows <= 128,
                        run_height(mb, rows as int, u as int, v as int, w as int, b, 1)
                            == run_height(mb, rows as int, u as int, v as int, w as int, b, h as int),
                    ensures
                        mask@ == mb,
                        1 <= h,
                        v + h <= rows,
                        run_height(mb, rows as int, u as int, v as int, w as int, b, 1) == h,
                    decreases rows - h,
                {
                    if v + h >= rows {
                        break;
                    }
                    if !row_matches(&mask, u, v + h, w, b) {
                        break;
                    }
                    h += 1;
                }
                let mut dv: usize = 0;
                while dv < h
                    invariant
                        n == mask@.len(),
                        n == 16 * rows,
                        u + w <= 16,
                        v + h <= rows,
                        dv <= h,
                        forall|i: int| 0 <= i < n ==> #[trigger] mask@[i] == (if in_rect(i, u as int, v as int, w as int, dv as int) { None } else { mb[i] }),
                    decreases h - dv,
                {
                    let mut du: usize = 0;
                    while du < w
                        invariant
                            n == mask@.len(),
                            n == 16 * rows,
                            u + w <= 16,
                            v + h <= rows,
                            dv < h,
                            du <= w,
                            forall|i: int| 0 <= i < n ==> #[trigger] mask@[i] == (if in_rect(i, u as int, v as int, w as int, dv as int) || (i / 16 == v + dv && u <= i % 16 < u + du) { None } else { mb[i] }),
                        decreases w - du,
                    {
                        mask.set((v + dv) * 16 + u + du, None);
                        du += 1;
                    }
                    dv += 1;
                }
                proof {
                    assert(mask@ =~= cleared(mb, u as int, v as int, w as int, h as int));
                }
                out.push(MaskRect { u, v, w, h, block: b });
                proof {
                    let r = MaskRect { u, v, w, h, block: b };
                    assert(mb[p as int] == Some(b));
                    assert(scan(mb, rows as int, p as int) == seq![r] + scan(mask@, rows as int, p + 1));
                }
            },
            None => {},
        }
        p += 1;
    }
}

/// Mask position `i` lies in a rectangle.
pub open spec fn in_mask_rect(i: int, r: MaskRect) -> bool {
    in_rect(i, r.u as int, r.v as int, r.w as int, r.h as int)
}

/// Some rectangle of the list covers mask position `i`.
pub open spec fn covered(rs: Seq<MaskRect>, i: int) -> bool {
    exists|j: int| 0 <= j < rs.len() && in_mask_rect(i, #[trigger] rs[j])
}

/// A list of rectangles splits the occupied cells of a mask exactly: every cell of every
/// rectangle is occupied by the rectangle's block, no cell lies in two rectangles, and every
/// occupied cell lies in one.
pub open spec fn exact_cover(m: Seq<Option<BlockType>>, rs: Seq<MaskRect>, from: int) -> bool {
    &&& forall|j: int, i: int| 0 <= j < rs.len() && in_mask_rect(i, #[trigger] rs[j]) && #[trigger] m[i] == m[i]
        ==> from <= i < m.len() && m[i] == Some(rs[j].block)
    &&& forall|j1: int, j2: int, i: int| 0 <= j1 < j2 < rs.len() && #[trigger] in_mask_rect(i, rs[j1])
        ==> !#[trigger] in_mask_rect(i, rs[j2])
    &&& forall|i: int| from <= i < m.len() && (#[trigger] m[i]) is Some ==> covered(rs, i)
}

proof fn lemma_run_width(m: Seq<Option<BlockType>>, u: int, v: int, b: BlockType, k: int)
    requires
        1 <= k,
        0 <= u,
        u + k <= 16,
        forall|j: int| 0 <= j < k ==> #[trigger] row_cell(m, u, v, j) == Some(b),
    ensures
        k <= run_width(m, u, v, b, k),
        u + run_width(m, u, v, b, k) <= 16,
        row_full(m, u, v, run_width(m, u, v, b, k), b),
    decreases 16 - u - k,
{
    if u + k < 16 && cell(m, u + k, v) == Some(b) {
        assert(row_cell(m, u, v, k) == Some(b));
        lemma_run_width(m, u, v, b, k + 1);
    }
}

proof fn lemma_run_height(m: Seq<Option<BlockType>>, rows: int, u: int, v: int, w: int, b: BlockType, h: int)
    requires
        1 <= h,
        v + h <= rows,
        forall|d: int| 0 <= d < h ==> #[trigger] row_full(m, u, v + d, w, b),
    ensures
        h <= run_height(m, rows, u, v, w, b, h),
        v + run_height(m, rows, u, v, w, b, h) <= rows,
        forall|d: int| 0 <= d < run_height(m, rows, u, v, w, b, h) ==> #[trigger] row_full(m, u, v + d, w, b),
    decreases rows - v - h,
{
    if v + h < rows && row_full(m, u, v + h, w, b) {
        assert forall|d: int| 0 <= d < h + 1 implies #[trigger] row_full(m, u, v + d, w, b) by {
            if d == h {
            }
        }
        lemma_run_height(m, rows, u, v, w, b, h + 1);
    }
}

/// The greedy scan from `p` on, over a mask empty before `p`, splits the occupied cells
/// exactly.
proof fn lemma_scan_exact(m: Seq<Option<BlockType>>, rows: int, p: int)
    requires
        m.len() == 16 * rows,
        rows <= 128,
        0 <= p,
        forall|i: int| 0 <= i < p && i < m.len() ==> (#[trigger] m[i]) is None,
    ensures
        exact_cover(m, scan(m, rows, p), p),
    decreases m.len() - p,
{
    let rs = scan(m, rows, p);
    if p >= m.len() {
        assert(rs.len() == 0);
        assert forall|i: int| p <= i < m.len() && (#[trigger] m[i]) is Some implies covered(rs, i) by {}
    } else {
        let u = p % 16;
        let v = p / 16;
        assert(p == v * 16 + u);
        match m[p] {
            Some(b) => {
                assert(row_cell(m, u, v, 0) == Some(b));
                lemma_run_width(m, u, v, b, 1);
                let w = run_width(m, u, v, b, 1);
                assert forall|d: int| 0 <= d < 1 implies #[trigger] row_full(m, u, v + d, w, b) by {}
                lemma_run_height(m, rows, u, v, w, b, 1);
                let h = run_height(m, rows, u, v, w, b, 1);
                let r = MaskRect { u: u as usize, v: v as usize, w: w as usize, h: h as usize, block: b };
                let m2 = cleared(m, u, v, w, h);
                assert forall|i: int| 0 <= i < p + 1 && i < m2.len() implies (#[trigger] m2[i]) is None by {
                    if i < p {
                        assert(m[i] is None);
                    } else {
                        assert(in_rect(i, u, v, w, h));
                    }
                }
                lemma_scan_exact(m2, rows, p + 1);
                let rest = scan(m2, rows, p + 1);
                assert(rs == seq![r] + rest);
                // Cells of the new rectangle.
                assert forall|i: int| #[trigger] in_mask_rect(i, r) implies p <= i < m.len() && m[i] == Some(b) by {
                    let d = i / 16 - v;
                    let k = i % 16 - u;
                    assert(row_full(m, u, v + d, w, b));
                    assert(row_cell(m, u, v + d, k) == Some(b));
                    assert(i == (v + d) * 16 + u + k);
                }
                assert forall|j: int, i: int| 0 <= j < rs.len() && in_mask_rect(i, #[trigger] rs[j]) && #[trigger] m[i] == m[i]
                    implies p <= i < m.len() && m[i] == Some(rs[j].block) by {
                    if j == 0 {
                        assert(in_mask_rect(i, r));
                    } else {
                        assert(rs[j] == rest[j - 1]);
                        assert(m2[i] == m2[i]);
                        assert(in_mask_rect(i, rest[j - 1]));
                        assert(!in_rect(i, u, v, w, h));
                    }
                }
                assert forall|j1: int, j2: int, i: int| 0 <= j1 < j2 < rs.len() && #[trigger] in_mask_rect(i, rs[j1])
                    implies !#[trigger] in_mask_rect(i, rs[j2]) by {
                    assert(rs[j2] == rest[j2 - 1]);
                    if j1 == 0 {
                        if in_mask_rect(i, rest[j2 - 1]) {
                            assert(m2[i] == m2[i]);
                            assert(m2[i] is Some);
                            assert(in_rect(i, u, v, w, h));
                        }
                    } else {
                        assert(rs[j1] == rest[j1 - 1]);
                        assert(in_mask_rect(i, rest[j1 - 1]));
                    }
                }
                assert forall|i: int| p <= i < m.len() && (#[trigger] m[i]) is Some implies covered(rs, i) by {
                    if in_rect(i, u, v, w, h) {
                        assert(in_mask_rect(i, rs[0]));
                    } else {
                        assert(m2[i] == m[i]);
                        assert(i != p);
                        assert(covered(rest, i));
                        let j = choose|j: int| 0 <= j < rest.len() && in_mask_rect(i, #[trigger] rest[j]);
                        assert(rs[j + 1] == rest[j]);
                        assert(in_mask_rect(i, rs[j + 1]));
                    }
                }
            },
            None => {
                lemma_scan_exact(m, rows, p + 1);
                assert forall|i: int| p <= i < m.len() && (#[trigger] m[i]) is Some implies covered(rs, i) by {
                    assert(i != p);
                }
            },
        }
    }
}

/// Greedy merging splits the occupied cells of a face mask exactly into rectangles of
/// equal faces: each cell of each rectangle shows the rectangle's block, no cell belongs to
/// two rectangles, and every occupied cell belongs to one.
pub proof fn lemma_greedy_exact_cover(m: Seq<Option<BlockType>>, rows: int)
    requires
        m.len() == 16 * rows,
        rows <= 128,
    ensures
        exact_cover(m, scan(m, rows, 0), 0),
{
    lemma_scan_exact(m, rows, 0);
}

/// The mask positions that hold a face.
pub open spec fn occupied_cells(m: Seq<Option<BlockType>>) -> Set<int> {
    Set::new(|i: int| 0 <= i < m.len() && m[i] is Some)
}

/// The mask position of a rectangle's first cell.
pub open spec fn corner(r: MaskRect) -> int {
    r.v * 16 + r.u
}

/// Every rectangle of the greedy scan holds its first cell.
proof fn lemma_scan_corners(m: Seq<Option<BlockType>>, rows: int, p: int)
    requires
        m.len() == 16 * rows,
        rows <= 128,
        0 <= p,
    ensures
        forall|j: int| 0 <= j < scan(m, rows, p).len() ==> in_mask_rect(corner(#[trigger] scan(m, rows, p)[j]), scan(m, rows, p)[j]),
    decreases m.len() - p,
{
    let rs = scan(m, rows, p);
    if p < m.len() {
        assert(0 <= p < 16 * rows);
        let u = p % 16;
        let v = p / 16;
        match m[p] {
            Some(b) => {
                assert(row_cell(m, u, v, 0) == Some(b));
                lemma_run_width(m, u, v, b, 1);
                let w = run_width(m, u, v, b, 1);
                assert forall|d: int| 0 <= d < 1 implies #[trigger] row_full(m, u, v + d, w, b) by {}
                lemma_run_height(m, rows, u, v, w, b, 1);
                let h = run_height(m, rows, u, v, w, b, 1);
                let m2 = cleared(m, u, v, w, h);
                lemma_scan_corners(m2, rows, p + 1);
                let rest = scan(m2, rows, p + 1);
                assert(rs == seq![MaskRect { u: u as usize, v: v as usize, w: w as usize, h: h as usize, block: b }] + rest);
                assert forall|j: int| 0 <= j < rs.len() implies in_mask_rect(corner(#[trigger] rs[j]), rs[j]) by {
                    if j == 0 {
                        assert(1 <= w && u + w <= 16 && 1 <= h);
                        assert(corner(rs[0]) == v * 16 + u);
                        assert((v * 16 + u) % 16 == u && (v * 16 + u) / 16 == v);
                    } else {
                        assert(rs[j] == rest[j - 1]);
                    }
                }
            },
            None => {
                lemma_scan_corners(m, rows, p + 1);
                assert(rs == scan(m, rows, p + 1));
            },
        }
    }
}

/// Each rectangle of a mask's greedy merging holds its first cell, which is a face of
/// the rectangle's block, and no two rectangles start at the same cell.
pub proof fn lemma_scan_corners_distinct(m: Seq<Option<BlockType>>, rows: int)
    requires
        m.len() == 16 * rows,
        rows <= 128,
    ensures
        forall|j: int| 0 <= j < scan(m, rows, 0).len() ==> {
            let r = #[trigger] scan(m, rows, 0)[j];
            &&& in_mask_rect(corner(r), r)
            &&& 0 <= corner(r) < m.len()
            &&& m[corner(r)] == Some(r.block)
        },
        forall|j1: int, j2: int| 0 <= j1 < scan(m, rows, 0).len() && 0 <= j2 < scan(m, rows, 0).len() && j1 != j2
            ==> corner(#[trigger] scan(m, rows, 0)[j1]) != corner(#[trigger] scan(m, rows, 0)[j2]),
{
    let rs = scan(m, rows, 0);
    lemma_scan_exact(m, rows, 0);
    lemma_scan_corners(m, rows, 0);
    assert forall|j: int| 0 <= j < rs.len() implies {
        let r = #[trigger] rs[j];
        &&& in_mask_rect(corner(r), r)
        &&& 0 <= corner(r) < m.len()
        &&& m[corner(r)] == Some(r.block)
    } by {
        assert(in_mask_rect(corner(rs[j]), rs[j]));
        assert(m[corner(rs[j])] == m[corner(rs[j])]);
    }
    assert forall|j1: int, j2: int| 0 <= j1 < rs.len() && 0 <= j2 < rs.len() && j1 != j2
        implies corner(#[trigger] rs[j1]) != corner(#[trigger] rs[j2]) by {
        assert(in_mask_rect(corner(rs[j1]), rs[j1]));
        assert(in_mask_rect(corner(rs[j2]), rs[j2]));
        if corner(rs[j1]) == corner(rs[j2]) {
            if j1 < j2 {
                assert(!in_mask_rect(corner(rs[j1]), rs[j2]));
            } else {
                assert(!in_mask_rect(corner(rs[j2]), rs[j1]));
            }
        }
    }
}

/// Greedy merging never makes more rectangles than the mask has faces.
pub proof fn lemma_greedy_rects_at_most_faces(m: Seq<Option<BlockType>>, rows: int)
    requires
        m.len() == 16 * rows,
        rows <= 128,
    ensures
        scan(m, rows, 0).len() <= occupied_cells(m).len(),
{
    let rs = scan(m, rows, 0);
    lemma_scan_corners_distinct(m, rows);
    let cs = Seq::new(rs.len(), |j: int| corner(rs[j]));
    assert forall|j1: int, j2: int| 0 <= j1 < cs.len() && 0 <= j2 < cs.len() && j1 != j2 implies cs[j1] != cs[j2] by {
        assert(corner(rs[j1]) != corner(rs[j2]));
    }
    assert(cs.no_duplicates());
    cs.unique_seq_to_set();
    assert forall|c: int| cs.to_set().contains(c) implies #[trigger] occupied_cells(m).contains(c) by {
        let j = choose|j: int| 0 <= j < cs.len() && cs[j] == c;
        assert(m[corner(rs[j])] == Some(rs[j].block));
    }
    vstd::set_lib::lemma_int_range(0, m.len() as int);
    assert(occupied_cells(m).subset_of(vstd::set_lib::set_int_range(0, m.len() as int)));
    vstd::set_lib::lemma_len_subset(occupied_cells(m), vstd::set_lib::set_int_range(0, m.len() as int));
    vstd::set_lib::lemma_len_subset(cs.to_set(), occupied_cells(m));
}

/// A merged face of the greedy mesher: the faces `face` of the blocks in one slice of the
/// chunk (height `slice` for top and bottom faces, `z = slice` for north and south faces,
/// `x = slice` for east and west faces) over the rectangle `rect` of that slice's mask.
/// Top and bottom masks run `u = x`, `v = z`; north and south masks `u = x`, `v = y`;
/// east and west masks `u = z`, `v = y`.
#[derive(Clone, Copy, Debug, PartialEq, Eq, Structural)]
pub struct GreedyQuad {
    pub face: BlockFace,
    pub slice: usize,
    pub rect: MaskRect,
}

/// The blocks of a chunk that may be absent.
pub open spec fn opt_blocks(c: Option<&Chunk>) -> Option<Seq<BlockType>> {
    match c {
        Some(ch) => Some(ch.blocks@),
        None => None,
    }
}

pub open spec fn opt_wf(c: Option<&Chunk>) -> bool {
    match c {
        Some(ch) => ch.wf(),
        None => true,
    }
}

/// The neighbouring chunks of a chunk, each possibly not loaded.
pub struct Neighbors<'a> {
    pub north: Option<&'a Chunk>,
    pub south: Option<&'a Chunk>,
    pub east: Option<&'a Chunk>,
    pub west: Option<&'a Chunk>,
}

/// The neighbours' blocks.
pub struct NeighborBlocks {
    pub north: Option<Seq<BlockType>>,
    pub south: Option<Seq<BlockType>>,
    pub east: Option<Seq<BlockType>>,
    pub west: Option<Seq<BlockType>>,
}

impl<'a> Neighbors<'a> {
    pub open spec fn blocks(&self) -> NeighborBlocks {
        NeighborBlocks {
            north: opt_blocks(self.north),
            south: opt_blocks(self.south),
            east: opt_blocks(self.east),
            west: opt_blocks(self.west),
        }
    }

    pub open spec fn wf(&self) -> bool {
        opt_wf(self.north) && opt_wf(self.south) && opt_wf(self.east) && opt_wf(self.west)
    }
}

pub open spec fn blk(c: Seq<BlockType>, x: int, y: int, z: int) -> BlockType {
    c[local_index(x, y, z)]
}

/// What lies past the chunk's edge: the neighbour's block when that chunk is loaded;
/// otherwise water continues water and anything else meets air.
pub open spec fn beyond(n: Option<Seq<BlockType>>, x: int, y: int, z: int, block: BlockType) -> BlockType {
    match n {
        Some(nc) => blk(nc, x, y, z),
        None => if block == BlockType::Water { BlockType::Water } else { BlockType::Air },
    }
}

/// The chunk coordinates of cell `(u, v)` of slice `slice` of a face's masks.
pub open spec fn face_coords(face: BlockFace, slice: int, u: int, v: int) -> (int, int, int) {
    match face {
        BlockFace::Top | BlockFace::Bottom => (u, slice, v),
        BlockFace::North | BlockFace::South => (u, v, slice),
        BlockFace::East | BlockFace::West => (slice, v, u),
    }
}

/// The block that a face of the block at `(x, y, z)` looks onto.
pub open spec fn face_neighbor(face: BlockFace, c: Seq<BlockType>, nb: NeighborBlocks, x: int, y: int, z: int) -> BlockType {
    let block = blk(c, x, y, z);
    match face {
        BlockFace::Top => if y + 1 < 128 { blk(c, x, y + 1, z) } else { BlockType::Air },
        BlockFace::Bottom => blk(c, x, y - 1, z),
        BlockFace::North => if z + 1 < 16 { blk(c, x, y, z + 1) } else { beyond(nb.north, x, y, 0, block) },
        BlockFace::South => if z > 0 { blk(c, x, y, z - 1) } else { beyond(nb.south, x, y, 15, block) },
        BlockFace::East => if x + 1 < 16 { blk(c, x + 1, y, z) } else { beyond(nb.east, 0, y, z, block) },
        BlockFace::West => if x > 0 { blk(c, x - 1, y, z) } else { beyond(nb.west, 15, y, z, block) },
    }
}

/// A mask cell: the block, when its face is drawn.
pub open spec fn face_cell(face: BlockFace, c: Seq<BlockType>, nb: NeighborBlocks, slice: int, u: int, v: int) -> Option<BlockType> {
    let (x, y, z) = face_coords(face, slice, u, v);
    let block = blk(c, x, y, z);
    if block != BlockType::Air && spec_should_render_face(block, face_neighbor(face, c, nb, x, y, z)) {
        Some(block)
    } else {
        None
    }
}

/// The mask of one slice of a face: `rows` rows of 16 cells.
pub open spec fn face_mask(face: BlockFace, c: Seq<BlockType>, nb: NeighborBlocks, slice: int, rows: int) -> Seq<Option<BlockType>> {
    Seq::new((16 * rows) as nat, |i: int| face_cell(face, c, nb, slice, i % 16, i / 16))
}

/// Rows of a face's masks: the depth for top and bottom faces, the heights up to `max_y`
/// for side faces.
pub open spec fn face_rows(face: BlockFace, max_y: int) -> int {
    match face {
        BlockFace::Top | BlockFace::Bottom => 16,
        _ => max_y + 1,
    }
}

/// The merged faces of one slice.
pub open spec fn slice_quads(face: BlockFace, c: Seq<BlockType>, nb: NeighborBlocks, max_y: int, slice: int) -> Seq<GreedyQuad> {
    let rows = face_rows(face, max_y);
    scan(face_mask(face, c, nb, slice, rows), rows, 0).map_values(
        |r: MaskRect| GreedyQuad { face, slice: slice as usize, rect: r },
    )
}

/// The merged faces of the slices `lo..hi`, slice by slice.
pub open spec fn face_quads(face: BlockFace, c: Seq<BlockType>, nb: NeighborBlocks, max_y: int, lo: int, hi: int) -> Seq<GreedyQuad>
    decreases hi - lo,
{
    if lo >= hi {
        Seq::empty()
    } else {
        slice_quads(face, c, nb, max_y, lo) + face_quads(face, c, nb, max_y, lo + 1, hi)
    }
}

/// All merged faces of a chunk up to height `max_y`: top faces of heights `0..=max_y`,
/// bottom faces of heights `1..=max_y`, then north, south, east and west faces slice by
/// slice.
pub open spec fn chunk_quads(c: Seq<BlockType>, nb: NeighborBlocks, max_y: int) -> Seq<GreedyQuad> {
    face_quads(BlockFace::Top, c, nb, max_y, 0, max_y + 1)
        + face_quads(BlockFace::Bottom, c, nb, max_y, 1, max_y + 1)
        + face_quads(BlockFace::North, c, nb, max_y, 0, 16)
        + face_quads(BlockFace::South, c, nb, max_y, 0, 16)
        + face_quads(BlockFace::East, c, nb, max_y, 0, 16)
        + face_quads(BlockFace::West, c, nb, max_y, 0, 16)
}

fn beyond_exec(n: Option<&Chunk>, x: usize, y: usize, z: usize, block: BlockType) -> (r: BlockType)
    requires
        opt_wf(n),
        x < 16 && y < 128 && z < 16,
    ensures
        r == beyond(opt_blocks(n), x as int, y as int, z as int, block),
{
    match n {
        Some(nc) => nc.get_fast(x, y, z),
        None => if block.is_water() { BlockType::Water } else { BlockType::Air },
    }
}

/// The block that a face of the block at `(x, y, z)` looks onto.
pub(crate) fn face_neighbor_exec(face: BlockFace, chunk: &Chunk, nb: &Neighbors, x: usize, y: usize, z: usize) -> (r: BlockType)
    requires
        chunk.wf(),
        nb.wf(),
        x < 16 && y < 128 && z < 16,
        face == BlockFace::Bottom ==> y >= 1,
    ensures
        r == face_neighbor(face, chunk.blocks@, nb.blocks(), x as int, y as int, z as int),
{
    let block = chunk.get_fast(x, y, z);
    match face {
        BlockFace::Top => if y + 1 < 128 { chunk.get_fast(x, y + 1, z) } else { BlockType::Air },
        BlockFace::Bottom => chunk.get_fast(x, y - 1, z),
        BlockFace::North => if z + 1 < 16 { chunk.get_fast(x, y, z + 1) } else { beyond_exec(nb.north, x, y, 0, block) },
        BlockFace::South => if z > 0 { chunk.get_fast(x, y, z - 1) } else { beyond_exec(nb.south, x, y, 15, block) },
        BlockFace::East => if x + 1 < 16 { chunk.get_fast(x + 1, y, z) } else { beyond_exec(nb.east, 0, y, z, block) },
        BlockFace::West => if x > 0 { chunk.get_fast(x - 1, y, z) } else { beyond_exec(nb.west, 15, y, z, block) },
    }
}

/// The mask cell `(u, v)` of a slice of a face.
fn face_cell_exec(face: BlockFace, chunk: &Chunk, nb: &Neighbors, slice: usize, u: usize, v: usize) -> (r: Option<BlockType>)
    requires
        chunk.wf(),
        nb.wf(),
        u < 16,
        match face {
            BlockFace::Top => slice < 128 && v < 16,
            BlockFace::Bottom => 1 <= slice < 128 && v < 16,
            _ => slice < 16 && v < 128,
        },
    ensures
        r == face_cell(face, chunk.blocks@, nb.blocks(), slice as int, u as int, v as int),
{
    let (x, y, z) = match face {
        BlockFace::Top | BlockFace::Bottom => (u, slice, v),
        BlockFace::North | BlockFace::South => (u, v, slice),
        BlockFace::East | BlockFace::West => (slice, v, u),
    };
    let block = chunk.get_fast(x, y, z);
    if block == BlockType::Air {
        return None;
    }
    let neighbor = face_neighbor_exec(face, chunk, nb, x, y, z);
    if should_render_face(block, neighbor, face) {
        Some(block)
    } else {
        None
    }
}

/// Builds the mask of one slice of a face.
fn build_face_mask(face: BlockFace, chunk: &Chunk, nb: &Neighbors, slice: usize, rows: usize) -> (r: Vec<Option<BlockType>>)
    requires
        chunk.wf(),
        nb.wf(),
        rows <= 128,
        match face {
            BlockFace::Top => slice < 128 && rows == 16,
            BlockFace::Bottom => 1 <= slice < 128 && rows == 16,
            _ => slice < 16,
        },
    ensures
        r@ == face_mask(face, chunk.blocks@, nb.blocks(), slice as int, rows as int),
{
    let n = 16 * rows;
    let mut mask: Vec<Option<BlockType>> = Vec::with_capacity(n);
    let mut i: usize = 0;
    while i < n
        invariant
            n == 16 * rows,
            rows <= 128,
            chunk.wf(),
            nb.wf(),
            match face {
                BlockFace::Top => slice < 128 && rows == 16,
                BlockFace::Bottom => 1 <= slice < 128 && rows == 16,
                _ => slice < 16,
            },
            i <= n,
            mask@.len() == i,
            forall|j: int| 0 <= j < i ==> #[trigger] mask@[j] == face_cell(face, chunk.blocks@, nb.blocks(), slice as int, j % 16, j / 16),
        decreases n - i,
    {
        let c = face_cell_exec(face, chunk, nb, slice, i % 16, i / 16);
        mask.push(c);
        i += 1;
    }
    proof {
        assert(mask@ =~= face_mask(face, chunk.blocks@, nb.blocks(), slice as int, rows as int));
    }
    mask
}

/// Appends the merged faces of one slice.
fn push_slice_quads(face: BlockFace, chunk: &Chunk, nb: &Neighbors, max_y: usize, slice: usize, out: &mut Vec<GreedyQuad>)
    requires
        chunk.wf(),
        nb.wf(),
        max_y < 128,
        match face {
            BlockFace::Top => slice < 128,
            BlockFace::Bottom => 1 <= slice < 128,
            _ => slice < 16,
        },
    ensures
        final(out)@ == old(out)@ + slice_quads(face, chunk.blocks@, nb.blocks(), max_y as int, slice as int),
{
    let rows: usize = match face {
        BlockFace::Top | BlockFace::Bottom => 16,
        _ => max_y + 1,
    };
    let mut mask = build_face_mask(face, chunk, nb, slice, rows);
    let mut rects: Vec<MaskRect> = Vec::new();
    greedy_merge(&mut mask, rows, &mut rects);
    assert(rects@ == scan(face_mask(face, chunk.blocks@, nb.blocks(), slice as int, rows as int), rows as int, 0));
    let ghost before = out@;
    let mut k: usize = 0;
    while k < rects.len()
        invariant
            k <= rects@.len(),
            out@ == before + rects@.take(k as int).map_values(|r: MaskRect| GreedyQuad { face, slice, rect: r }),
        decreases rects@.len() - k,
    {
        out.push(GreedyQuad { face, slice, rect: rects[k] });
        proof {
            assert(rects@.take(k + 1).map_values(|r: MaskRect| GreedyQuad { face, slice, rect: r })
                =~= rects@.take(k as int).map_values(|r: MaskRect| GreedyQuad { face, slice, rect: r }).push(GreedyQuad { face, slice, rect: rects@[k as int] }));
        }
        k += 1;
    }
    proof {
        assert(rects@.take(rects@.len() as int) == rects@);
        assert(rects@.map_values(|r: MaskRect| GreedyQuad { face, slice, rect: r })
            =~= slice_quads(face, chunk.blocks@, nb.blocks(), max_y as int, slice as int));
    }
}

/// Appends the merged faces of the slices `lo..hi` of a face.
fn push_face_quads(face: BlockFace, chunk: &Chunk, nb: &Neighbors, max_y: usize, lo: usize, hi: usize, out: &mut Vec<GreedyQuad>)
    requires
        chunk.wf(),
        nb.wf(),
        max_y < 128,
        match face {
            BlockFace::Top => hi <= 128,
            BlockFace::Bottom => 1 <= lo && hi <= 128,
            _ => hi <= 16,
        },
    ensures
        final(out)@ == old(out)@ + face_quads(face, chunk.blocks@, nb.blocks(), max_y as int, lo as int, hi as int),
{
    let ghost before = out@;
    let mut s: usize = lo;
    while s < hi
        invariant
            chunk.wf(),
            nb.wf(),
            max_y < 128,
            match face {
                BlockFace::Top => hi <= 128,
                BlockFace::Bottom => 1 <= lo && hi <= 128,
                _ => hi <= 16,
            },
            lo <= s || s >= hi,
            s >= lo,
            out@ + face_quads(face, chunk.blocks@, nb.blocks(), max_y as int, s as int, hi as int)
                == before + face_quads(face, chunk.blocks@, nb.blocks(), max_y as int, lo as int, hi as int),
        decreases hi - s,
    {
        let ghost o = out@;
        push_slice_quads(face, chunk, nb, max_y, s, out);
        proof {
            let q = slice_quads(face, chunk.blocks@, nb.blocks(), max_y as int, s as int);
            let rest = face_quads(face, chunk.blocks@, nb.blocks(), max_y as int, s + 1, hi as int);
            assert(o + (q + rest) == (o + q) + rest);
        }
        s += 1;
    }
}

/// The merged faces of a chunk for greedy meshing, up to height `max_y`: for each face
/// direction and each slice, the visible faces split into rectangles of equal blocks.
/// Faces at the chunk's sides look into the given neighbouring chunks.
pub fn greedy_chunk_quads(
    chunk: &Chunk,
    north: Option<&Chunk>,
    south: Option<&Chunk>,
    east: Option<&Chunk>,
    west: Option<&Chunk>,
    max_y: usize,
) -> (r: Vec<GreedyQuad>)
    requires
        chunk.wf(),
        opt_wf(north) && opt_wf(south) && opt_wf(east) && opt_wf(west),
        max_y < 128,
    ensures
        r@ == chunk_quads(
            chunk.blocks@,
            NeighborBlocks {
                north: opt_blocks(north),
                south: opt_blocks(south),
                east: opt_blocks(east),
                west: opt_blocks(west),
            },
            max_y as int,
        ),
{
    let neighbors = Neighbors { north, south, east, west };
    let mut out: Vec<GreedyQuad> = Vec::new();
    push_face_quads(BlockFace::Top, chunk, &neighbors, max_y, 0, max_y + 1, &mut out);
    push_face_quads(BlockFace::Bottom, chunk, &neighbors, max_y, 1, max_y + 1, &mut out);
    push_face_quads(BlockFace::North, chunk, &neighbors, max_y, 0, 16, &mut out);
    push_face_quads(BlockFace::South, chunk, &neighbors, max_y, 0, 16, &mut out);
    push_face_quads(BlockFace::East, chunk, &neighbors, max_y, 0, 16, &mut out);
    push_face_quads(BlockFace::West, chunk, &neighbors, max_y, 0, 16, &mut out);
    proof {
        assert(out@ =~= chunk_quads(chunk.blocks@, neighbors.blocks(), max_y as int));
    }
    out
}

} // verus!
