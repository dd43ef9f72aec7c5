use vstd::prelude::*;

use crate::block::{BlockFace, BlockType};
use crate::chunk::Chunk;
use crate::mesher::greedy::{
    GreedyQuad, NeighborBlocks, Neighbors, beyond, blk, chunk_quads, corner, covered, face_cell, face_coords, face_mask,
    in_mask_rect, lemma_greedy_exact_cover,
    face_neighbor, face_neighbor_exec, face_quads, face_rows, lemma_scan_corners_distinct, opt_blocks,
    opt_wf, scan, slice_quads,
};
use crate::mesher::helpers::{should_render_face, spec_should_render_face};

verus! {

/// One visible unit face of the standard mesher: face `face` of the block `block` at
/// `(x, y, z)`.
#[derive(Clone, Copy, Debug, PartialEq, Eq, Structural)]
pub struct VoxelFace {
    pub face: BlockFace,
    pub x: usize,
    pub y: usize,
    pub z: usize,
    pub block: BlockType,
}

/// What a face looks onto in the standard mesher: as for greedy meshing, except that the
/// bottom of the lowest layer looks onto air.
pub open spec fn unit_neighbor(face: BlockFace, c: Seq<BlockType>, nb: NeighborBlocks, x: int, y: int, z: int) -> BlockType {
    if face == BlockFace::Bottom && y == 0 {
        BlockType::Air
    } else {
        face_neighbor(face, c, nb, x, y, z)
    }
}

/// The face of a non-air block is drawn when its neighbour calls for it.
pub open spec fn unit_face_visible(face: BlockFace, c: Seq<BlockType>, nb: NeighborBlocks, x: int, y: int, z: int) -> bool {
    blk(c, x, y, z) != BlockType::Air && spec_should_render_face(blk(c, x, y, z), unit_neighbor(face, c, nb, x, y, z))
}

pub open spec fn unit_face(face: BlockFace, c: Seq<BlockType>, nb: NeighborBlocks, x: int, y: int, z: int) -> Seq<VoxelFace> {
    if unit_face_visible(face, c, nb, x, y, z) {
        seq![VoxelFace { face, x: x as usize, y: y as usize, z: z as usize, block: blk(c, x, y, z) }]
    } else {
        Seq::empty()
    }
}

/// The visible faces of one voxel: top, bottom, north, south, east, west.
pub open spec fn voxel_faces(c: Seq<BlockType>, nb: NeighborBlocks, x: int, y: int, z: int) -> Seq<VoxelFace> {
    unit_face(BlockFace::Top, c, nb, x, y, z) + unit_face(BlockFace::Bottom, c, nb, x, y, z)
        + unit_face(BlockFace::North, c, nb, x, y, z) + unit_face(BlockFace::South, c, nb, x, y, z)
        + unit_face(BlockFace::East, c, nb, x, y, z) + unit_face(BlockFace::West, c, nb, x, y, z)
}

/// The visible faces of the first `n` voxels in storage order (x, then z, then y).
pub open spec fn faces_before(c: Seq<BlockType>, nb: NeighborBlocks, n: int) -> Seq<VoxelFace>
    decreases n,
{
    if n <= 0 {
        Seq::empty()
    } else {
        let i = n - 1;
        faces_before(c, nb, i) + voxel_faces(c, nb, i % 16, i / 256, (i / 16) % 16)
    }
}

fn push_unit_face(face: BlockFace, chunk: &Chunk, nb: &Neighbors, x: usize, y: usize, z: usize, out: &mut Vec<VoxelFace>)
    requires
        chunk.wf(),
        nb.wf(),
        x < 16 && y < 128 && z < 16,
    ensures
        final(out)@ == old(out)@ + unit_face(face, chunk.blocks@, nb.blocks(), x as int, y as int, z as int),
{
    let block = chunk.get_fast(x, y, z);
    if block == BlockType::Air {
        return;
    }
    let neighbor = if face == BlockFace::Bottom && y == 0 {
        BlockType::Air
    } else {
        face_neighbor_exec(face, chunk, nb, x, y, z)
    };
    if should_render_face(block, neighbor, face) {
        out.push(VoxelFace { face, x, y, z, block });
    }
}

fn push_voxel_faces(chunk: &Chunk, nb: &Neighbors, x: usize, y: usize, z: usize, out: &mut Vec<VoxelFace>)
    requires
        chunk.wf(),
        nb.wf(),
        x < 16 && y < 128 && z < 16,
    ensures
        final(out)@ == old(out)@ + voxel_faces(chunk.blocks@, nb.blocks(), x as int, y as int, z as int),
{
    let ghost before = out@;
    push_unit_face(BlockFace::Top, chunk, nb, x, y, z, out);
    push_unit_face(BlockFace::Bottom, chunk, nb, x, y, z, out);
    push_unit_face(BlockFace::North, chunk, nb, x, y, z, out);
    push_unit_face(BlockFace::South, chunk, nb, x, y, z, out);
    push_unit_face(BlockFace::East, chunk, nb, x, y, z, out);
    push_unit_face(BlockFace::West, chunk, nb, x, y, z, out);
    proof {
        assert(out@ =~= before + voxel_faces(chunk.blocks@, nb.blocks(), x as int, y as int, z as int));
    }
}

/// The visible unit faces of a chunk up to height `max_y`, voxel by voxel in storage
/// order, each voxel's faces in the order top, bottom, north, south, east, west. Faces at
/// the chunk's sides look into the given neighbouring chunks.
pub fn standard_chunk_faces(
    chunk: &Chunk,
    north: Option<&Chunk>,
    south: Option<&Chunk>,
    east: Option<&Chunk>,
    west: Option<&Chunk>,
    max_y: usize,
) -> (r: Vec<VoxelFace>)
    requires
        chunk.wf(),
        opt_wf(north) && opt_wf(south) && opt_wf(east) && opt_wf(west),
        max_y < 128,
    ensures
        r@ == faces_before(
            chunk.blocks@,
            NeighborBlocks {
                north: opt_blocks(north),
                south: opt_blocks(south),
                east: opt_blocks(east),
                west: opt_blocks(west),
            },
            (max_y + 1) * 256,
        ),
{
    let nb = Neighbors { north, south, east, west };
    let n = (max_y + 1) * 256;
    let mut out: Vec<VoxelFace> = Vec::new();
    let mut i: usize = 0;
    while i < n
        invariant
            chunk.wf(),
            nb.wf(),
            n == (max_y + 1) * 256,
            max_y < 128,
            i <= n,
            out@ == faces_before(chunk.blocks@, nb.blocks(), i as int),
        decreases n - i,
    {
        let x = i % 16;
        let z = (i / 16) % 16;
        let y = i / 256;
        assert(y < 128) by {
            assert(i < 32768);
        }
        push_voxel_faces(chunk, &nb, x, y, z, &mut out);
        i += 1;
    }
    out
}

/// A visible unit face of a voxel among the first `n` voxels is among their faces.
proof fn lemma_faces_before_contains(c: Seq<BlockType>, nb: NeighborBlocks, face: BlockFace, x: int, y: int, z: int, n: int)
    requires
        0 <= x < 16,
        0 <= z < 16,
        0 <= y,
        y * 256 + z * 16 + x < n,
        unit_face_visible(face, c, nb, x, y, z),
    ensures
        faces_before(c, nb, n).contains(VoxelFace { face, x: x as usize, y: y as usize, z: z as usize, block: blk(c, x, y, z) }),
    decreases n,
{
    let vf = VoxelFace { face, x: x as usize, y: y as usize, z: z as usize, block: blk(c, x, y, z) };
    let i = n - 1;
    let before = faces_before(c, nb, i);
    if i == y * 256 + z * 16 + x {
        assert(i % 16 == x && i / 256 == y && (i / 16) % 16 == z) by (nonlinear_arith)
            requires
                i == y * 256 + z * 16 + x,
                0 <= x < 16,
                0 <= z < 16,
                0 <= y,
        ;
        let vs = voxel_faces(c, nb, x, y, z);
        assert(unit_face(face, c, nb, x, y, z) == seq![vf]);
        let t = unit_face(BlockFace::Top, c, nb, x, y, z);
        let b = unit_face(BlockFace::Bottom, c, nb, x, y, z);
        let no = unit_face(BlockFace::North, c, nb, x, y, z);
        let so = unit_face(BlockFace::South, c, nb, x, y, z);
        let e = unit_face(BlockFace::East, c, nb, x, y, z);
        let w = unit_face(BlockFace::West, c, nb, x, y, z);
        let k: int = match face {
            BlockFace::Top => 0int,
            BlockFace::Bottom => t.len() as int,
            BlockFace::North => (t.len() + b.len()) as int,
            BlockFace::South => (t.len() + b.len() + no.len()) as int,
            BlockFace::East => (t.len() + b.len() + no.len() + so.len()) as int,
            BlockFace::West => (t.len() + b.len() + no.len() + so.len() + e.len()) as int,
        };
        assert(vs[k] == vf);
        assert(faces_before(c, nb, n)[before.len() + k] == vf);
    } else {
        lemma_faces_before_contains(c, nb, face, x, y, z, i);
        let j = choose|j: int| 0 <= j < before.len() && before[j] == vf;
        assert(faces_before(c, nb, n)[j] == vf);
    }
}

/// Two sequences without repeats and without a common element join without repeats.
proof fn lemma_concat_no_duplicates<A>(a: Seq<A>, b: Seq<A>)
    requires
        a.no_duplicates(),
        b.no_duplicates(),
        forall|i: int, j: int| 0 <= i < a.len() && 0 <= j < b.len() ==> a[i] != b[j],
    ensures
        (a + b).no_duplicates(),
{
    let ab = a + b;
    assert forall|i: int, j: int| 0 <= i < ab.len() && 0 <= j < ab.len() && i != j implies ab[i] != ab[j] by {
        if i < a.len() && j >= a.len() {
            assert(ab[j] == b[j - a.len()]);
        } else if i >= a.len() && j < a.len() {
            assert(ab[i] == b[i - a.len()]);
        } else if i >= a.len() {
            assert(ab[i] == b[i - a.len()] && ab[j] == b[j - a.len()]);
        }
    }
}

/// The merged face `q` is a rectangle of the greedy merging of its own slice's mask.
pub open spec fn quad_of_slice(c: Seq<BlockType>, nb: NeighborBlocks, max_y: int, q: GreedyQuad) -> bool {
    let rows = face_rows(q.face, max_y);
    let rs = scan(face_mask(q.face, c, nb, q.slice as int, rows), rows, 0);
    exists|j: int| 0 <= j < rs.len() && #[trigger] rs[j] == q.rect
}

/// The merged faces of the slices `lo..hi` of one face direction come without repeats,
/// each from its slice's mask.
proof fn lemma_face_quads_parts(face: BlockFace, c: Seq<BlockType>, nb: NeighborBlocks, max_y: int, lo: int, hi: int)
    requires
        0 <= lo,
        hi <= 128,
        0 <= max_y < 128,
    ensures
        face_quads(face, c, nb, max_y, lo, hi).no_duplicates(),
        forall|k: int| 0 <= k < face_quads(face, c, nb, max_y, lo, hi).len() ==> {
            let q = #[trigger] face_quads(face, c, nb, max_y, lo, hi)[k];
            &&& q.face == face
            &&& lo <= q.slice < hi
            &&& quad_of_slice(c, nb, max_y, q)
        },
    decreases hi - lo,
{
    if lo < hi {
        lemma_face_quads_parts(face, c, nb, max_y, lo + 1, hi);
        let rows = face_rows(face, max_y);
        let m = face_mask(face, c, nb, lo, rows);
        let rs = scan(m, rows, 0);
        lemma_scan_corners_distinct(m, rows);
        let sq = slice_quads(face, c, nb, max_y, lo);
        let rest = face_quads(face, c, nb, max_y, lo + 1, hi);
        assert(face_quads(face, c, nb, max_y, lo, hi) == sq + rest);
        assert forall|j: int| 0 <= j < sq.len() implies #[trigger] sq[j] == (GreedyQuad { face, slice: lo as usize, rect: rs[j] }) by {}
        assert forall|i: int, j: int| 0 <= i < sq.len() && 0 <= j < sq.len() && i != j implies sq[i] != sq[j] by {
            assert(corner(rs[i]) != corner(rs[j]));
        }
        assert(sq.no_duplicates());
        assert forall|i: int, j: int| 0 <= i < sq.len() && 0 <= j < rest.len() implies sq[i] != rest[j] by {
            assert(rest[j].slice >= lo + 1);
        }
        lemma_concat_no_duplicates(sq, rest);
        let fq = sq + rest;
        assert forall|k: int| 0 <= k < fq.len() implies {
            let q = #[trigger] fq[k];
            &&& q.face == face
            &&& lo <= q.slice < hi
            &&& quad_of_slice(c, nb, max_y, q)
        } by {
            if k < sq.len() {
                assert(fq[k] == sq[k]);
                assert(rs[k] == fq[k].rect);
            } else {
                assert(fq[k] == rest[k - sq.len()]);
            }
        }
    }
}

/// The unit face at the first cell of a merged face.
pub open spec fn first_unit_face(q: GreedyQuad) -> VoxelFace {
    let i = corner(q.rect);
    let (x, y, z) = face_coords(q.face, q.slice as int, i % 16, i / 16);
    VoxelFace { face: q.face, x: x as usize, y: y as usize, z: z as usize, block: q.rect.block }
}

/// The slices that greedy meshing up to height `max_y` merges for a face direction.
pub open spec fn merged_slice(face: BlockFace, slice: int, max_y: int) -> bool {
    match face {
        BlockFace::Top => 0 <= slice <= max_y,
        BlockFace::Bottom => 1 <= slice <= max_y,
        _ => 0 <= slice < 16,
    }
}

/// A merged face of a merged slice, taken from that slice's mask.
pub open spec fn merged_quad(c: Seq<BlockType>, nb: NeighborBlocks, max_y: int, q: GreedyQuad) -> bool {
    merged_slice(q.face, q.slice as int, max_y) && quad_of_slice(c, nb, max_y, q)
}

/// Each merged face starts at a visible unit face that standard meshing draws.
proof fn lemma_first_face_drawn(c: Seq<BlockType>, nb: NeighborBlocks, max_y: int, q: GreedyQuad)
    requires
        0 <= max_y < 128,
        merged_quad(c, nb, max_y, q),
    ensures
        faces_before(c, nb, (max_y + 1) * 256).contains(first_unit_face(q)),
{
    let rows = face_rows(q.face, max_y);
    let m = face_mask(q.face, c, nb, q.slice as int, rows);
    let rs = scan(m, rows, 0);
    lemma_scan_corners_distinct(m, rows);
    let j = choose|j: int| 0 <= j < rs.len() && #[trigger] rs[j] == q.rect;
    let i = corner(q.rect);
    assert(m[i] == Some(q.rect.block));
    let u = i % 16;
    let v = i / 16;
    assert(0 <= u < 16 && 0 <= v < rows);
    let (x, y, z) = face_coords(q.face, q.slice as int, u, v);
    assert(blk(c, x, y, z) == q.rect.block);
    assert(0 <= x < 16 && 0 <= z < 16 && 0 <= y <= max_y);
    assert(unit_face_visible(q.face, c, nb, x, y, z));
    assert(y * 256 + z * 16 + x < (max_y + 1) * 256) by (nonlinear_arith)
        requires
            0 <= x < 16,
            0 <= z < 16,
            0 <= y <= max_y,
    ;
    lemma_faces_before_contains(c, nb, q.face, x, y, z, (max_y + 1) * 256);
}

/// Two merged faces that start at the same unit face are the same.
proof fn lemma_first_face_injective(c: Seq<BlockType>, nb: NeighborBlocks, max_y: int, q1: GreedyQuad, q2: GreedyQuad)
    requires
        0 <= max_y < 128,
        merged_quad(c, nb, max_y, q1),
        merged_quad(c, nb, max_y, q2),
        first_unit_face(q1) == first_unit_face(q2),
    ensures
        q1 == q2,
{
    let rows = face_rows(q1.face, max_y);
    let m1 = face_mask(q1.face, c, nb, q1.slice as int, rows);
    let rs1 = scan(m1, rows, 0);
    lemma_scan_corners_distinct(m1, rows);
    let j1 = choose|j: int| 0 <= j < rs1.len() && #[trigger] rs1[j] == q1.rect;
    let rows2 = face_rows(q2.face, max_y);
    let m2 = face_mask(q2.face, c, nb, q2.slice as int, rows2);
    let rs2 = scan(m2, rows2, 0);
    lemma_scan_corners_distinct(m2, rows2);
    let j2 = choose|j: int| 0 <= j < rs2.len() && #[trigger] rs2[j] == q2.rect;
    let i1 = corner(q1.rect);
    let i2 = corner(q2.rect);
    assert(0 <= i1 < m1.len() && 0 <= i2 < m2.len());
    assert(q1.face == q2.face);
    assert(q1.slice == q2.slice && i1 % 16 == i2 % 16 && i1 / 16 == i2 / 16);
    assert(i1 == i2);
    assert(m1 == m2);
    if j1 != j2 {
        assert(corner(rs1[j1]) != corner(rs1[j2]));
    }
}

/// The merged faces of one face direction, taken from the slices greedy meshing merges,
/// as a whole without repeats and each from its slice's mask.
proof fn lemma_face_part(face: BlockFace, c: Seq<BlockType>, nb: NeighborBlocks, max_y: int, lo: int, hi: int)
    requires
        0 <= max_y < 128,
        0 <= lo,
        hi <= 128,
        forall|s: int| lo <= s < hi ==> merged_slice(face, s, max_y),
    ensures
        face_quads(face, c, nb, max_y, lo, hi).no_duplicates(),
        forall|k: int| 0 <= k < face_quads(face, c, nb, max_y, lo, hi).len() ==> {
            let q = #[trigger] face_quads(face, c, nb, max_y, lo, hi)[k];
            q.face == face && merged_quad(c, nb, max_y, q)
        },
{
    lemma_face_quads_parts(face, c, nb, max_y, lo, hi);
    let fq = face_quads(face, c, nb, max_y, lo, hi);
    assert forall|k: int| 0 <= k < fq.len() implies {
        let q = #[trigger] fq[k];
        q.face == face && merged_quad(c, nb, max_y, q)
    } by {
        assert(merged_slice(face, fq[k].slice as int, max_y));
    }
}

/// Joining merged faces of a new direction to those of earlier directions keeps them
/// without repeats and from their masks.
proof fn lemma_join_parts(c: Seq<BlockType>, nb: NeighborBlocks, max_y: int, a: Seq<GreedyQuad>, b: Seq<GreedyQuad>, face: BlockFace)
    requires
        a.no_duplicates(),
        b.no_duplicates(),
        forall|k: int| 0 <= k < a.len() ==> #[trigger] a[k].face != face && merged_quad(c, nb, max_y, a[k]),
        forall|k: int| 0 <= k < b.len() ==> #[trigger] b[k].face == face && merged_quad(c, nb, max_y, b[k]),
    ensures
        (a + b).no_duplicates(),
        forall|k: int| 0 <= k < (a + b).len() ==> merged_quad(c, nb, max_y, #[trigger] (a + b)[k]),
{
    assert forall|i: int, j: int| 0 <= i < a.len() && 0 <= j < b.len() implies a[i] != b[j] by {
        assert(a[i].face != face && b[j].face == face);
    }
    lemma_concat_no_duplicates(a, b);
    assert forall|k: int| 0 <= k < (a + b).len() implies merged_quad(c, nb, max_y, #[trigger] (a + b)[k]) by {
        if k < a.len() {
            assert((a + b)[k] == a[k]);
        } else {
            assert((a + b)[k] == b[k - a.len()]);
        }
    }
}

/// The merged faces of a chunk come without repeats, each from its own slice's mask.
proof fn lemma_chunk_quads_parts(c: Seq<BlockType>, nb: NeighborBlocks, max_y: int)
    requires
        0 <= max_y < 128,
    ensures
        chunk_quads(c, nb, max_y).no_duplicates(),
        forall|k: int| 0 <= k < chunk_quads(c, nb, max_y).len() ==> merged_quad(c, nb, max_y, #[trigger] chunk_quads(c, nb, max_y)[k]),
{
    let t = face_quads(BlockFace::Top, c, nb, max_y, 0, max_y + 1);
    let b = face_quads(BlockFace::Bottom, c, nb, max_y, 1, max_y + 1);
    let n = face_quads(BlockFace::North, c, nb, max_y, 0, 16);
    let so = face_quads(BlockFace::South, c, nb, max_y, 0, 16);
    let e = face_quads(BlockFace::East, c, nb, max_y, 0, 16);
    let w = face_quads(BlockFace::West, c, nb, max_y, 0, 16);
    lemma_face_part(BlockFace::Top, c, nb, max_y, 0, max_y + 1);
    lemma_face_part(BlockFace::Bottom, c, nb, max_y, 1, max_y + 1);
    lemma_face_part(BlockFace::North, c, nb, max_y, 0, 16);
    lemma_face_part(BlockFace::South, c, nb, max_y, 0, 16);
    lemma_face_part(BlockFace::East, c, nb, max_y, 0, 16);
    lemma_face_part(BlockFace::West, c, nb, max_y, 0, 16);
    lemma_join_parts(c, nb, max_y, t, b, BlockFace::Bottom);
    let tb = t + b;
    assert forall|k: int| 0 <= k < tb.len() implies #[trigger] tb[k].face != BlockFace::North && merged_quad(c, nb, max_y, tb[k]) by {
        if k < t.len() { assert(tb[k] == t[k]); } else { assert(tb[k] == b[k - t.len()]); }
    }
    lemma_join_parts(c, nb, max_y, tb, n, BlockFace::North);
    let tbn = tb + n;
    assert forall|k: int| 0 <= k < tbn.len() implies #[trigger] tbn[k].face != BlockFace::South && merged_quad(c, nb, max_y, tbn[k]) by {
        if k < tb.len() {
            assert(tbn[k] == tb[k]);
            if k < t.len() { assert(tb[k] == t[k]); } else { assert(tb[k] == b[k - t.len()]); }
        } else {
            assert(tbn[k] == n[k - tb.len()]);
        }
    }
    lemma_join_parts(c, nb, max_y, tbn, so, BlockFace::South);
    let tbns = tbn + so;
    assert forall|k: int| 0 <= k < tbns.len() implies #[trigger] tbns[k].face != BlockFace::East && merged_quad(c, nb, max_y, tbns[k]) by {
        if k < tbn.len() {
            assert(tbns[k] == tbn[k]);
            if k < tb.len() {
                assert(tbn[k] == tb[k]);
                if k < t.len() { assert(tb[k] == t[k]); } else { assert(tb[k] == b[k - t.len()]); }
            } else {
                assert(tbn[k] == n[k - tb.len()]);
            }
        } else {
            assert(tbns[k] == so[k - tbn.len()]);
        }
    }
    lemma_join_parts(c, nb, max_y, tbns, e, BlockFace::East);
    let tbnse = tbns + e;
    assert forall|k: int| 0 <= k < tbnse.len() implies #[trigger] tbnse[k].face != BlockFace::West && merged_quad(c, nb, max_y, tbnse[k]) by {
        if k < tbns.len() {
            assert(tbnse[k] == tbns[k]);
            if k < tbn.len() {
                assert(tbns[k] == tbn[k]);
                if k < tb.len() {
                    assert(tbn[k] == tb[k]);
                    if k < t.len() { assert(tb[k] == t[k]); } else { assert(tb[k] == b[k - t.len()]); }
                } else {
                    assert(tbn[k] == n[k - tb.len()]);
                }
            } else {
                assert(tbns[k] == so[k - tbn.len()]);
            }
        } else {
            assert(tbnse[k] == e[k - tbns.len()]);
        }
    }
    lemma_join_parts(c, nb, max_y, tbnse, w, BlockFace::West);
    let qs = chunk_quads(c, nb, max_y);
    assert(qs == tbnse + w);
}

/// Greedy meshing never draws more faces than standard meshing of the same chunk: each
/// merged face starts at a unit face that standard meshing draws, and no two merged faces
/// start at the same one.
pub proof fn lemma_greedy_no_more_faces(c: Seq<BlockType>, nb: NeighborBlocks, max_y: int)
    requires
        0 <= max_y < 128,
    ensures
        chunk_quads(c, nb, max_y).len() <= faces_before(c, nb, (max_y + 1) * 256).len(),
{
    lemma_chunk_quads_parts(c, nb, max_y);
    let qs = chunk_quads(c, nb, max_y);
    let ids = qs.map_values(|q: GreedyQuad| first_unit_face(q));
    assert forall|i: int, j: int| 0 <= i < ids.len() && 0 <= j < ids.len() && i != j implies ids[i] != ids[j] by {
        if ids[i] == ids[j] {
            lemma_first_face_injective(c, nb, max_y, qs[i], qs[j]);
        }
    }
    assert(ids.no_duplicates());
    ids.unique_seq_to_set();
    let std = faces_before(c, nb, (max_y + 1) * 256);
    std.lemma_cardinality_of_set();
    assert forall|f: VoxelFace| ids.to_set().contains(f) implies #[trigger] std.to_set().contains(f) by {
        let k = choose|k: int| 0 <= k < ids.len() && ids[k] == f;
        lemma_first_face_drawn(c, nb, max_y, qs[k]);
    }
    vstd::seq_lib::seq_to_set_is_finite(std);
    vstd::set_lib::lemma_len_subset(ids.to_set(), std.to_set());
}

/// Every merged face of a slice `s` in `lo..hi` is among the merged faces of those slices.
proof fn lemma_face_quads_contain(face: BlockFace, c: Seq<BlockType>, nb: NeighborBlocks, max_y: int, lo: int, hi: int, s: int, j: int)
    requires
        lo <= s < hi,
        0 <= j < slice_quads(face, c, nb, max_y, s).len(),
    ensures
        face_quads(face, c, nb, max_y, lo, hi).contains(slice_quads(face, c, nb, max_y, s)[j]),
    decreases hi - lo,
{
    let sq = slice_quads(face, c, nb, max_y, lo);
    let rest = face_quads(face, c, nb, max_y, lo + 1, hi);
    assert(face_quads(face, c, nb, max_y, lo, hi) == sq + rest);
    if s == lo {
        assert((sq + rest)[j] == sq[j]);
    } else {
        lemma_face_quads_contain(face, c, nb, max_y, lo + 1, hi, s, j);
        let k = choose|k: int| 0 <= k < rest.len() && rest[k] == slice_quads(face, c, nb, max_y, s)[j];
        assert((sq + rest)[sq.len() + k] == rest[k]);
    }
}

proof fn lemma_concat_contains<A>(a: Seq<A>, b: Seq<A>, x: A)
    requires
        a.contains(x) || b.contains(x),
    ensures
        (a + b).contains(x),
{
    if a.contains(x) {
        let k = choose|k: int| 0 <= k < a.len() && a[k] == x;
        assert((a + b)[k] == x);
    } else {
        let k = choose|k: int| 0 <= k < b.len() && b[k] == x;
        assert((a + b)[a.len() + k] == x);
    }
}

/// The merged faces of a chunk cover exactly its visible faces: for each face direction,
/// each slice greedy meshing merges and each cell of that slice's mask, some merged face
/// of that direction and slice covers the cell exactly when the cell shows a face.
pub proof fn lemma_quads_cover_visible_faces(c: Seq<BlockType>, nb: NeighborBlocks, max_y: int, face: BlockFace, s: int, u: int, v: int)
    requires
        0 <= max_y < 128,
        merged_slice(face, s, max_y),
        0 <= u < 16,
        0 <= v < face_rows(face, max_y),
    ensures
        (exists|k: int| 0 <= k < chunk_quads(c, nb, max_y).len() && {
            let q = #[trigger] chunk_quads(c, nb, max_y)[k];
            q.face == face && q.slice == s && in_mask_rect(v * 16 + u, q.rect)
        }) <==> face_cell(face, c, nb, s, u, v) is Some,
{
    let qs = chunk_quads(c, nb, max_y);
    let rows = face_rows(face, max_y);
    let m = face_mask(face, c, nb, s, rows);
    let rs = scan(m, rows, 0);
    let i = v * 16 + u;
    assert(i % 16 == u && i / 16 == v);
    assert(0 <= i < m.len());
    assert(m[i] == face_cell(face, c, nb, s, u, v));
    lemma_greedy_exact_cover(m, rows);
    lemma_chunk_quads_parts(c, nb, max_y);
    if face_cell(face, c, nb, s, u, v) is Some {
        assert(covered(rs, i));
        let j = choose|j: int| 0 <= j < rs.len() && in_mask_rect(i, #[trigger] rs[j]);
        let sq = slice_quads(face, c, nb, max_y, s);
        let q = sq[j];
        assert(q == GreedyQuad { face, slice: s as usize, rect: rs[j] });
        let t = face_quads(BlockFace::Top, c, nb, max_y, 0, max_y + 1);
        let b = face_quads(BlockFace::Bottom, c, nb, max_y, 1, max_y + 1);
        let n = face_quads(BlockFace::North, c, nb, max_y, 0, 16);
        let so = face_quads(BlockFace::South, c, nb, max_y, 0, 16);
        let e = face_quads(BlockFace::East, c, nb, max_y, 0, 16);
        let w = face_quads(BlockFace::West, c, nb, max_y, 0, 16);
        match face {
            BlockFace::Top => lemma_face_quads_contain(face, c, nb, max_y, 0, max_y + 1, s, j),
            BlockFace::Bottom => lemma_face_quads_contain(face, c, nb, max_y, 1, max_y + 1, s, j),
            _ => lemma_face_quads_contain(face, c, nb, max_y, 0, 16, s, j),
        }
        if t.contains(q) || b.contains(q) {
            lemma_concat_contains(t, b, q);
        }
        if (t + b).contains(q) || n.contains(q) {
            lemma_concat_contains(t + b, n, q);
        }
        if (t + b + n).contains(q) || so.contains(q) {
            lemma_concat_contains(t + b + n, so, q);
        }
        if (t + b + n + so).contains(q) || e.contains(q) {
            lemma_concat_contains(t + b + n + so, e, q);
        }
        lemma_concat_contains(t + b + n + so + e, w, q);
        assert(qs == t + b + n + so + e + w);
        let k = choose|k: int| 0 <= k < qs.len() && qs[k] == q;
        assert(qs[k].face == face && qs[k].slice == s && in_mask_rect(i, qs[k].rect));
    }
    if exists|k: int| 0 <= k < qs.len() && {
        let q = #[trigger] qs[k];
        q.face == face && q.slice == s && in_mask_rect(i, q.rect)
    } {
        let k = choose|k: int| 0 <= k < qs.len() && {
            let q = #[trigger] qs[k];
            q.face == face && q.slice == s && in_mask_rect(i, q.rect)
        };
        let q = qs[k];
        assert(merged_quad(c, nb, max_y, q));
        let j = choose|j: int| 0 <= j < rs.len() && #[trigger] rs[j] == q.rect;
        assert(in_mask_rect(i, rs[j]) && m[i] == m[i]);
    }
}

/// Across the chunk's north border a face looks at the first row of the loaded north
/// neighbour: the north face of the block at `(x, y, 15)` is drawn, in slice 15 of the
/// merged faces, exactly when that block is not air and should show against the
/// neighbour's block at `(x, y, 0)`. Likewise south at `z = 0` against the neighbour's
/// `(x, y, 15)`, east at `x = 15` against `(0, y, z)` and west at `x = 0` against `(15, y, z)`.
pub proof fn lemma_border_faces(c: Seq<BlockType>, nb: NeighborBlocks, max_y: int, a: int, y: int)
    requires
        0 <= max_y < 128,
        0 <= a < 16,
        0 <= y <= max_y,
    ensures
        nb.north matches Some(n) ==> face_cell(BlockFace::North, c, nb, 15, a, y) == (
            if blk(c, a, y, 15) != BlockType::Air && spec_should_render_face(blk(c, a, y, 15), blk(n, a, y, 0)) {
                Some(blk(c, a, y, 15))
            } else {
                None
            }),
        nb.south matches Some(n) ==> face_cell(BlockFace::South, c, nb, 0, a, y) == (
            if blk(c, a, y, 0) != BlockType::Air && spec_should_render_face(blk(c, a, y, 0), blk(n, a, y, 15)) {
                Some(blk(c, a, y, 0))
            } else {
                None
            }),
        nb.east matches Some(n) ==> face_cell(BlockFace::East, c, nb, 15, a, y) == (
            if blk(c, 15, y, a) != BlockType::Air && spec_should_render_face(blk(c, 15, y, a), blk(n, 0, y, a)) {
                Some(blk(c, 15, y, a))
            } else {
                None
            }),
        nb.west matches Some(n) ==> face_cell(BlockFace::West, c, nb, 0, a, y) == (
            if blk(c, 0, y, a) != BlockType::Air && spec_should_render_face(blk(c, 0, y, a), blk(n, 15, y, a)) {
                Some(blk(c, 0, y, a))
            } else {
                None
            }),
        (exists|k: int| 0 <= k < chunk_quads(c, nb, max_y).len() && {
            let q = #[trigger] chunk_quads(c, nb, max_y)[k];
            q.face == BlockFace::North && q.slice == 15 && in_mask_rect(y * 16 + a, q.rect)
        }) <==> face_cell(BlockFace::North, c, nb, 15, a, y) is Some,
{
    lemma_quads_cover_visible_faces(c, nb, max_y, BlockFace::North, 15, a, y);
}

/// A face shows its block exactly when the block is not air and should show against the
/// block it looks onto.
pub open spec fn shows_against(b: BlockType, other: BlockType) -> Option<BlockType> {
    if b != BlockType::Air && spec_should_render_face(b, other) { Some(b) } else { None }
}

/// Inside the chunk every face looks onto the adjacent block in its direction: top at
/// `y + 1` (air above the top layer), bottom at `y - 1`, north at `z + 1`, south at
/// `z - 1`, east at `x + 1`, west at `x - 1`. Across a side with no loaded neighbour, water
/// meets water and anything else meets air.
pub proof fn lemma_faces_look_at_adjacent_blocks(c: Seq<BlockType>, nb: NeighborBlocks, x: int, y: int, z: int)
    requires
        0 <= x < 16,
        0 <= y < 128,
        0 <= z < 16,
    ensures
        face_cell(BlockFace::Top, c, nb, y, x, z) == shows_against(
            blk(c, x, y, z),
            if y < 127 { blk(c, x, y + 1, z) } else { BlockType::Air },
        ),
        y >= 1 ==> face_cell(BlockFace::Bottom, c, nb, y, x, z) == shows_against(blk(c, x, y, z), blk(c, x, y - 1, z)),
        z < 15 ==> face_cell(BlockFace::North, c, nb, z, x, y) == shows_against(blk(c, x, y, z), blk(c, x, y, z + 1)),
        z > 0 ==> face_cell(BlockFace::South, c, nb, z, x, y) == shows_against(blk(c, x, y, z), blk(c, x, y, z - 1)),
        x < 15 ==> face_cell(BlockFace::East, c, nb, x, z, y) == shows_against(blk(c, x, y, z), blk(c, x + 1, y, z)),
        x > 0 ==> face_cell(BlockFace::West, c, nb, x, z, y) == shows_against(blk(c, x, y, z), blk(c, x - 1, y, z)),
        ({
            let open_side = if blk(c, x, y, z) == BlockType::Water { BlockType::Water } else { BlockType::Air };
            &&& (z == 15 && nb.north is None) ==> face_cell(BlockFace::North, c, nb, z, x, y) == shows_against(blk(c, x, y, z), open_side)
            &&& (z == 0 && nb.south is None) ==> face_cell(BlockFace::South, c, nb, z, x, y) == shows_against(blk(c, x, y, z), open_side)
            &&& (x == 15 && nb.east is None) ==> face_cell(BlockFace::East, c, nb, x, z, y) == shows_against(blk(c, x, y, z), open_side)
            &&& (x == 0 && nb.west is None) ==> face_cell(BlockFace::West, c, nb, x, z, y) == shows_against(blk(c, x, y, z), open_side)
        }),
{
}

/// A unit face is drawn exactly when its mask cell shows a face, except that the bottom of
/// the lowest layer looks onto air: the unit-face mesher sees the same neighbours as the
/// greedy one.
pub proof fn lemma_unit_faces_match_cells(c: Seq<BlockType>, nb: NeighborBlocks, x: int, y: int, z: int)
    requires
        0 <= x < 16,
        0 <= y < 128,
        0 <= z < 16,
    ensures
        unit_face_visible(BlockFace::Top, c, nb, x, y, z) == face_cell(BlockFace::Top, c, nb, y, x, z) is Some,
        y >= 1 ==> unit_face_visible(BlockFace::Bottom, c, nb, x, y, z) == face_cell(BlockFace::Bottom, c, nb, y, x, z) is Some,
        y == 0 ==> unit_face_visible(BlockFace::Bottom, c, nb, x, y, z) == shows_against(blk(c, x, y, z), BlockType::Air) is Some,
        unit_face_visible(BlockFace::North, c, nb, x, y, z) == face_cell(BlockFace::North, c, nb, z, x, y) is Some,
        unit_face_visible(BlockFace::South, c, nb, x, y, z) == face_cell(BlockFace::South, c, nb, z, x, y) is Some,
        unit_face_visible(BlockFace::East, c, nb, x, y, z) == face_cell(BlockFace::East, c, nb, x, z, y) is Some,
        unit_face_visible(BlockFace::West, c, nb, x, y, z) == face_cell(BlockFace::West, c, nb, x, z, y) is Some,
{
}

} // verus!
