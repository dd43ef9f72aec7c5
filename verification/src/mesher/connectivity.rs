use vstd::prelude::*;

use crate::block::{BlockType, spec_is_transparent};
use crate::chunk::Chunk;
use crate::coords::local_index;

verus! {

/// Number of vertical sub-chunk sections per chunk column (128 / 16).
pub const CHUNK_SECTIONS: usize = 8;

/// Height in blocks of each cubic sub-chunk section.
pub const SECTION_HEIGHT: usize = 16;

/// Number of voxels in a 16 x 16 x 16 section.
pub const TOTAL_VOXELS: usize = 4096;

/// Directional faces of a 16x16x16 sub-chunk section.
#[derive(Copy, Clone, Debug, PartialEq, Eq, Hash, Structural)]
pub enum SectionFace {
    /// +Z (z = 15)
    North,
    /// -Z (z = 0)
    South,
    /// -X (x = 0)
    West,
    /// +X (x = 15)
    East,
    /// -Y (y = 0)
    Down,
    /// +Y (y = 15)
    Up,
}

/// The bit number of a face in connectivity masks.
pub open spec fn face_bit(f: SectionFace) -> u8 {
    match f {
        SectionFace::North => 0,
        SectionFace::South => 1,
        SectionFace::West => 2,
        SectionFace::East => 3,
        SectionFace::Down => 4,
        SectionFace::Up => 5,
    }
}

pub open spec fn spec_opposite(f: SectionFace) -> SectionFace {
    match f {
        SectionFace::North => SectionFace::South,
        SectionFace::South => SectionFace::North,
        SectionFace::West => SectionFace::East,
        SectionFace::East => SectionFace::West,
        SectionFace::Down => SectionFace::Up,
        SectionFace::Up => SectionFace::Down,
    }
}

pub open spec fn spec_normal(f: SectionFace) -> (i32, i32, i32) {
    match f {
        SectionFace::North => (0i32, 0i32, 1i32),
        SectionFace::South => (0i32, 0i32, -1i32),
        SectionFace::West => (-1i32, 0i32, 0i32),
        SectionFace::East => (1i32, 0i32, 0i32),
        SectionFace::Down => (0i32, -1i32, 0i32),
        SectionFace::Up => (0i32, 1i32, 0i32),
    }
}

impl SectionFace {
    pub const ALL: [SectionFace; 6] = [
        SectionFace::North,
        SectionFace::South,
        SectionFace::West,
        SectionFace::East,
        SectionFace::Down,
        SectionFace::Up,
    ];

    /// The bit number of this face in connectivity masks.
    pub fn bit(self) -> (r: u8)
        ensures
            r == face_bit(self),
    {
        match self {
            SectionFace::North => 0,
            SectionFace::South => 1,
            SectionFace::West => 2,
            SectionFace::East => 3,
            SectionFace::Down => 4,
            SectionFace::Up => 5,
        }
    }

    pub fn opposite(self) -> (r: SectionFace)
        ensures
            r == spec_opposite(self),
    {
        match self {
            SectionFace::North => SectionFace::South,
            SectionFace::South => SectionFace::North,
            SectionFace::West => SectionFace::East,
            SectionFace::East => SectionFace::West,
            SectionFace::Down => SectionFace::Up,
            SectionFace::Up => SectionFace::Down,
        }
    }

    /// The outward unit normal of the face.
    pub fn normal(self) -> (r: (i32, i32, i32))
        ensures
            r == spec_normal(self),
    {
        match self {
            SectionFace::North => (0, 0, 1),
            SectionFace::South => (0, 0, -1),
            SectionFace::West => (-1, 0, 0),
            SectionFace::East => (1, 0, 0),
            SectionFace::Down => (0, -1, 0),
            SectionFace::Up => (0, 1, 0),
        }
    }
}

/// The opposite of the opposite face is the face itself, and opposite normals are negated.
pub proof fn lemma_opposite_involution(f: SectionFace)
    ensures
        spec_opposite(spec_opposite(f)) == f,
        spec_opposite(f) != f,
        spec_normal(spec_opposite(f)).0 == -spec_normal(f).0,
        spec_normal(spec_opposite(f)).1 == -spec_normal(f).1,
        spec_normal(spec_opposite(f)).2 == -spec_normal(f).2,
{
}

/// Whether bit `b` is set in `m`.
pub open spec fn has_bit(m: u8, b: u8) -> bool {
    m & (1u8 << b) != 0
}

proof fn lemma_bit_or(a: u8, b: u8, g: u8)
    requires
        g < 8,
    ensures
        has_bit(a | b, g) == (has_bit(a, g) || has_bit(b, g)),
{
    assert((a | b) & (1u8 << g) != 0 <==> (a & (1u8 << g) != 0 || b & (1u8 << g) != 0))
        by (bit_vector)
        requires
            g < 8,
    ;
}

proof fn lemma_bit_single(f: u8, g: u8)
    requires
        f < 8,
        g < 8,
    ensures
        has_bit(1u8 << f, g) == (f == g),
{
    assert((1u8 << f) & (1u8 << g) != 0 <==> f == g) by (bit_vector)
        requires
            f < 8,
            g < 8,
    ;
}

proof fn lemma_bit_zero(g: u8)
    requires
        g < 8,
    ensures
        !has_bit(0u8, g),
{
    assert(0u8 & (1u8 << g) == 0) by (bit_vector);
}

proof fn lemma_six_bits_bound(a: u8, b: u8)
    requires
        a < 64,
        b < 64,
    ensures
        a | b < 64,
{
    assert(a | b < 64) by (bit_vector)
        requires
            a < 64,
            b < 64,
    ;
}

proof fn lemma_single_bound(f: u8)
    requires
        f < 6,
    ensures
        (1u8 << f) < 64,
{
    assert((1u8 << f) < 64) by (bit_vector)
        requires
            f < 6,
    ;
}

proof fn lemma_full_bits(g: u8)
    requires
        g < 6,
    ensures
        has_bit(63u8, g),
{
    assert(63u8 & (1u8 << g) != 0) by (bit_vector)
        requires
            g < 6,
    ;
}

/// Two masks below 64 that agree on the six face bits are equal.
proof fn lemma_mask_ext(a: u8, b: u8)
    requires
        a < 64,
        b < 64,
        forall|g: u8| g < 6 ==> has_bit(a, g) == has_bit(b, g),
    ensures
        a == b,
{
    assert(has_bit(a, 0) == has_bit(b, 0));
    assert(has_bit(a, 1) == has_bit(b, 1));
    assert(has_bit(a, 2) == has_bit(b, 2));
    assert(has_bit(a, 3) == has_bit(b, 3));
    assert(has_bit(a, 4) == has_bit(b, 4));
    assert(has_bit(a, 5) == has_bit(b, 5));
    assert(a == b) by (bit_vector)
        requires
            a < 64,
            b < 64,
            (a & 1u8 << 0u8 != 0) == (b & 1u8 << 0u8 != 0),
            (a & 1u8 << 1u8 != 0) == (b & 1u8 << 1u8 != 0),
            (a & 1u8 << 2u8 != 0) == (b & 1u8 << 2u8 != 0),
            (a & 1u8 << 3u8 != 0) == (b & 1u8 << 3u8 != 0),
            (a & 1u8 << 4u8 != 0) == (b & 1u8 << 4u8 != 0),
            (a & 1u8 << 5u8 != 0) == (b & 1u8 << 5u8 != 0),
    ;
}

/// Directional reachability graph for a 16x16x16 sub-chunk section.
///
/// Bit `t` of `mask[s]` is set when face `s` can reach face `t` through non-opaque
/// blocks.
#[derive(Copy, Clone, Debug, PartialEq, Eq)]
pub struct SectionConnectivity {
    pub mask: [u8; 6],
    /// True if the section consists entirely of opaque blocks.
    pub is_solid: bool,
    /// True if the section consists entirely of non-opaque blocks (e.g. open air).
    pub is_empty: bool,
}

impl Default for SectionConnectivity {
    fn default() -> (r: SectionConnectivity)
        ensures
            r.mask@ == seq![0u8, 0u8, 0u8, 0u8, 0u8, 0u8],
            !r.is_solid,
            !r.is_empty,
    {
        SectionConnectivity { mask: [0u8, 0u8, 0u8, 0u8, 0u8, 0u8], is_solid: false, is_empty: false }
    }
}

impl SectionConnectivity {
    /// A fully open connectivity where all 6 faces see all 6 faces (open sky / air).
    pub fn full() -> (r: SectionConnectivity)
        ensures
            r.mask@ == seq![63u8, 63u8, 63u8, 63u8, 63u8, 63u8],
            !r.is_solid,
            r.is_empty,
    {
        SectionConnectivity {
            mask: [63u8, 63u8, 63u8, 63u8, 63u8, 63u8],
            is_solid: false,
            is_empty: true,
        }
    }

    /// Whether a sight line entering by face `from` can leave by face `to` through air.
    pub fn can_see(&self, from: SectionFace, to: SectionFace) -> (r: bool)
        ensures
            r == has_bit(self.mask@[face_bit(from) as int], face_bit(to)),
    {
        let m = self.mask[from.bit() as usize];
        m & (1u8 << to.bit()) != 0
    }

    /// Whether the section has an air opening to the sky (+Y face sees itself).
    pub fn reaches_up(&self) -> (r: bool)
        ensures
            r == has_bit(self.mask@[5], 5),
    {
        self.mask[5] & (1u8 << 5u8) != 0
    }
}

// ---------------------------------------------------------------------------
// The mathematical model of a section: voxels by index, openness, adjacency, paths.

/// A voxel index inside a section.
pub open spec fn in_sec(i: int) -> bool {
    0 <= i < 4096
}

pub open spec fn sec_x(i: int) -> int {
    i % 16
}

pub open spec fn sec_z(i: int) -> int {
    (i / 16) % 16
}

pub open spec fn sec_y(i: int) -> int {
    i / 256
}

/// A voxel of the section starting at height `base` lets sight through.
pub open spec fn open_voxel(c: Chunk, base: int, i: int) -> bool {
    in_sec(i) && spec_is_transparent(c.block_at(sec_x(i), base + sec_y(i), sec_z(i)))
}

pub open spec fn abs_diff(a: int, b: int) -> int {
    if a < b { b - a } else { a - b }
}

/// Two voxels of the section share a face.
pub open spec fn adjacent(i: int, j: int) -> bool {
    in_sec(i) && in_sec(j) && abs_diff(sec_x(i), sec_x(j)) + abs_diff(sec_y(i), sec_y(j))
        + abs_diff(sec_z(i), sec_z(j)) == 1
}

/// A voxel lies on the given outer face of its section (faces numbered as in
/// [`face_bit`]).
pub open spec fn face_hit(x: int, y: int, z: int, g: int) -> bool {
    if g == 0 { z == 15 }
    else if g == 1 { z == 0 }
    else if g == 2 { x == 0 }
    else if g == 3 { x == 15 }
    else if g == 4 { y == 0 }
    else if g == 5 { y == 15 }
    else { false }
}

pub open spec fn on_face(i: int, g: int) -> bool {
    in_sec(i) && face_hit(sec_x(i), sec_y(i), sec_z(i), g)
}

/// A walk through open voxels, each step to a face neighbour.
pub open spec fn is_path(c: Chunk, base: int, p: Seq<int>) -> bool {
    &&& p.len() > 0
    &&& forall|k: int| 0 <= k < p.len() ==> open_voxel(c, base, #[trigger] p[k])
    &&& forall|k: int| 0 <= k < p.len() - 1 ==> adjacent(#[trigger] p[k], p[k + 1])
}

/// Voxel `b` can be reached from voxel `a` through open voxels.
pub open spec fn reach(c: Chunk, base: int, a: int, b: int) -> bool {
    exists|p: Seq<int>| #[trigger] is_path(c, base, p) && p[0] == a && p[p.len() - 1] == b
}

/// Face `f` of the section sees face `g`: an open voxel on `f` reaches one on `g`.
pub open spec fn sees(c: Chunk, base: int, f: int, g: int) -> bool {
    exists|a: int, b: int|
        #![trigger reach(c, base, a, b)]
        on_face(a, f) && on_face(b, g) && reach(c, base, a, b)
}

/// Every voxel of the section is opaque.
pub open spec fn all_opaque(c: Chunk, base: int) -> bool {
    forall|i: int| in_sec(i) ==> !#[trigger] open_voxel(c, base, i)
}

/// No voxel of the section is opaque.
pub open spec fn all_open(c: Chunk, base: int) -> bool {
    forall|i: int| in_sec(i) ==> #[trigger] open_voxel(c, base, i)
}

/// The connectivity that a section has: its masks hold exactly the pairs of faces that see
/// each other, and its flags say whether it is all opaque or all open.
pub open spec fn connectivity_of(c: Chunk, base: int, r: SectionConnectivity) -> bool {
    &&& forall|f: int, g: int|
        #![trigger has_bit(r.mask@[f], g as u8)]
        #![trigger sees(c, base, f, g)]
        0 <= f < 6 && 0 <= g < 6 ==> (has_bit(r.mask@[f], g as u8) <==> sees(c, base, f, g))
    &&& forall|f: int| 0 <= f < 6 ==> #[trigger] r.mask@[f] < 64
    &&& r.is_solid == all_opaque(c, base)
    &&& r.is_empty == all_open(c, base)
}

// ---------------------------------------------------------------------------
// Lemmas on the model.

proof fn lemma_decode(x: int, y: int, z: int)
    requires
        0 <= x < 16,
        0 <= y < 16,
        0 <= z < 16,
    ensures
        in_sec(local_index(x, y, z)),
        sec_x(local_index(x, y, z)) == x,
        sec_y(local_index(x, y, z)) == y,
        sec_z(local_index(x, y, z)) == z,
{
    let i = local_index(x, y, z);
    assert(i % 16 == x && (i / 16) % 16 == z && i / 256 == y) by (nonlinear_arith)
        requires
            i == x + z * 16 + y * 256,
            0 <= x < 16,
            0 <= y < 16,
            0 <= z < 16,
    ;
}

proof fn lemma_encode(i: int)
    requires
        in_sec(i),
    ensures
        0 <= sec_x(i) < 16,
        0 <= sec_y(i) < 16,
        0 <= sec_z(i) < 16,
        local_index(sec_x(i), sec_y(i), sec_z(i)) == i,
{
    assert(i / 256 < 16 && i == i % 16 + ((i / 16) % 16) * 16 + (i / 256) * 256) by (nonlinear_arith)
        requires
            0 <= i < 4096,
    ;
}

proof fn lemma_reach_refl(c: Chunk, base: int, a: int)
    requires
        open_voxel(c, base, a),
    ensures
        reach(c, base, a, a),
{
    let p = seq![a];
    assert(is_path(c, base, p));
}

proof fn lemma_reach_step(c: Chunk, base: int, a: int, b: int, d: int)
    requires
        reach(c, base, a, b),
        adjacent(b, d),
        open_voxel(c, base, d),
    ensures
        reach(c, base, a, d),
{
    let p = choose|p: Seq<int>| #[trigger] is_path(c, base, p) && p[0] == a && p[p.len() - 1] == b;
    let q = p.push(d);
    assert forall|k: int| 0 <= k < q.len() - 1 implies adjacent(#[trigger] q[k], q[k + 1]) by {
        if k < p.len() - 1 {
            assert(q[k] == p[k] && q[k + 1] == p[k + 1]);
        }
    }
    assert(forall|k: int| 0 <= k < q.len() ==> open_voxel(c, base, #[trigger] q[k]));
    assert(is_path(c, base, q));
}

proof fn lemma_reach_sym(c: Chunk, base: int, a: int, b: int)
    requires
        reach(c, base, a, b),
    ensures
        reach(c, base, b, a),
{
    let p = choose|p: Seq<int>| #[trigger] is_path(c, base, p) && p[0] == a && p[p.len() - 1] == b;
    let q = p.reverse();
    assert forall|k: int| 0 <= k < q.len() implies open_voxel(c, base, #[trigger] q[k]) by {
        assert(q[k] == p[p.len() - 1 - k]);
    }
    assert forall|k: int| 0 <= k < q.len() - 1 implies adjacent(#[trigger] q[k], q[k + 1]) by {
        assert(q[k] == p[p.len() - 1 - k]);
        assert(q[k + 1] == p[p.len() - 1 - (k + 1)]);
        assert(adjacent(p[p.len() - 1 - (k + 1)], p[p.len() - 1 - (k + 1) + 1]));
    }
    assert(is_path(c, base, q));
}

proof fn lemma_reach_trans(c: Chunk, base: int, a: int, b: int, d: int)
    requires
        reach(c, base, a, b),
        reach(c, base, b, d),
    ensures
        reach(c, base, a, d),
{
    let p = choose|p: Seq<int>| #[trigger] is_path(c, base, p) && p[0] == a && p[p.len() - 1] == b;
    let q = choose|q: Seq<int>| #[trigger] is_path(c, base, q) && q[0] == b && q[q.len() - 1] == d;
    let r = p + q.drop_first();
    assert forall|k: int| 0 <= k < r.len() implies open_voxel(c, base, #[trigger] r[k]) by {
        if k < p.len() {
            assert(r[k] == p[k]);
        } else {
            assert(r[k] == q[k - p.len() + 1]);
        }
    }
    assert forall|k: int| 0 <= k < r.len() - 1 implies adjacent(#[trigger] r[k], r[k + 1]) by {
        if k < p.len() - 1 {
            assert(r[k] == p[k] && r[k + 1] == p[k + 1]);
        } else if k == p.len() - 1 {
            assert(r[k] == p[k]);
            assert(r[k + 1] == q[1]);
            assert(adjacent(q[0], q[1]));
        } else {
            assert(r[k] == q[k - p.len() + 1]);
            assert(r[k + 1] == q[k - p.len() + 2]);
            assert(adjacent(q[k - p.len() + 1], q[k - p.len() + 1 + 1]));
        }
    }
    assert(is_path(c, base, r));
    if q.len() == 1 {
        assert(r[r.len() - 1] == p[p.len() - 1]);
    } else {
        assert(r[r.len() - 1] == q[q.len() - 1]);
    }
}

/// A set of voxels closed under stepping to open neighbours.
pub open spec fn closed_set(c: Chunk, base: int, vis: Seq<bool>) -> bool {
    forall|v: int, w: int|
        #![trigger vis[v], adjacent(v, w)]
        in_sec(v) && vis[v] && adjacent(v, w) && open_voxel(c, base, w) ==> vis[w]
}

proof fn lemma_closed_path(c: Chunk, base: int, vis: Seq<bool>, p: Seq<int>, n: int)
    requires
        vis.len() == 4096,
        closed_set(c, base, vis),
        is_path(c, base, p),
        vis[p[0]],
        0 <= n < p.len(),
    ensures
        vis[p[n]],
    decreases n,
{
    if n > 0 {
        lemma_closed_path(c, base, vis, p, n - 1);
        assert(adjacent(p[n - 1], p[n - 1 + 1]));
        assert(open_voxel(c, base, p[n]));
    } else {
        assert(open_voxel(c, base, p[0]));
    }
}

proof fn lemma_closed_reach(c: Chunk, base: int, vis: Seq<bool>, a: int, b: int)
    requires
        vis.len() == 4096,
        closed_set(c, base, vis),
        reach(c, base, a, b),
        vis[a],
    ensures
        vis[b],
{
    let p = choose|p: Seq<int>| #[trigger] is_path(c, base, p) && p[0] == a && p[p.len() - 1] == b;
    lemma_closed_path(c, base, vis, p, p.len() - 1);
}

/// In an all-open section every voxel reaches every other.
proof fn lemma_all_open_reach(c: Chunk, base: int, a: int, b: int)
    requires
        all_open(c, base),
        in_sec(a),
        in_sec(b),
    ensures
        reach(c, base, a, b),
    decreases abs_diff(sec_x(a), sec_x(b)) + abs_diff(sec_y(a), sec_y(b)) + abs_diff(sec_z(a), sec_z(b)),
{
    lemma_encode(a);
    lemma_encode(b);
    assert(open_voxel(c, base, a));
    if a == b {
        lemma_reach_refl(c, base, a);
    } else {
        let (x, y, z) = (sec_x(b), sec_y(b), sec_z(b));
        // step b one voxel toward a
        let b2 = if x < sec_x(a) {
            local_index(x + 1, y, z)
        } else if x > sec_x(a) {
            local_index(x - 1, y, z)
        } else if y < sec_y(a) {
            local_index(x, y + 1, z)
        } else if y > sec_y(a) {
            local_index(x, y - 1, z)
        } else if z < sec_z(a) {
            local_index(x, y, z + 1)
        } else {
            local_index(x, y, z - 1)
        };
        if x < sec_x(a) { lemma_decode(x + 1, y, z); }
        else if x > sec_x(a) { lemma_decode(x - 1, y, z); }
        else if y < sec_y(a) { lemma_decode(x, y + 1, z); }
        else if y > sec_y(a) { lemma_decode(x, y - 1, z); }
        else if z < sec_z(a) { lemma_decode(x, y, z + 1); }
        else {
            assert(z > sec_z(a)) by {
                if z == sec_z(a) {
                    lemma_encode(a);
                }
            }
            lemma_decode(x, y, z - 1);
        }
        lemma_all_open_reach(c, base, a, b2);
        assert(open_voxel(c, base, b));
        lemma_reach_step(c, base, a, b2, b);
    }
}

// ---------------------------------------------------------------------------
// Counting opaque voxels.

/// Number of opaque voxels among the first `n` voxels of the section.
pub open spec fn opaque_count(c: Chunk, base: int, n: int) -> int
    decreases n,
{
    if n <= 0 {
        0
    } else {
        opaque_count(c, base, n - 1) + if open_voxel(c, base, n - 1) { 0int } else { 1int }
    }
}

proof fn lemma_opaque_count(c: Chunk, base: int, n: int)
    requires
        0 <= n <= 4096,
    ensures
        0 <= opaque_count(c, base, n) <= n,
        opaque_count(c, base, n) == n <==> forall|i: int| 0 <= i < n ==> !#[trigger] open_voxel(c, base, i),
        opaque_count(c, base, n) == 0 <==> forall|i: int| 0 <= i < n ==> #[trigger] open_voxel(c, base, i),
    decreases n,
{
    if n > 0 {
        lemma_opaque_count(c, base, n - 1);
        if opaque_count(c, base, n) == n {
            assert forall|i: int| 0 <= i < n implies !#[trigger] open_voxel(c, base, i) by {
                if i < n - 1 {
                }
            }
        }
        if opaque_count(c, base, n) == 0 {
            assert forall|i: int| 0 <= i < n implies #[trigger] open_voxel(c, base, i) by {
                if i < n - 1 {
                }
            }
        }
    }
}

// ---------------------------------------------------------------------------
// Counting visited voxels (for termination of the flood fill).

pub open spec fn count_true(s: Seq<bool>, n: int) -> int
    decreases n,
{
    if n <= 0 {
        0
    } else {
        count_true(s, n - 1) + if s[n - 1] { 1int } else { 0int }
    }
}

proof fn lemma_count_bounds(s: Seq<bool>, n: int)
    requires
        0 <= n <= s.len(),
    ensures
        0 <= count_true(s, n) <= n,
    decreases n,
{
    if n > 0 {
        lemma_count_bounds(s, n - 1);
    }
}

proof fn lemma_count_update(s: Seq<bool>, n: int, i: int)
    requires
        0 <= i < s.len(),
        0 <= n <= s.len(),
        !s[i],
    ensures
        count_true(s.update(i, true), n) == count_true(s, n) + if i < n { 1int } else { 0int },
    decreases n,
{
    if n > 0 {
        lemma_count_update(s, n - 1, i);
    }
}

// ---------------------------------------------------------------------------
// Executable parts.

/// The face bits set after the first `k` of the six face tests of `face_mask_for_pos`.
spec fn partial_hit(x: int, y: int, z: int, g: int, k: int) -> bool {
    ||| (k >= 1 && g == 4 && y == 0)
    ||| (k >= 2 && g == 5 && y == 15)
    ||| (k >= 3 && g == 2 && x == 0)
    ||| (k >= 4 && g == 3 && x == 15)
    ||| (k >= 5 && g == 1 && z == 0)
    ||| (k >= 6 && g == 0 && z == 15)
}

proof fn lemma_mask_step(old_mask: u8, new_mask: u8, cond: bool, f: u8, x: int, y: int, z: int, k: int)
    requires
        f < 6,
        old_mask < 64,
        forall|g: u8| g < 8 ==> (has_bit(old_mask, g) <==> partial_hit(x, y, z, g as int, k - 1)),
        new_mask == if cond { old_mask | (1u8 << f) } else { old_mask },
        forall|g: int| (partial_hit(x, y, z, g, k) <==> (partial_hit(x, y, z, g, k - 1) || (cond && g == f))),
    ensures
        new_mask < 64,
        forall|g: u8| g < 8 ==> (has_bit(new_mask, g) <==> partial_hit(x, y, z, g as int, k)),
{
    if cond {
        add_bit_facts(old_mask, f);
    }
    assert forall|g: u8| g < 8 implies (has_bit(new_mask, g) <==> partial_hit(x, y, z, g as int, k)) by {
        assert(partial_hit(x, y, z, g as int, k) <==> (partial_hit(x, y, z, g as int, k - 1) || (cond
            && g as int == f as int)));
        assert(has_bit(old_mask, g) <==> partial_hit(x, y, z, g as int, k - 1));
    }
}

/// The faces of the section that a voxel lies on, as a bit mask.
fn face_mask_for_pos(lx: usize, ry: usize, lz: usize) -> (r: u8)
    requires
        lx < 16 && ry < 16 && lz < 16,
    ensures
        r < 64,
        forall|g: u8| g < 6 ==> (has_bit(r, g) <==> face_hit(lx as int, ry as int, lz as int, g as int)),
        r == 0 <==> forall|g: int| 0 <= g < 6 ==> !face_hit(lx as int, ry as int, lz as int, g),
{
    let ghost (x, y, z) = (lx as int, ry as int, lz as int);
    let mut mask = 0u8;
    proof {
        assert forall|g: u8| g < 8 implies (has_bit(mask, g) <==> partial_hit(x, y, z, g as int, 0)) by {
            lemma_bit_zero(g);
        }
    }
    let ghost m0 = mask;
    if ry == 0 {
        mask = mask | (1u8 << 4u8);
    }
    proof { lemma_mask_step(m0, mask, ry == 0, 4, x, y, z, 1); }
    let ghost m1 = mask;
    if ry == 15 {
        mask = mask | (1u8 << 5u8);
    }
    proof { lemma_mask_step(m1, mask, ry == 15, 5, x, y, z, 2); }
    let ghost m2 = mask;
    if lx == 0 {
        mask = mask | (1u8 << 2u8);
    }
    proof { lemma_mask_step(m2, mask, lx == 0, 2, x, y, z, 3); }
    let ghost m3 = mask;
    if lx == 15 {
        mask = mask | (1u8 << 3u8);
    }
    proof { lemma_mask_step(m3, mask, lx == 15, 3, x, y, z, 4); }
    let ghost m4 = mask;
    if lz == 0 {
        mask = mask | (1u8 << 1u8);
    }
    proof { lemma_mask_step(m4, mask, lz == 0, 1, x, y, z, 5); }
    let ghost m5 = mask;
    if lz == 15 {
        mask = mask | (1u8 << 0u8);
    }
    proof {
        lemma_mask_step(m5, mask, lz == 15, 0, x, y, z, 6);
        assert forall|g: u8| g < 6 implies (has_bit(mask, g) <==> face_hit(x, y, z, g as int)) by {
        }
        if mask == 0 {
            assert forall|g: int| 0 <= g < 6 implies !face_hit(x, y, z, g) by {
                lemma_bit_zero(g as u8);
                assert(has_bit(mask, g as u8) <==> face_hit(x, y, z, g));
            }
        }
        if forall|g: int| 0 <= g < 6 ==> !face_hit(x, y, z, g) {
            assert forall|g: u8| g < 6 implies has_bit(mask, g) == has_bit(0u8, g) by {
                lemma_bit_zero(g);
                assert(!face_hit(x, y, z, g as int));
            }
            lemma_mask_ext(mask, 0);
        }
    }
    mask
}

proof fn add_bit_facts(mask: u8, f: u8)
    requires
        f < 6,
        mask < 64,
    ensures
        (mask | (1u8 << f)) < 64,
        forall|g: u8| g < 8 ==> (has_bit(mask | (1u8 << f), g) <==> (has_bit(mask, g) || g == f)),
{
    lemma_single_bound(f);
    lemma_six_bits_bound(mask, 1u8 << f);
    assert forall|g: u8| g < 8 implies (has_bit(mask | (1u8 << f), g) <==> (has_bit(mask, g) || g
        == f)) by {
        lemma_bit_or(mask, 1u8 << f, g);
        lemma_bit_single(f, g);
    }
}

/// Voxels `a` and `b` of a section are face neighbours exactly when `b` is one of the six
/// index offsets of `a` that stay inside the section.
proof fn lemma_adjacent_cases(a: int, b: int)
    requires
        adjacent(a, b),
    ensures
        (sec_x(a) > 0 && b == a - 1) || (sec_x(a) < 15 && b == a + 1) || (sec_y(a) > 0 && b == a
            - 256) || (sec_y(a) < 15 && b == a + 256) || (sec_z(a) > 0 && b == a - 16) || (sec_z(a)
            < 15 && b == a + 16),
{
    lemma_encode(a);
    lemma_encode(b);
}

proof fn lemma_neighbor_offsets(a: int)
    requires
        in_sec(a),
    ensures
        sec_x(a) > 0 ==> adjacent(a, a - 1),
        sec_x(a) < 15 ==> adjacent(a, a + 1),
        sec_y(a) > 0 ==> adjacent(a, a - 256),
        sec_y(a) < 15 ==> adjacent(a, a + 256),
        sec_z(a) > 0 ==> adjacent(a, a - 16),
        sec_z(a) < 15 ==> adjacent(a, a + 16),
{
    lemma_encode(a);
    let (x, y, z) = (sec_x(a), sec_y(a), sec_z(a));
    if x > 0 { lemma_decode(x - 1, y, z); }
    if x < 15 { lemma_decode(x + 1, y, z); }
    if y > 0 { lemma_decode(x, y - 1, z); }
    if y < 15 { lemma_decode(x, y + 1, z); }
    if z > 0 { lemma_decode(x, y, z - 1); }
    if z < 15 { lemma_decode(x, y, z + 1); }
}

/// Some processed-queue voxel lies on face `g`.
pub open spec fn queue_touches(q: Seq<usize>, n: int, g: int) -> bool {
    exists|k: int| 0 <= k < n && #[trigger] on_face(q[k] as int, g)
}

/// The voxel `v` sits among the first `n` queue entries.
pub open spec fn in_queue(q: Seq<usize>, n: int, v: int) -> bool {
    exists|k: int| 0 <= k < n && #[trigger] q[k] as int == v
}

/// Some visited voxel on face `f` reaches a voxel on face `g`.
pub open spec fn visited_sees(c: Chunk, base: int, vis: Seq<bool>, f: int, g: int) -> bool {
    exists|a: int, b: int|
        #![trigger reach(c, base, a, b)]
        in_sec(a) && vis[a] && on_face(a, f) && on_face(b, g) && reach(c, base, a, b)
}

/// The state of a flood fill from `s` over the voxels not in `old_vis`: `q` lists the
/// voxels marked so far (all reachable from `s`), and the first `h` of them have had their
/// neighbours marked.
pub open spec fn flood_state(
    c: Chunk,
    base: int,
    old_vis: Seq<bool>,
    s: int,
    vis: Seq<bool>,
    q: Seq<usize>,
    h: int,
) -> bool {
    &&& old_vis.len() == 4096
    &&& vis.len() == 4096
    &&& in_sec(s)
    &&& !old_vis[s]
    &&& q.len() > 0
    &&& q[0] as int == s
    &&& 0 <= h <= q.len()
    &&& count_true(vis, 4096) == count_true(old_vis, 4096) + q.len()
    &&& forall|k: int| 0 <= k < q.len() ==> in_sec(#[trigger] q[k] as int) && reach(c, base, s, q[k] as int)
    &&& forall|v: int| in_sec(v) ==> (#[trigger] vis[v] <==> (old_vis[v] || in_queue(q, q.len() as int, v)))
    &&& forall|v: int, w: int|
        #![trigger adjacent(v, w), vis[w]]
        in_sec(v) && (old_vis[v] || in_queue(q, h, v)) && adjacent(v, w) && open_voxel(c, base, w) ==> vis[w]
}

/// Marks voxel `n`, a neighbour of the reachable voxel `cur`, and appends it to the queue
/// when it is unvisited and open.
fn visit(
    chunk: &Chunk,
    y_start: usize,
    visited: &mut Vec<bool>,
    queue: &mut Vec<usize>,
    n: usize,
    Ghost(old_vis): Ghost<Seq<bool>>,
    Ghost(s): Ghost<int>,
    Ghost(h): Ghost<int>,
    Ghost(cur): Ghost<int>,
)
    requires
        chunk.wf(),
        y_start + 16 <= 128,
        flood_state(*chunk, y_start as int, old_vis, s, old(visited)@, old(queue)@, h),
        reach(*chunk, y_start as int, s, cur),
        adjacent(cur, n as int),
    ensures
        flood_state(*chunk, y_start as int, old_vis, s, final(visited)@, final(queue)@, h),
        forall|v: int| 0 <= v < 4096 && old(visited)@[v] ==> #[trigger] final(visited)@[v],
        final(queue)@.len() >= old(queue)@.len(),
        forall|k: int| 0 <= k < old(queue)@.len() ==> #[trigger] final(queue)@[k] == old(queue)@[k],
        final(visited)@[n as int] || !open_voxel(*chunk, y_start as int, n as int),
{
    let ghost c = *chunk;
    let ghost base = y_start as int;
    let lx = n % 16;
    let lz = (n / 16) % 16;
    let ry = n / 256;
    assert(ry < 16) by (nonlinear_arith)
        requires
            ry == n / 256,
            n < 4096,
    ;
    if !visited[n] && !chunk.get_fast(lx, y_start + ry, lz).is_opaque() {
        let ghost v0 = visited@;
        let ghost q0 = queue@;
        proof {
            lemma_count_update(v0, 4096, n as int);
            lemma_reach_step(c, base, s, cur, n as int);
        }
        visited.set(n, true);
        queue.push(n);
        proof {
            assert forall|v: int| in_sec(v) implies (#[trigger] visited@[v] <==> (old_vis[v] || in_queue(queue@, queue@.len() as int, v))) by {
                if in_queue(q0, q0.len() as int, v) {
                    let k = choose|k: int| 0 <= k < q0.len() && #[trigger] q0[k] as int == v;
                    assert(queue@[k] == q0[k]);
                }
                if v == n {
                    assert(queue@[q0.len() as int] as int == v);
                }
                if in_queue(queue@, queue@.len() as int, v) {
                    let k = choose|k: int| 0 <= k < queue@.len() && #[trigger] queue@[k] as int == v;
                    if k < q0.len() {
                        assert(q0[k] as int == v);
                    }
                }
            }
            assert forall|v: int, w: int|
                #![trigger adjacent(v, w), visited@[w]]
                in_sec(v) && (old_vis[v] || in_queue(queue@, h, v)) && adjacent(v, w) && open_voxel(c, base, w) implies visited@[w] by {
                if in_queue(queue@, h, v) {
                    let k = choose|k: int| 0 <= k < h && #[trigger] queue@[k] as int == v;
                    assert(q0[k] as int == v);
                    assert(in_queue(q0, h, v));
                }
                assert(v0[w]);
            }
            assert forall|k: int| 0 <= k < queue@.len() implies in_sec(#[trigger] queue@[k] as int) && reach(c, base, s, queue@[k] as int) by {
                if k < q0.len() {
                    assert(queue@[k] == q0[k]);
                }
            }
        }
    }
}

/// What the flood fill of one air component establishes, once its queue is exhausted.
proof fn lemma_component_done(
    c: Chunk,
    base: int,
    old_vis: Seq<bool>,
    vis: Seq<bool>,
    q: Seq<usize>,
    s: int,
)
    requires
        old_vis.len() == 4096,
        vis.len() == 4096,
        closed_set(c, base, old_vis),
        forall|v: int| in_sec(v) && old_vis[v] ==> open_voxel(c, base, v),
        !old_vis[s],
        in_sec(s),
        q.len() > 0,
        q[0] as int == s,
        forall|v: int| in_sec(v) ==> (vis[v] <==> (old_vis[v] || in_queue(q, q.len() as int, v))),
        forall|k: int| 0 <= k < q.len() ==> in_sec(#[trigger] q[k] as int) && reach(c, base, s, q[k] as int),
        forall|v: int, w: int|
            #![trigger adjacent(v, w), vis[w]]
            in_sec(v) && (old_vis[v] || in_queue(q, q.len() as int, v)) && adjacent(v, w) && open_voxel(c, base, w) ==> vis[w],
    ensures
        closed_set(c, base, vis),
        forall|b: int| #[trigger] reach(c, base, s, b) ==> in_queue(q, q.len() as int, b) && !old_vis[b],
{
    assert forall|v: int, w: int|
        #![trigger vis[v], adjacent(v, w)]
        in_sec(v) && vis[v] && adjacent(v, w) && open_voxel(c, base, w) implies vis[w] by {
    }
    assert forall|b: int| #[trigger] reach(c, base, s, b) implies in_queue(q, q.len() as int, b) && !old_vis[b] by {
        let p = choose|p: Seq<int>| #[trigger] is_path(c, base, p) && p[0] == s && p[p.len() - 1] == b;
        // s itself is visited: it is reachable from s only through itself
        lemma_reach_refl_in(c, base, s, p);
        assert(q[0] as int == s);
        assert(in_queue(q, q.len() as int, s));
        assert(vis[s]);
        lemma_closed_reach(c, base, vis, s, b);
        assert(in_sec(b));
        if old_vis[b] {
            lemma_reach_sym(c, base, s, b);
            lemma_closed_reach(c, base, old_vis, b, s);
        }
    }
}

/// The first voxel of a path starting at `s` is `s`, which is therefore open; when the
/// queue's facts say `s` is in the queue, it is visited.
proof fn lemma_reach_refl_in(c: Chunk, base: int, s: int, p: Seq<int>)
    requires
        is_path(c, base, p),
        p[0] == s,
    ensures
        open_voxel(c, base, s),
{
    assert(open_voxel(c, base, p[0]));
}

/// Merging a finished air component into the masks: each face the component touches now
/// sees every face the component touches.
proof fn lemma_component_merge(
    c: Chunk,
    base: int,
    old_vis: Seq<bool>,
    vis: Seq<bool>,
    q: Seq<usize>,
    s: int,
    cf: u8,
    old_mask: Seq<u8>,
    new_mask: Seq<u8>,
)
    requires
        old_vis.len() == 4096,
        vis.len() == 4096,
        forall|b: int| #[trigger] reach(c, base, s, b) ==> in_queue(q, q.len() as int, b) && !old_vis[b],
        forall|k: int| 0 <= k < q.len() ==> in_sec(#[trigger] q[k] as int) && reach(c, base, s, q[k] as int),
        forall|v: int| in_sec(v) ==> (vis[v] <==> (old_vis[v] || in_queue(q, q.len() as int, v))),
        cf < 64,
        forall|g: u8| g < 6 ==> (has_bit(cf, g) <==> queue_touches(q, q.len() as int, g as int)),
        old_mask.len() == 6,
        new_mask.len() == 6,
        forall|f: int| 0 <= f < 6 ==> #[trigger] old_mask[f] < 64,
        forall|f: int, g: int|
            #![trigger has_bit(old_mask[f], g as u8)]
            0 <= f < 6 && 0 <= g < 6 ==> (has_bit(old_mask[f], g as u8) <==> visited_sees(c, base, old_vis, f, g)),
        forall|f: int|
            0 <= f < 6 ==> #[trigger] new_mask[f] == if has_bit(cf, f as u8) {
                old_mask[f] | cf
            } else {
                old_mask[f]
            },
    ensures
        forall|f: int| 0 <= f < 6 ==> #[trigger] new_mask[f] < 64,
        forall|f: int, g: int|
            #![trigger has_bit(new_mask[f], g as u8)]
            0 <= f < 6 && 0 <= g < 6 ==> (has_bit(new_mask[f], g as u8) <==> visited_sees(c, base, vis, f, g)),
{
    assert forall|f: int| 0 <= f < 6 implies #[trigger] new_mask[f] < 64 by {
        lemma_six_bits_bound(old_mask[f], cf);
    }
    assert forall|f: int, g: int|
        #![trigger has_bit(new_mask[f], g as u8)]
        0 <= f < 6 && 0 <= g < 6 implies (has_bit(new_mask[f], g as u8) <==> visited_sees(c, base, vis, f, g)) by {
        lemma_bit_or(old_mask[f], cf, g as u8);
        let both = has_bit(cf, f as u8) && has_bit(cf, g as u8);
        assert(has_bit(new_mask[f], g as u8) <==> (has_bit(old_mask[f], g as u8) || both));
        if visited_sees(c, base, old_vis, f, g) {
            let (a, b) = choose|a: int, b: int|
                #![trigger reach(c, base, a, b)]
                in_sec(a) && old_vis[a] && on_face(a, f) && on_face(b, g) && reach(c, base, a, b);
            assert(vis[a]);
            assert(visited_sees(c, base, vis, f, g));
        }
        if both {
            assert(queue_touches(q, q.len() as int, f));
            assert(queue_touches(q, q.len() as int, g));
            let k1 = choose|k: int| 0 <= k < q.len() && #[trigger] on_face(q[k] as int, f);
            let k2 = choose|k: int| 0 <= k < q.len() && #[trigger] on_face(q[k] as int, g);
            let a = q[k1] as int;
            let b = q[k2] as int;
            assert(reach(c, base, s, a));
            assert(reach(c, base, s, b));
            lemma_reach_sym(c, base, s, a);
            lemma_reach_trans(c, base, a, s, b);
            assert(in_queue(q, q.len() as int, a));
            assert(vis[a]);
            assert(visited_sees(c, base, vis, f, g));
        }
        if visited_sees(c, base, vis, f, g) {
            let (a, b) = choose|a: int, b: int|
                #![trigger reach(c, base, a, b)]
                in_sec(a) && vis[a] && on_face(a, f) && on_face(b, g) && reach(c, base, a, b);
            if old_vis[a] {
                assert(visited_sees(c, base, old_vis, f, g));
            } else {
                assert(in_queue(q, q.len() as int, a));
                let k = choose|k: int| 0 <= k < q.len() && #[trigger] q[k] as int == a;
                assert(reach(c, base, s, a));
                lemma_reach_trans(c, base, s, a, b);
                assert(in_queue(q, q.len() as int, b));
                let k2 = choose|k: int| 0 <= k < q.len() && #[trigger] q[k] as int == b;
                assert(on_face(q[k] as int, f));
                assert(on_face(q[k2] as int, g));
                assert(queue_touches(q, q.len() as int, f));
                assert(queue_touches(q, q.len() as int, g));
            }
        }
    }
}

/// A voxel on each face, used to witness that an all-open section sees everything.
spec fn face_witness(g: int) -> int {
    if g == 0 { local_index(0, 0, 15) }
    else if g == 3 { local_index(15, 0, 0) }
    else if g == 5 { local_index(0, 15, 0) }
    else { 0 }
}

proof fn lemma_face_witness(g: int)
    requires
        0 <= g < 6,
    ensures
        on_face(face_witness(g), g),
{
    lemma_decode(0, 0, 15);
    lemma_decode(15, 0, 0);
    lemma_decode(0, 15, 0);
    lemma_decode(0, 0, 0);
}

/// After all six neighbours of the voxel at queue position `h` were visited, the flood
/// state holds with `h + 1` processed voxels.
proof fn lemma_flood_advance(
    c: Chunk,
    base: int,
    old_vis: Seq<bool>,
    s: int,
    q0: Seq<usize>,
    vis: Seq<bool>,
    q: Seq<usize>,
    h: int,
    cur: int,
    vis_a: Seq<bool>,
    vis_b: Seq<bool>,
    vis_c: Seq<bool>,
    vis_d: Seq<bool>,
    vis_e: Seq<bool>,
)
    requires
        flood_state(c, base, old_vis, s, vis, q, h),
        0 <= h < q0.len(),
        q.len() >= q0.len(),
        forall|k: int| 0 <= k < q0.len() ==> #[trigger] q[k] == q0[k],
        cur == q0[h] as int,
        in_sec(cur),
        vis_a.len() == 4096 && vis_b.len() == 4096 && vis_c.len() == 4096 && vis_d.len() == 4096 && vis_e.len() == 4096,
        sec_x(cur) > 0 ==> (vis_a[cur - 1] || !open_voxel(c, base, cur - 1)),
        sec_x(cur) < 15 ==> (vis_b[cur + 1] || !open_voxel(c, base, cur + 1)),
        sec_y(cur) > 0 ==> (vis_c[cur - 256] || !open_voxel(c, base, cur - 256)),
        sec_y(cur) < 15 ==> (vis_d[cur + 256] || !open_voxel(c, base, cur + 256)),
        sec_z(cur) > 0 ==> (vis_e[cur - 16] || !open_voxel(c, base, cur - 16)),
        sec_z(cur) < 15 ==> (vis[cur + 16] || !open_voxel(c, base, cur + 16)),
        forall|v: int| 0 <= v < 4096 && vis_a[v] ==> #[trigger] vis_b[v],
        forall|v: int| 0 <= v < 4096 && vis_b[v] ==> #[trigger] vis_c[v],
        forall|v: int| 0 <= v < 4096 && vis_c[v] ==> #[trigger] vis_d[v],
        forall|v: int| 0 <= v < 4096 && vis_d[v] ==> #[trigger] vis_e[v],
        forall|v: int| 0 <= v < 4096 && vis_e[v] ==> #[trigger] vis[v],
    ensures
        flood_state(c, base, old_vis, s, vis, q, h + 1),
{
    assert forall|v: int, w: int|
        #![trigger adjacent(v, w), vis[w]]
        in_sec(v) && (old_vis[v] || in_queue(q, h + 1, v)) && adjacent(v, w) && open_voxel(c, base, w) implies vis[w] by {
        if !old_vis[v] && !in_queue(q, h, v) {
            let k = choose|k: int| 0 <= k < h + 1 && #[trigger] q[k] as int == v;
            if k < h {
                assert(in_queue(q, h, v));
            }
            assert(v == cur);
            lemma_adjacent_cases(cur, w);
        }
    }
}

/// Flood-fills the air component of `start` (unvisited and open), marking every voxel
/// of it visited and listing them in `queue`; returns the faces the component touches.
fn flood_component(
    chunk: &Chunk,
    y_start: usize,
    visited: &mut Vec<bool>,
    queue: &mut Vec<usize>,
    start: usize,
) -> (component_faces: u8)
    requires
        chunk.wf(),
        y_start + 16 <= 128,
        old(visited)@.len() == 4096,
        start < 4096,
        !old(visited)@[start as int],
        open_voxel(*chunk, y_start as int, start as int),
        closed_set(*chunk, y_start as int, old(visited)@),
        forall|v: int| in_sec(v) && old(visited)@[v] ==> open_voxel(*chunk, y_start as int, v),
    ensures
        final(visited)@.len() == 4096,
        final(queue)@.len() > 0,
        final(queue)@[0] as int == start,
        forall|k: int| 0 <= k < final(queue)@.len() ==> in_sec(#[trigger] final(queue)@[k] as int) && reach(*chunk, y_start as int, start as int, final(queue)@[k] as int),
        forall|v: int| in_sec(v) ==> (#[trigger] final(visited)@[v] <==> (old(visited)@[v] || in_queue(final(queue)@, final(queue)@.len() as int, v))),
        forall|v: int, w: int|
            #![trigger adjacent(v, w), final(visited)@[w]]
            in_sec(v) && (old(visited)@[v] || in_queue(final(queue)@, final(queue)@.len() as int, v)) && adjacent(v, w) && open_voxel(*chunk, y_start as int, w) ==> final(visited)@[w],
        component_faces < 64,
        forall|g: u8| g < 6 ==> (has_bit(component_faces, g) <==> queue_touches(final(queue)@, final(queue)@.len() as int, g as int)),
{
    let ghost c = *chunk;
    let ghost base = y_start as int;
    let ghost old_vis = visited@;
    let ghost s = start as int;
    proof {
        lemma_count_bounds(old_vis, 4096);
        lemma_count_update(old_vis, 4096, s);
        lemma_reach_refl(c, base, s);
    }
    visited.set(start, true);
    queue.clear();
    queue.push(start);
    let mut head: usize = 0;
    let mut component_faces: u8 = 0;
    proof {
        assert forall|g: u8| g < 6 implies (has_bit(component_faces, g) <==> queue_touches(queue@, head as int, g as int)) by {
            lemma_bit_zero(g);
        }
        assert forall|v: int| in_sec(v) implies (visited@[v] <==> (old_vis[v] || in_queue(queue@, queue@.len() as int, v))) by {
            if v == s {
                assert(queue@[0] as int == s);
            }
        }
    }
    while head < queue.len()
        invariant
            chunk.wf(),
            y_start + 16 <= 128,
            base == y_start,
            c == *chunk,
            open_voxel(c, base, s),
            closed_set(c, base, old_vis),
            forall|v: int| in_sec(v) && old_vis[v] ==> open_voxel(c, base, v),
            flood_state(c, base, old_vis, s, visited@, queue@, head as int),
            component_faces < 64,
            forall|g: u8| g < 6 ==> (has_bit(component_faces, g) <==> queue_touches(queue@, head as int, g as int)),
        decreases 4096 - head,
    {
        proof {
            lemma_count_bounds(visited@, 4096);
            lemma_count_bounds(old_vis, 4096);
        }
        let cur = queue[head];
        let ghost q0 = queue@;
        let ghost h0 = head as int;
        let ghost cf0 = component_faces;
        let ghost vis0 = visited@;
        head += 1;
        let clx = cur % 16;
        let clz = (cur / 16) % 16;
        let cry = cur / 256;
        proof {
            lemma_encode(cur as int);
            lemma_neighbor_offsets(cur as int);
        }
        let cur_faces = face_mask_for_pos(clx, cry, clz);
        component_faces = component_faces | cur_faces;
        proof {
            lemma_six_bits_bound(cf0, cur_faces);
            assert forall|g: u8| g < 6 implies (has_bit(component_faces, g) <==> queue_touches(queue@, head as int, g as int)) by {
                lemma_bit_or(cf0, cur_faces, g);
                if queue_touches(queue@, head as int, g as int) {
                    let k = choose|k: int| 0 <= k < head && #[trigger] on_face(queue@[k] as int, g as int);
                    if k < h0 {
                        assert(queue_touches(q0, h0, g as int));
                    }
                }
                if has_bit(cur_faces, g) {
                    assert(on_face(queue@[h0] as int, g as int));
                }
                if queue_touches(q0, h0, g as int) {
                    let k = choose|k: int| 0 <= k < h0 && #[trigger] on_face(q0[k] as int, g as int);
                    assert(on_face(queue@[k] as int, g as int));
                }
            }
            assert(reach(c, base, s, cur as int));
        }
        let ghost cf1 = component_faces;
        if clx > 0 {
            visit(chunk, y_start, visited, queue, cur - 1, Ghost(old_vis), Ghost(s), Ghost(h0), Ghost(cur as int));
        }
        let ghost vis_a = visited@;
        if clx < 15 {
            visit(chunk, y_start, visited, queue, cur + 1, Ghost(old_vis), Ghost(s), Ghost(h0), Ghost(cur as int));
        }
        let ghost vis_b = visited@;
        if cry > 0 {
            visit(chunk, y_start, visited, queue, cur - 256, Ghost(old_vis), Ghost(s), Ghost(h0), Ghost(cur as int));
        }
        let ghost vis_c = visited@;
        if cry < 15 {
            visit(chunk, y_start, visited, queue, cur + 256, Ghost(old_vis), Ghost(s), Ghost(h0), Ghost(cur as int));
        }
        let ghost vis_d = visited@;
        if clz > 0 {
            visit(chunk, y_start, visited, queue, cur - 16, Ghost(old_vis), Ghost(s), Ghost(h0), Ghost(cur as int));
        }
        let ghost vis_e = visited@;
        if clz < 15 {
            visit(chunk, y_start, visited, queue, cur + 16, Ghost(old_vis), Ghost(s), Ghost(h0), Ghost(cur as int));
        }
        proof {
            lemma_flood_advance(c, base, old_vis, s, q0, visited@, queue@, h0, cur as int, vis_a, vis_b, vis_c, vis_d, vis_e);
            assert forall|g: u8| g < 6 implies (has_bit(component_faces, g) <==> queue_touches(queue@, head as int, g as int)) by {
                if queue_touches(queue@, head as int, g as int) {
                    let k = choose|k: int| 0 <= k < head && #[trigger] on_face(queue@[k] as int, g as int);
                    assert(queue@[k] == q0[k]);
                }
                if queue_touches(q0, head as int, g as int) {
                    let k = choose|k: int| 0 <= k < head && #[trigger] on_face(q0[k] as int, g as int);
                    assert(queue@[k] == q0[k]);
                    assert(on_face(queue@[k] as int, g as int));
                }
            }
        }
    }
    component_faces
}

/// Computes the directional connectivity graph for a 16x16x16 sub-chunk section.
///
/// Flood-fills the air (non-opaque) components that touch the outer faces of the section
/// and records, for each face, the faces reachable from it through air.
pub fn compute_section_connectivity(chunk: &Chunk, section_y: usize) -> (r: SectionConnectivity)
    requires
        chunk.wf(),
        section_y < 8,
    ensures
        connectivity_of(*chunk, section_y * 16, r),
{
    let y_start = section_y * SECTION_HEIGHT;
    let ghost c = *chunk;
    let ghost base = y_start as int;

    // Preliminary scan for fully solid or fully empty sections.
    let mut solid_count: usize = 0;
    let mut i: usize = 0;
    while i < TOTAL_VOXELS
        invariant
            chunk.wf(),
            y_start + 16 <= 128,
            base == y_start,
            c == *chunk,
            i <= 4096,
            solid_count == opaque_count(c, base, i as int),
            solid_count <= i,
        decreases 4096 - i,
    {
        let lx = i % 16;
        let lz = (i / 16) % 16;
        let ry = i / 256;
        assert(ry < 16) by (nonlinear_arith)
            requires
                ry == i / 256,
                i < 4096,
        ;
        if chunk.get_fast(lx, y_start + ry, lz).is_opaque() {
            solid_count += 1;
        }
        i += 1;
    }
    proof {
        lemma_opaque_count(c, base, 4096);
    }

    if solid_count == TOTAL_VOXELS {
        let r = SectionConnectivity { mask: [0u8, 0u8, 0u8, 0u8, 0u8, 0u8], is_solid: true, is_empty: false };
        proof {
            assert(all_opaque(c, base));
            assert(!all_open(c, base)) by {
                assert(!open_voxel(c, base, 0));
            }
            assert forall|f: int, g: int|
                #![trigger has_bit(r.mask@[f], g as u8)]
                #![trigger sees(c, base, f, g)]
                0 <= f < 6 && 0 <= g < 6 implies (has_bit(r.mask@[f], g as u8) <==> sees(c, base, f, g)) by {
                lemma_bit_zero(g as u8);
                if sees(c, base, f, g) {
                    let (a, b) = choose|a: int, b: int|
                        #![trigger reach(c, base, a, b)]
                        on_face(a, f) && on_face(b, g) && reach(c, base, a, b);
                    let p = choose|p: Seq<int>| #[trigger] is_path(c, base, p) && p[0] == a && p[p.len() - 1] == b;
                    assert(open_voxel(c, base, p[0]));
                }
            }
        }
        return r;
    }

    if solid_count == 0 {
        let r = SectionConnectivity::full();
        proof {
            assert(all_open(c, base));
            assert(!all_opaque(c, base)) by {
                assert(open_voxel(c, base, 0));
            }
            assert forall|f: int, g: int|
                #![trigger has_bit(r.mask@[f], g as u8)]
                #![trigger sees(c, base, f, g)]
                0 <= f < 6 && 0 <= g < 6 implies (has_bit(r.mask@[f], g as u8) <==> sees(c, base, f, g)) by {
                lemma_full_bits(g as u8);
                lemma_face_witness(f);
                lemma_face_witness(g);
                lemma_all_open_reach(c, base, face_witness(f), face_witness(g));
            }
        }
        return r;
    }

    let mut visited: Vec<bool> = Vec::with_capacity(TOTAL_VOXELS);
    let mut i: usize = 0;
    while i < TOTAL_VOXELS
        invariant
            i <= 4096,
            visited@.len() == i,
            forall|j: int| 0 <= j < i ==> !#[trigger] visited@[j],
        decreases 4096 - i,
    {
        visited.push(false);
        i += 1;
    }
    let mut queue: Vec<usize> = Vec::with_capacity(TOTAL_VOXELS);
    let mut connectivity = SectionConnectivity::default();
    proof {
        assert forall|f: int, g: int|
            #![trigger has_bit(connectivity.mask@[f], g as u8)]
            0 <= f < 6 && 0 <= g < 6 implies (has_bit(connectivity.mask@[f], g as u8) <==> visited_sees(c, base, visited@, f, g)) by {
            lemma_bit_zero(g as u8);
        }
        assert(closed_set(c, base, visited@));
    }

    let mut start: usize = 0;
    while start < TOTAL_VOXELS
        invariant
            chunk.wf(),
            y_start + 16 <= 128,
            base == y_start,
            c == *chunk,
            start <= 4096,
            visited@.len() == 4096,
            connectivity.mask@.len() == 6,
            !connectivity.is_solid,
            !connectivity.is_empty,
            forall|v: int| in_sec(v) && #[trigger] visited@[v] ==> open_voxel(c, base, v),
            closed_set(c, base, visited@),
            forall|v: int, g: int|
                #![trigger visited@[v], on_face(v, g)]
                0 <= v < start && 0 <= g < 6 && on_face(v, g) && open_voxel(c, base, v) ==> visited@[v],
            forall|f: int| 0 <= f < 6 ==> #[trigger] connectivity.mask@[f] < 64,
            forall|f: int, g: int|
                #![trigger has_bit(connectivity.mask@[f], g as u8)]
                0 <= f < 6 && 0 <= g < 6 ==> (has_bit(connectivity.mask@[f], g as u8) <==> visited_sees(c, base, visited@, f, g)),
        decreases 4096 - start,
    {
        let lx = start % 16;
        let lz = (start / 16) % 16;
        let ry = start / 256;
        proof {
            lemma_encode(start as int);
        }
        let fmask = face_mask_for_pos(lx, ry, lz);
        if fmask != 0 && !visited[start] && !chunk.get_fast(lx, y_start + ry, lz).is_opaque() {
            let ghost old_vis = visited@;
            let ghost s = start as int;
            let ghost old_mask = connectivity.mask@;
            let component_faces = flood_component(chunk, y_start, &mut visited, &mut queue, start);
            proof {
                lemma_component_done(c, base, old_vis, visited@, queue@, s);
            }
            let mut f: usize = 0;
            while f < 6
                invariant
                    f <= 6,
                    connectivity.mask@.len() == 6,
                    !connectivity.is_solid,
                    !connectivity.is_empty,
                    forall|j: int| 0 <= j < f ==> #[trigger] connectivity.mask@[j] == if has_bit(component_faces, j as u8) {
                        old_mask[j] | component_faces
                    } else {
                        old_mask[j]
                    },
                    forall|j: int| f <= j < 6 ==> #[trigger] connectivity.mask@[j] == old_mask[j],
                decreases 6 - f,
            {
                if component_faces & (1u8 << (f as u8)) != 0 {
                    let m = connectivity.mask[f] | component_faces;
                    connectivity.mask[f] = m;
                }
                f += 1;
            }
            proof {
                lemma_component_merge(c, base, old_vis, visited@, queue@, s, component_faces, old_mask, connectivity.mask@);
            }
        }
        start += 1;
    }
    connectivity
}

} // verus!
