use vstd::prelude::*;

use crate::block::BlockType;
use crate::chunk::Chunk;
use crate::mesher::greedy::blk;
use crate::mesher::helpers::{simplify_block_for_lod, spec_simplify_block_for_lod};

verus! {

/// The height a column's seabed is taken to have when it holds nothing but water and air.
pub const DEFAULT_SEABED_HEIGHT: usize = 56;

/// The highest height at or below `y` of a column holding a non-air block.
pub open spec fn top_from(c: Seq<BlockType>, x: int, z: int, y: int) -> Option<int>
    decreases y + 1,
{
    if y < 0 {
        None
    } else if blk(c, x, y, z) != BlockType::Air {
        Some(y)
    } else {
        top_from(c, x, z, y - 1)
    }
}

/// The highest height at or below `y` of a column holding a block that is neither air
/// nor water.
pub open spec fn seabed_from(c: Seq<BlockType>, x: int, z: int, y: int) -> Option<int>
    decreases y + 1,
{
    if y < 0 {
        None
    } else if blk(c, x, y, z) != BlockType::Air && blk(c, x, y, z) != BlockType::Water {
        Some(y)
    } else {
        seabed_from(c, x, z, y - 1)
    }
}

/// What the simplified mesher keeps of one column: the height just above its highest
/// block and that block simplified (0 and air for an empty column), and the same for its
/// highest block that is not water (a default sandy floor when there is none).
#[derive(Clone, Copy, Debug, PartialEq, Eq, Structural)]
pub struct ColumnSample {
    pub height: usize,
    pub block: BlockType,
    pub seabed_height: usize,
    pub seabed_block: BlockType,
}

/// The sample of column `(x, z)` up to height `max_y`.
pub open spec fn column_sample(c: Seq<BlockType>, x: int, z: int, max_y: int) -> ColumnSample {
    let (height, block) = match top_from(c, x, z, max_y) {
        Some(y) => ((y + 1) as usize, spec_simplify_block_for_lod(blk(c, x, y, z))),
        None => (0usize, BlockType::Air),
    };
    let (seabed_height, seabed_block) = match seabed_from(c, x, z, max_y) {
        Some(y) => ((y + 1) as usize, spec_simplify_block_for_lod(blk(c, x, y, z))),
        None => (DEFAULT_SEABED_HEIGHT, BlockType::Sand),
    };
    ColumnSample { height, block, seabed_height, seabed_block }
}

/// Samples column `(x, z)` of a chunk from height `max_y` down.
pub fn sample_column(chunk: &Chunk, x: usize, z: usize, max_y: usize) -> (r: ColumnSample)
    requires
        chunk.wf(),
        x < 16 && z < 16 && max_y < 128,
    ensures
        r == column_sample(chunk.blocks@, x as int, z as int, max_y as int),
{
    let ghost c = chunk.blocks@;
    let mut top: Option<(usize, BlockType)> = None;
    let mut y: usize = max_y + 1;
    while y > 0
        invariant
            chunk.wf(),
            c == chunk.blocks@,
            x < 16 && z < 16 && max_y < 128,
            y <= max_y + 1,
            match top {
                None => top_from(c, x as int, z as int, max_y as int) == top_from(c, x as int, z as int, y - 1)
                    && seabed_from(c, x as int, z as int, max_y as int) == seabed_from(c, x as int, z as int, y - 1),
                Some((h, b)) => top_from(c, x as int, z as int, max_y as int) == Some(h - 1)
                    && 1 <= h <= max_y + 1
                    && b == spec_simplify_block_for_lod(blk(c, x as int, h - 1, z as int))
                    && seabed_from(c, x as int, z as int, max_y as int) == seabed_from(c, x as int, z as int, y - 1),
            },
        decreases y,
    {
        let ly = y - 1;
        let raw = chunk.get_fast(x, ly, z);
        if raw != BlockType::Air {
            let simplified = simplify_block_for_lod(raw);
            if top.is_none() {
                top = Some((ly + 1, simplified));
            }
            if raw != BlockType::Water {
                let (height, block) = match top {
                    Some(t) => t,
                    None => (0, BlockType::Air),
                };
                return ColumnSample { height, block, seabed_height: ly + 1, seabed_block: simplified };
            }
        }
        y -= 1;
    }
    let (height, block) = match top {
        Some(t) => t,
        None => (0, BlockType::Air),
    };
    ColumnSample { height, block, seabed_height: DEFAULT_SEABED_HEIGHT, seabed_block: BlockType::Sand }
}

/// Samples all columns of a chunk, row by row (`z`, then `x`).
pub fn sample_columns(chunk: &Chunk, max_y: usize) -> (r: Vec<ColumnSample>)
    requires
        chunk.wf(),
        max_y < 128,
    ensures
        r@.len() == 256,
        forall|x: int, z: int| 0 <= x < 16 && 0 <= z < 16 ==> #[trigger] r@[z * 16 + x]
            == column_sample(chunk.blocks@, x, z, max_y as int),
{
    let mut out: Vec<ColumnSample> = Vec::with_capacity(256);
    let mut i: usize = 0;
    while i < 256
        invariant
            chunk.wf(),
            max_y < 128,
            i <= 256,
            out@.len() == i,
            forall|j: int| 0 <= j < i ==> #[trigger] out@[j] == column_sample(chunk.blocks@, j % 16, j / 16, max_y as int),
        decreases 256 - i,
    {
        out.push(sample_column(chunk, i % 16, i / 16, max_y));
        i += 1;
    }
    proof {
        assert forall|x: int, z: int| 0 <= x < 16 && 0 <= z < 16 implies #[trigger] out@[z * 16 + x]
            == column_sample(chunk.blocks@, x, z, max_y as int) by {
            let j = z * 16 + x;
            assert(j % 16 == x && j / 16 == z);
        }
    }
    out
}

/// The height just above the highest non-air block of a column at or below `max_y`.
pub fn column_top(chunk: &Chunk, x: usize, z: usize, max_y: usize) -> (r: Option<usize>)
    requires
        chunk.wf(),
        x < 16 && z < 16 && max_y < 128,
    ensures
        r == (match top_from(chunk.blocks@, x as int, z as int, max_y as int) {
            Some(y) => Some((y + 1) as usize),
            None => None,
        }),
{
    let mut y: usize = max_y + 1;
    while y > 0
        invariant
            chunk.wf(),
            x < 16 && z < 16 && max_y < 128,
            y <= max_y + 1,
            top_from(chunk.blocks@, x as int, z as int, max_y as int) == top_from(chunk.blocks@, x as int, z as int, y - 1),
        decreases y,
    {
        if chunk.get_fast(x, y - 1, z) != BlockType::Air {
            return Some(y);
        }
        y -= 1;
    }
    None
}

/// How often `b` occurs among the first `n` blocks.
pub open spec fn occurrences(s: Seq<BlockType>, b: BlockType, n: int) -> nat
    decreases n,
{
    if n <= 0 {
        0
    } else {
        occurrences(s, b, n - 1) + if s[n - 1] == b { 1nat } else { 0nat }
    }
}

/// The block chosen after looking at the first `n` blocks, with its count: a non-air
/// block replaces the current choice only when it occurs strictly more often.
pub open spec fn dominant_upto(s: Seq<BlockType>, n: int) -> (BlockType, int)
    decreases n,
{
    if n <= 0 {
        (BlockType::Air, 0)
    } else {
        let (best, best_count) = dominant_upto(s, n - 1);
        let b = s[n - 1];
        if b != BlockType::Air && occurrences(s, b, s.len() as int) > best_count {
            (b, occurrences(s, b, s.len() as int) as int)
        } else {
            (best, best_count)
        }
    }
}

/// The most frequent non-air block of a 2 x 2 cell, the earliest on ties; air when all
/// four are air.
pub fn dominant_block(blocks: [BlockType; 4]) -> (r: BlockType)
    ensures
        r == dominant_upto(blocks@, 4).0,
{
    let ghost s = blocks@;
    let mut best = BlockType::Air;
    let mut best_count: usize = 0;
    let mut i: usize = 0;
    while i < 4
        invariant
            s == blocks@,
            s.len() == 4,
            i <= 4,
            (best, best_count as int) == dominant_upto(s, i as int),
            best_count <= 4,
        decreases 4 - i,
    {
        let b = blocks[i];
        if b != BlockType::Air {
            let mut count: usize = 0;
            let mut k: usize = 0;
            while k < 4
                invariant
                    s == blocks@,
                    s.len() == 4,
                    k <= 4,
                    count <= k,
                    count as int == occurrences(s, b, k as int),
                decreases 4 - k,
            {
                if blocks[k] == b {
                    count += 1;
                }
                k += 1;
            }
            if count > best_count {
                best_count = count;
                best = b;
            }
        }
        i += 1;
    }
    best
}

proof fn lemma_dominant_upto(s: Seq<BlockType>, n: int)
    requires
        0 <= n <= s.len(),
    ensures
        dominant_upto(s, n).0 == BlockType::Air ==> dominant_upto(s, n).1 == 0
            && forall|i: int| 0 <= i < n ==> s[i] == BlockType::Air,
        dominant_upto(s, n).0 != BlockType::Air ==> dominant_upto(s, n).1 == occurrences(
            s,
            dominant_upto(s, n).0,
            s.len() as int,
        ) && exists|i: int| 0 <= i < n && s[i] == dominant_upto(s, n).0,
        forall|i: int| 0 <= i < n && s[i] != BlockType::Air ==> occurrences(s, #[trigger] s[i], s.len() as int)
            <= dominant_upto(s, n).1,
    decreases n,
{
    if n > 0 {
        lemma_dominant_upto(s, n - 1);
        let b = s[n - 1];
        if b != BlockType::Air {
            lemma_occurrences_positive(s, n - 1, s.len() as int);
        }
    }
}

proof fn lemma_occurrences_positive(s: Seq<BlockType>, i: int, n: int)
    requires
        0 <= i < n <= s.len(),
    ensures
        occurrences(s, s[i], n) >= 1,
    decreases n,
{
    if n - 1 > i {
        lemma_occurrences_positive(s, i, n - 1);
    }
}

/// The dominant block of a cell is air only when the whole cell is air; otherwise it is
/// one of the cell's blocks and no non-air block of the cell occurs more often.
pub proof fn lemma_dominant_block(s: Seq<BlockType>)
    requires
        s.len() == 4,
    ensures
        dominant_upto(s, 4).0 == BlockType::Air <==> (forall|i: int| 0 <= i < 4 ==> s[i] == BlockType::Air),
        dominant_upto(s, 4).0 != BlockType::Air ==> exists|i: int| 0 <= i < 4 && s[i] == dominant_upto(s, 4).0,
        forall|i: int| 0 <= i < 4 && s[i] != BlockType::Air ==> occurrences(s, #[trigger] s[i], 4)
            <= occurrences(s, dominant_upto(s, 4).0, 4),
{
    lemma_dominant_upto(s, 4);
    if dominant_upto(s, 4).0 != BlockType::Air {
        let i = choose|i: int| 0 <= i < 4 && s[i] == dominant_upto(s, 4).0;
        assert(s[i] != BlockType::Air);
    }
}

} // verus!
