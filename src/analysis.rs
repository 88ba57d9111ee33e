use vstd::prelude::*;
use crate::grid::{Grid, grid_view};
use crate::tetris::Tetris;

verus! {

/// Features of the settled cells of a board, computed afresh on each call.
pub struct Analysis {
    /// Empty cells with a settled cell above them in the same column.
    pub gaps: u8,
    /// The highest column.
    pub max_height: u8,
    /// The highest of the four middle columns (3 to 6).
    pub central_columns_max_height: u8,
    /// Sum of the height differences of adjacent columns.
    pub total_neighbour_diff: u8,
    /// How far each outer column lies below its inner neighbour, where that is
    /// more than one cell.
    pub low_edges: u8,
    /// How far each column lies more than two cells below its lower neighbour.
    pub deep_hole_blocks: u8,
}

/// Height of column `x` counted from row `y` down: 20 less the row of the first
/// settled cell at or below `y`, or 0.
pub open spec fn height_from(d: Seq<Seq<bool>>, x: int, y: int) -> int
    decreases 20 - y,
{
    if y < 0 || y >= 20 {
        0
    } else if d[x][y] {
        20 - y
    } else {
        height_from(d, x, y + 1)
    }
}

/// Rows from the floor up to and including the topmost settled cell of column `x`.
pub open spec fn column_height(d: Seq<Seq<bool>>, x: int) -> int {
    height_from(d, x, 0)
}

/// Empty cells of column `x` in rows `lo` to `hi - 1`.
pub open spec fn empty_in(d: Seq<Seq<bool>>, x: int, lo: int, hi: int) -> int
    decreases hi - lo,
{
    if hi <= lo {
        0
    } else {
        empty_in(d, x, lo, hi - 1) + if d[x][hi - 1] {
            0int
        } else {
            1int
        }
    }
}

/// Empty cells of column `x` below its topmost settled cell.
pub open spec fn column_gaps(d: Seq<Seq<bool>>, x: int) -> int {
    empty_in(d, x, 20 - column_height(d, x), 20)
}

/// Gaps of columns `0` to `n - 1`.
pub open spec fn gaps_upto(d: Seq<Seq<bool>>, n: int) -> int
    decreases n,
{
    if n <= 0 {
        0
    } else {
        gaps_upto(d, n - 1) + column_gaps(d, n - 1)
    }
}

/// The highest of columns `lo` to `hi - 1`, or 0.
pub open spec fn max_height_in(d: Seq<Seq<bool>>, lo: int, hi: int) -> int
    decreases hi - lo,
{
    if hi <= lo {
        0
    } else {
        let m = max_height_in(d, lo, hi - 1);
        let h = column_height(d, hi - 1);
        if h > m {
            h
        } else {
            m
        }
    }
}

pub open spec fn abs_diff(a: int, b: int) -> int {
    if a >= b {
        a - b
    } else {
        b - a
    }
}

/// Sum of the height differences of adjacent columns among `0` to `n - 1`.
pub open spec fn neighbour_diff_upto(d: Seq<Seq<bool>>, n: int) -> int
    decreases n,
{
    if n <= 1 {
        0
    } else {
        neighbour_diff_upto(d, n - 1) + abs_diff(column_height(d, n - 1), column_height(d, n - 2))
    }
}

/// How far an outer column of height `outer` lies below its inner neighbour of
/// height `inner`, where that is more than one cell.
pub open spec fn low_edge(outer: int, inner: int) -> int {
    if inner > outer + 1 {
        inner - outer
    } else {
        0
    }
}

pub open spec fn low_edges(d: Seq<Seq<bool>>) -> int {
    low_edge(column_height(d, 0), column_height(d, 1)) + low_edge(
        column_height(d, 9),
        column_height(d, 8),
    )
}

/// The height of the lower neighbour of column `x` (the single one at an edge).
pub open spec fn lower_neighbour(d: Seq<Seq<bool>>, x: int) -> int {
    if x == 0 {
        column_height(d, 1)
    } else if x == 9 {
        column_height(d, 8)
    } else {
        let l = column_height(d, x - 1);
        let r = column_height(d, x + 1);
        if l < r {
            l
        } else {
            r
        }
    }
}

/// How far column `x` lies more than two cells below its lower neighbour.
pub open spec fn deep_hole(d: Seq<Seq<bool>>, x: int) -> int {
    let n = lower_neighbour(d, x);
    let h = column_height(d, x);
    if n > h + 2 {
        n - h - 2
    } else {
        0
    }
}

pub open spec fn deep_holes_upto(d: Seq<Seq<bool>>, n: int) -> int
    decreases n,
{
    if n <= 0 {
        0
    } else {
        deep_holes_upto(d, n - 1) + deep_hole(d, n - 1)
    }
}

proof fn lemma_height_from_empty_prefix(d: Seq<Seq<bool>>, x: int, y: int)
    requires
        0 <= y <= 20,
        forall|i: int| 0 <= i < y ==> !#[trigger] d[x][i],
    ensures
        column_height(d, x) == height_from(d, x, y),
    decreases y,
{
    if y > 0 {
        lemma_height_from_empty_prefix(d, x, y - 1);
    }
}

proof fn lemma_empty_in_bound(d: Seq<Seq<bool>>, x: int, lo: int, hi: int)
    requires
        lo <= hi,
    ensures
        0 <= empty_in(d, x, lo, hi) <= hi - lo,
    decreases hi - lo,
{
    if hi > lo {
        lemma_empty_in_bound(d, x, lo, hi - 1);
    }
}

/// Height and gaps of column `x`.
fn column_stats(grid: &Grid, x: usize) -> (r: (u32, u32))
    requires
        x < 10,
    ensures
        r.0 == column_height(grid_view(*grid), x as int),
        r.1 == column_gaps(grid_view(*grid), x as int),
        r.0 <= 20,
        r.1 <= 20,
{
    let ghost d = grid_view(*grid);
    let mut height: u32 = 0;
    let mut gaps: u32 = 0;
    let mut seen = false;
    let mut y: usize = 0;
    while y < 20
        invariant
            y <= 20,
            x < 10,
            d == grid_view(*grid),
            !seen ==> height == 0 && gaps == 0 && forall|i: int| 0 <= i < y ==> !#[trigger] d[x as int][i],
            seen ==> height == column_height(d, x as int) && 20 - height < y && gaps == empty_in(
                d,
                x as int,
                20 - height,
                y as int,
            ),
            height <= 20,
            gaps <= y,
        decreases 20 - y,
    {
        if grid[x][y] {
            if !seen {
                proof {
                    lemma_height_from_empty_prefix(d, x as int, y as int);
                }
                height = (20 - y) as u32;
                seen = true;
            }
        } else if seen {
            gaps = gaps + 1;
        }
        assert(seen ==> empty_in(d, x as int, 20 - height, y + 1) == empty_in(
            d,
            x as int,
            20 - height,
            y as int,
        ) + if d[x as int][y as int] {
            0int
        } else {
            1int
        });
        assert(seen ==> empty_in(d, x as int, y as int, y as int) == 0);
        y = y + 1;
    }
    if !seen {
        proof {
            lemma_height_from_empty_prefix(d, x as int, 20);
        }
    }
    (height, gaps)
}

/// The features of a grid of settled cells.
pub fn analyse_dead_blocks(grid: &Grid) -> (r: Analysis)
    ensures
        r.gaps == gaps_upto(grid_view(*grid), 10),
        r.max_height == max_height_in(grid_view(*grid), 0, 10),
        r.central_columns_max_height == max_height_in(grid_view(*grid), 3, 7),
        r.total_neighbour_diff == neighbour_diff_upto(grid_view(*grid), 10),
        r.low_edges == low_edges(grid_view(*grid)),
        r.deep_hole_blocks == deep_holes_upto(grid_view(*grid), 10),
{
    let ghost d = grid_view(*grid);
    let mut heights: [u32; 10] = [0; 10];
    let mut gaps: u32 = 0;
    let mut max_height: u32 = 0;
    let mut central: u32 = 0;
    let mut x: usize = 0;
    while x < 10
        invariant
            x <= 10,
            d == grid_view(*grid),
            forall|i: int| 0 <= i < x ==> #[trigger] heights[i] == column_height(d, i),
            forall|i: int| 0 <= i < x ==> #[trigger] heights[i] <= 20,
            gaps == gaps_upto(d, x as int),
            gaps <= 20 * x,
            max_height == max_height_in(d, 0, x as int),
            max_height <= 20,
            central <= 20,
            central == max_height_in(d, 3, if x < 3 { 3 } else if x > 7 { 7 } else { x as int }),
        decreases 10 - x,
    {
        let (h, g) = column_stats(grid, x);
        heights[x] = h;
        gaps = gaps + g;
        if h > max_height {
            max_height = h;
        }
        if x > 2 && x < 7 && h > central {
            central = h;
        }
        x = x + 1;
    }
    let mut diff: u32 = 0;
    let mut deep: u32 = 0;
    let mut x: usize = 0;
    while x < 10
        invariant
            x <= 10,
            d == grid_view(*grid),
            forall|i: int| 0 <= i < 10 ==> #[trigger] heights[i] == column_height(d, i),
            forall|i: int| 0 <= i < 10 ==> #[trigger] heights[i] <= 20,
            diff == neighbour_diff_upto(d, x as int),
            diff <= 20 * x,
            deep == deep_holes_upto(d, x as int),
            deep <= 20 * x,
        decreases 10 - x,
    {
        if x > 0 {
            let a = heights[x];
            let b = heights[x - 1];
            diff = diff + if a >= b { a - b } else { b - a };
        }
        let neighbour = if x == 0 {
            heights[1]
        } else if x == 9 {
            heights[8]
        } else if heights[x - 1] < heights[x + 1] {
            heights[x - 1]
        } else {
            heights[x + 1]
        };
        if neighbour > heights[x] + 2 {
            deep = deep + (neighbour - heights[x] - 2);
        }
        x = x + 1;
    }
    let mut low: u32 = 0;
    if heights[1] > heights[0] + 1 {
        low = low + heights[1] - heights[0];
    }
    if heights[8] > heights[9] + 1 {
        low = low + heights[8] - heights[9];
    }
    Analysis {
        gaps: gaps as u8,
        max_height: max_height as u8,
        central_columns_max_height: central as u8,
        total_neighbour_diff: diff as u8,
        low_edges: low as u8,
        deep_hole_blocks: deep as u8,
    }
}

/// The features of the settled cells of a board.
pub fn analyse(tetris: &Tetris) -> (r: Analysis)
    ensures
        r.gaps == gaps_upto(tetris@.dead, 10),
        r.max_height == max_height_in(tetris@.dead, 0, 10),
        r.central_columns_max_height == max_height_in(tetris@.dead, 3, 7),
        r.total_neighbour_diff == neighbour_diff_upto(tetris@.dead, 10),
        r.low_edges == low_edges(tetris@.dead),
        r.deep_hole_blocks == deep_holes_upto(tetris@.dead, 10),
{
    analyse_dead_blocks(tetris.dead_blocks())
}

} // verus!
