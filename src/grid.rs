use vstd::prelude::*;

verus! {

/// The settled cells of the playing grid, indexed by column (0 to 9) then row
/// (0 at the top to 19 at the floor).
pub type Grid = [[bool; 20]; 10];

/// Whether `(x, y)` is a cell of the grid.
pub open spec fn in_grid(x: int, y: int) -> bool {
    0 <= x < 10 && 0 <= y < 20
}

/// The grid as a sequence of columns.
pub open spec fn grid_view(g: Grid) -> Seq<Seq<bool>> {
    Seq::new(10, |x: int| g[x]@)
}

/// A sequence of 10 columns of 20 cells each.
pub open spec fn is_grid(d: Seq<Seq<bool>>) -> bool {
    d.len() == 10 && forall|x: int| 0 <= x < 10 ==> (#[trigger] d[x]).len() == 20
}

/// Every cell of row `y` is settled.
pub open spec fn row_full(d: Seq<Seq<bool>>, y: int) -> bool {
    forall|x: int| 0 <= x < 10 ==> #[trigger] d[x][y]
}

/// No row of the grid is complete.
pub open spec fn no_full_row(d: Seq<Seq<bool>>) -> bool {
    forall|y: int| 0 <= y < 20 ==> !#[trigger] row_full(d, y)
}

/// The rows from `y` down to the floor that are not complete, top first.
pub open spec fn kept_rows(d: Seq<Seq<bool>>, y: int) -> Seq<int>
    decreases 20 - y,
{
    if y >= 20 || y < 0 {
        Seq::empty()
    } else if row_full(d, y) {
        kept_rows(d, y + 1)
    } else {
        seq![y].add(kept_rows(d, y + 1))
    }
}

/// The grid after line clearing: the complete rows are removed, the rows above
/// them move down, and empty rows fill the top.
pub open spec fn cleared(d: Seq<Seq<bool>>) -> Seq<Seq<bool>> {
    let ks = kept_rows(d, 0);
    let k = 20 - ks.len();
    Seq::new(10, |x: int| Seq::new(20, |y: int| if y < k { false } else { d[x][ks[y - k]] }))
}

pub proof fn lemma_kept_rows(d: Seq<Seq<bool>>, y: int)
    requires
        0 <= y <= 20,
    ensures
        kept_rows(d, y).len() <= 20 - y,
        forall|i: int|
            0 <= i < kept_rows(d, y).len() ==> y <= #[trigger] kept_rows(d, y)[i] < 20
                && !row_full(d, kept_rows(d, y)[i]),
    decreases 20 - y,
{
    if y < 20 {
        lemma_kept_rows(d, y + 1);
    }
}

/// Line clearing leaves a grid with no complete row.
pub proof fn lemma_cleared_no_full_row(d: Seq<Seq<bool>>)
    ensures
        is_grid(cleared(d)),
        no_full_row(cleared(d)),
{
    let c = cleared(d);
    let ks = kept_rows(d, 0);
    let k = 20 - ks.len();
    lemma_kept_rows(d, 0);
    assert forall|y: int| 0 <= y < 20 implies !#[trigger] row_full(c, y) by {
        if y >= k {
            let src = ks[y - k];
            let x = choose|x: int| 0 <= x < 10 && !d[x][src];
            assert(!c[x][y]);
        } else {
            assert(!c[0][y]);
        }
    }
}

/// Whether every cell of row `y` is settled.
pub fn row_is_full(grid: &Grid, y: usize) -> (r: bool)
    requires
        y < 20,
    ensures
        r == row_full(grid_view(*grid), y as int),
{
    let mut x: usize = 0;
    while x < 10
        invariant
            x <= 10,
            y < 20,
            forall|i: int| 0 <= i < x ==> #[trigger] grid_view(*grid)[i][y as int],
        decreases 10 - x,
    {
        if !grid[x][y] {
            assert(!grid_view(*grid)[x as int][y as int]);
            return false;
        }
        x = x + 1;
    }
    true
}

/// Removes the complete rows of the grid; the rows above each one move down.
pub fn complete_lines(grid: &Grid) -> (r: Grid)
    ensures
        grid_view(r) == cleared(grid_view(*grid)),
{
    let ghost d = grid_view(*grid);
    let mut out: Grid = [[false; 20]; 10];
    let mut dst: usize = 20;
    let mut y: usize = 20;
    while y > 0
        invariant
            y <= 20,
            d == grid_view(*grid),
            dst == 20 - kept_rows(d, y as int).len(),
            y <= dst <= 20,
            forall|x: int, yy: int| 0 <= x < 10 && 0 <= yy < dst ==> !#[trigger] out[x][yy],
            forall|x: int, yy: int|
                0 <= x < 10 && dst <= yy < 20 ==> #[trigger] out[x][yy] == d[x][kept_rows(
                    d,
                    y as int,
                )[yy - dst]],
        decreases y,
    {
        y = y - 1;
        proof {
            lemma_kept_rows(d, y as int);
        }
        if !row_is_full(grid, y) {
            dst = dst - 1;
            let ghost before = out;
            let mut x: usize = 0;
            while x < 10
                invariant
                    x <= 10,
                    dst < 20,
                    y < 20,
                    forall|i: int, yy: int|
                        0 <= i < 10 && 0 <= yy < 20 && yy != dst ==> #[trigger] out[i][yy]
                            == before[i][yy],
                    forall|i: int| 0 <= i < x ==> #[trigger] out[i][dst as int] == grid[i][y as int],
                    forall|i: int| x <= i < 10 ==> #[trigger] out[i][dst as int] == before[i][dst as int],
                decreases 10 - x,
            {
                out[x][dst] = grid[x][y];
                x = x + 1;
            }
            assert(kept_rows(d, y as int) == seq![y as int].add(kept_rows(d, y + 1)));
        }
    }
    assert(grid_view(out) =~~= cleared(d));
    out
}

/// Settled cells among the first `n` cells of row `y`.
pub open spec fn count_row(d: Seq<Seq<bool>>, y: int, n: int) -> int
    decreases n,
{
    if n <= 0 {
        0
    } else {
        count_row(d, y, n - 1) + if d[n - 1][y] {
            1int
        } else {
            0int
        }
    }
}

/// Settled cells in rows `y` to 19.
pub open spec fn count_rows(d: Seq<Seq<bool>>, y: int) -> int
    decreases 20 - y,
{
    if y >= 20 || y < 0 {
        0
    } else {
        count_row(d, y, 10) + count_rows(d, y + 1)
    }
}

/// Settled cells in the whole grid.
pub open spec fn settled_count(d: Seq<Seq<bool>>) -> int {
    count_rows(d, 0)
}

/// Complete rows in the grid.
pub open spec fn full_row_count(d: Seq<Seq<bool>>) -> int {
    20 - kept_rows(d, 0).len()
}

/// Settled cells in the listed rows.
pub open spec fn count_listed(d: Seq<Seq<bool>>, rows: Seq<int>) -> int
    decreases rows.len(),
{
    if rows.len() == 0 {
        0
    } else {
        count_row(d, rows[0], 10) + count_listed(d, rows.drop_first())
    }
}

proof fn lemma_count_row_same(d1: Seq<Seq<bool>>, y1: int, d2: Seq<Seq<bool>>, y2: int, n: int)
    requires
        n <= 10,
        forall|x: int| 0 <= x < 10 ==> d1[x][y1] == d2[x][y2],
    ensures
        count_row(d1, y1, n) == count_row(d2, y2, n),
    decreases n,
{
    if n > 0 {
        lemma_count_row_same(d1, y1, d2, y2, n - 1);
    }
}

proof fn lemma_count_row_full(d: Seq<Seq<bool>>, y: int, n: int)
    requires
        n <= 10,
        row_full(d, y),
    ensures
        count_row(d, y, n) == if n < 0 { 0 } else { n },
    decreases n,
{
    if n > 0 {
        lemma_count_row_full(d, y, n - 1);
    }
}

proof fn lemma_count_row_empty(d: Seq<Seq<bool>>, y: int, n: int)
    requires
        n <= 10,
        forall|x: int| 0 <= x < 10 ==> !d[x][y],
    ensures
        count_row(d, y, n) == 0,
    decreases n,
{
    if n > 0 {
        lemma_count_row_empty(d, y, n - 1);
    }
}

/// The rows from `y` down hold the cells of their kept rows and ten per complete row.
proof fn lemma_count_kept(d: Seq<Seq<bool>>, y: int)
    requires
        0 <= y <= 20,
    ensures
        count_rows(d, y) == count_listed(d, kept_rows(d, y)) + 10 * ((20 - y) - kept_rows(
            d,
            y,
        ).len()),
    decreases 20 - y,
{
    if y < 20 {
        lemma_count_kept(d, y + 1);
        if row_full(d, y) {
            lemma_count_row_full(d, y, 10);
        } else {
            assert((seq![y].add(kept_rows(d, y + 1))).drop_first() =~= kept_rows(d, y + 1));
        }
    }
}

/// The rows of the cleared grid from `y` down.
proof fn lemma_count_cleared(d: Seq<Seq<bool>>, y: int)
    requires
        0 <= y <= 20,
    ensures
        ({
            let ks = kept_rows(d, 0);
            let k = 20 - ks.len();
            count_rows(cleared(d), y) == if y >= k {
                count_listed(d, ks.subrange(y - k, ks.len() as int))
            } else {
                count_listed(d, ks)
            }
        }),
    decreases 20 - y,
{
    let ks = kept_rows(d, 0);
    let k = 20 - ks.len();
    let c = cleared(d);
    lemma_kept_rows(d, 0);
    if y == 20 {
        assert(ks.subrange(y - k, ks.len() as int) =~= Seq::<int>::empty());
    } else {
        lemma_count_cleared(d, y + 1);
        if y >= k {
            lemma_count_row_same(c, y, d, ks[y - k], 10);
            assert(ks.subrange(y - k, ks.len() as int).drop_first() =~= ks.subrange(
                y + 1 - k,
                ks.len() as int,
            ));
            if y == k {
                assert(ks.subrange(0, ks.len() as int) =~= ks);
            }
        } else {
            lemma_count_row_empty(c, y, 10);
            if y + 1 == k {
                assert(ks.subrange(0, ks.len() as int) =~= ks);
            }
        }
    }
}

/// Line clearing removes exactly ten settled cells for each complete row and
/// leaves no complete row.
pub proof fn lemma_clear_count(d: Seq<Seq<bool>>)
    ensures
        settled_count(cleared(d)) == settled_count(d) - 10 * full_row_count(d),
        no_full_row(cleared(d)),
{
    lemma_count_kept(d, 0);
    lemma_count_cleared(d, 0);
    lemma_kept_rows(d, 0);
    let ks = kept_rows(d, 0);
    assert(ks.subrange(0, ks.len() as int) =~= ks);
    lemma_cleared_no_full_row(d);
}

proof fn lemma_kept_rows_all(d: Seq<Seq<bool>>, y: int)
    requires
        0 <= y <= 20,
        no_full_row(d),
    ensures
        kept_rows(d, y) == Seq::new((20 - y) as nat, |i: int| y + i),
    decreases 20 - y,
{
    if y < 20 {
        lemma_kept_rows_all(d, y + 1);
        assert(!row_full(d, y));
        assert(kept_rows(d, y) =~= Seq::new((20 - y) as nat, |i: int| y + i));
    } else {
        assert(kept_rows(d, y) =~= Seq::new((20 - y) as nat, |i: int| y + i));
    }
}

/// Clearing a grid that has no complete row changes nothing, so clearing twice
/// is clearing once.
pub proof fn lemma_clear_idempotent(d: Seq<Seq<bool>>)
    requires
        is_grid(d),
    ensures
        no_full_row(d) ==> cleared(d) == d,
        cleared(cleared(d)) == cleared(d),
{
    lemma_cleared_no_full_row(d);
    let c = cleared(d);
    lemma_kept_rows_all(c, 0);
    assert(cleared(c) =~~= c);
    if no_full_row(d) {
        lemma_kept_rows_all(d, 0);
        assert(cleared(d) =~~= d);
    }
}

} // verus!
