use vstd::prelude::*;
use crate::block::Block;
use crate::grid::{Grid, grid_view, in_grid};

verus! {

/// A piece: four pre-computed rotation states of four blocks each.
#[derive(Clone, Copy, Debug)]
pub struct Shape {
    pub base_rotations: [[Block; 4]; 4],
}

/// `grid` with every cell of `shape`, placed with the given pose, marked as settled.
pub open spec fn placed(
    grid: Seq<Seq<bool>>,
    shape: Shape,
    rotations: int,
    x_diff: int,
    y_diff: int,
) -> Seq<Seq<bool>> {
    Seq::new(
        10,
        |x: int| Seq::new(20, |y: int| grid[x][y] || shape.covers(rotations, x_diff, y_diff, x, y)),
    )
}

impl Shape {
    /// Block `k` of rotation state `rotations % 4`.
    pub open spec fn block(self, rotations: int, k: int) -> Block {
        self.base_rotations[rotations % 4][k]
    }

    /// Column of block `k` when the piece is placed with the given pose.
    pub open spec fn cell_x(self, rotations: int, k: int, x_diff: int) -> int {
        self.block(rotations, k).x + x_diff
    }

    /// Row of block `k` when the piece is placed with the given pose.
    pub open spec fn cell_y(self, rotations: int, k: int, y_diff: int) -> int {
        self.block(rotations, k).y + y_diff
    }

    pub open spec fn block_in_grid(self, rotations: int, k: int, x_diff: int, y_diff: int) -> bool {
        in_grid(self.cell_x(rotations, k, x_diff), self.cell_y(rotations, k, y_diff))
    }

    /// Every block of the rotation state lies on the grid.
    pub open spec fn fits(self, rotations: int, x_diff: int, y_diff: int) -> bool {
        &&& self.block_in_grid(rotations, 0, x_diff, y_diff)
        &&& self.block_in_grid(rotations, 1, x_diff, y_diff)
        &&& self.block_in_grid(rotations, 2, x_diff, y_diff)
        &&& self.block_in_grid(rotations, 3, x_diff, y_diff)
    }

    pub open spec fn block_at_cell(
        self,
        rotations: int,
        k: int,
        x_diff: int,
        y_diff: int,
        x: int,
        y: int,
    ) -> bool {
        self.cell_x(rotations, k, x_diff) == x && self.cell_y(rotations, k, y_diff) == y
    }

    /// One of the first `n` blocks of the placed rotation state is at `(x, y)`.
    pub open spec fn covers_first(
        self,
        rotations: int,
        x_diff: int,
        y_diff: int,
        x: int,
        y: int,
        n: int,
    ) -> bool
        decreases n,
    {
        if n <= 0 {
            false
        } else {
            self.covers_first(rotations, x_diff, y_diff, x, y, n - 1) || self.block_at_cell(
                rotations,
                n - 1,
                x_diff,
                y_diff,
                x,
                y,
            )
        }
    }

    /// Some block of the placed rotation state is at `(x, y)`.
    pub open spec fn covers(self, rotations: int, x_diff: int, y_diff: int, x: int, y: int) -> bool {
        ||| self.block_at_cell(rotations, 0, x_diff, y_diff, x, y)
        ||| self.block_at_cell(rotations, 1, x_diff, y_diff, x, y)
        ||| self.block_at_cell(rotations, 2, x_diff, y_diff, x, y)
        ||| self.block_at_cell(rotations, 3, x_diff, y_diff, x, y)
    }

    pub open spec fn block_on_dead(self, grid: Seq<Seq<bool>>, rotations: int, k: int, x_diff: int, y_diff: int) -> bool {
        grid[self.cell_x(rotations, k, x_diff)][self.cell_y(rotations, k, y_diff)]
    }

    /// Some block of the placed rotation state lies on a settled cell.
    pub open spec fn hits(self, grid: Seq<Seq<bool>>, rotations: int, x_diff: int, y_diff: int) -> bool {
        ||| self.block_on_dead(grid, rotations, 0, x_diff, y_diff)
        ||| self.block_on_dead(grid, rotations, 1, x_diff, y_diff)
        ||| self.block_on_dead(grid, rotations, 2, x_diff, y_diff)
        ||| self.block_on_dead(grid, rotations, 3, x_diff, y_diff)
    }

    /// Every block of every rotation state lies on the grid at the spawn pose.
    pub open spec fn wf(self) -> bool {
        forall|r: int, k: int|
            0 <= r < 4 && 0 <= k < 4 ==> in_grid(
                #[trigger] self.base_rotations[r][k].x as int,
                self.base_rotations[r][k].y as int,
            )
    }

    /// Rotation state `r` holds the blocks `(x0, y0)` to `(x3, y3)`, in this order.
    pub open spec fn rotation_is(
        self,
        r: int,
        x0: i8,
        y0: i8,
        x1: i8,
        y1: i8,
        x2: i8,
        y2: i8,
        x3: i8,
        y3: i8,
    ) -> bool {
        &&& self.base_rotations[r][0] == Block { x: x0, y: y0 }
        &&& self.base_rotations[r][1] == Block { x: x1, y: y1 }
        &&& self.base_rotations[r][2] == Block { x: x2, y: y2 }
        &&& self.base_rotations[r][3] == Block { x: x3, y: y3 }
    }

    /// The block table of [`Shape::o`].
    pub open spec fn is_o(self) -> bool {
        &&& self.rotation_is(0, 4, 0, 5, 0, 4, 1, 5, 1)
        &&& self.rotation_is(1, 4, 0, 5, 0, 4, 1, 5, 1)
        &&& self.rotation_is(2, 4, 0, 5, 0, 4, 1, 5, 1)
        &&& self.rotation_is(3, 4, 0, 5, 0, 4, 1, 5, 1)
    }

    /// The block table of [`Shape::s`].
    pub open spec fn is_s(self) -> bool {
        &&& self.rotation_is(0, 4, 0, 5, 0, 3, 1, 4, 1)
        &&& self.rotation_is(1, 4, 0, 4, 1, 5, 1, 5, 2)
        &&& self.rotation_is(2, 4, 1, 5, 1, 3, 2, 4, 2)
        &&& self.rotation_is(3, 3, 0, 3, 1, 4, 1, 4, 2)
    }

    /// The block table of [`Shape::z`].
    pub open spec fn is_z(self) -> bool {
        &&& self.rotation_is(0, 3, 0, 4, 0, 4, 1, 5, 1)
        &&& self.rotation_is(1, 5, 0, 5, 1, 4, 1, 4, 2)
        &&& self.rotation_is(2, 3, 1, 4, 1, 4, 2, 5, 2)
        &&& self.rotation_is(3, 4, 0, 4, 1, 3, 1, 3, 2)
    }

    /// The block table of [`Shape::t`].
    pub open spec fn is_t(self) -> bool {
        &&& self.rotation_is(0, 4, 0, 3, 1, 4, 1, 5, 1)
        &&& self.rotation_is(1, 4, 0, 4, 1, 4, 2, 5, 1)
        &&& self.rotation_is(2, 4, 2, 3, 1, 4, 1, 5, 1)
        &&& self.rotation_is(3, 4, 0, 3, 1, 4, 1, 4, 2)
    }

    /// The block table of [`Shape::l`].
    pub open spec fn is_l(self) -> bool {
        &&& self.rotation_is(0, 5, 0, 3, 1, 4, 1, 5, 1)
        &&& self.rotation_is(1, 4, 0, 4, 1, 4, 2, 5, 2)
        &&& self.rotation_is(2, 3, 2, 3, 1, 4, 1, 5, 1)
        &&& self.rotation_is(3, 3, 0, 4, 0, 4, 1, 4, 2)
    }

    /// The block table of [`Shape::j`].
    pub open spec fn is_j(self) -> bool {
        &&& self.rotation_is(0, 3, 0, 3, 1, 4, 1, 5, 1)
        &&& self.rotation_is(1, 4, 0, 5, 0, 4, 1, 4, 2)
        &&& self.rotation_is(2, 5, 2, 3, 1, 4, 1, 5, 1)
        &&& self.rotation_is(3, 4, 0, 3, 2, 4, 1, 4, 2)
    }

    /// The block table of [`Shape::i`].
    pub open spec fn is_i(self) -> bool {
        &&& self.rotation_is(0, 3, 1, 4, 1, 5, 1, 6, 1)
        &&& self.rotation_is(1, 5, 0, 5, 1, 5, 2, 5, 3)
        &&& self.rotation_is(2, 3, 2, 4, 2, 5, 2, 6, 2)
        &&& self.rotation_is(3, 4, 0, 4, 1, 4, 2, 4, 3)
    }

    fn new(base_rotations: [[Block; 4]; 4]) -> (s: Shape)
        ensures
            s.base_rotations == base_rotations,
    {
        Shape { base_rotations }
    }


    /// Whether the piece, placed with the given pose, has a block at `(x, y)`.
    pub fn has_block_at(&self, x: i8, y: i8, rotations: usize, x_diff: i8, y_diff: i8) -> (r: bool)
        ensures
            r == self.covers(rotations as int, x_diff as int, y_diff as int, x as int, y as int),
    {
        let blocks = &self.base_rotations[rotations % 4];
        let mut k: usize = 0;
        while k < 4
            invariant
                k <= 4,
                *blocks == self.base_rotations[rotations as int % 4],
                forall|j: int|
                    0 <= j < k ==> !#[trigger] self.block_at_cell(
                        rotations as int,
                        j,
                        x_diff as int,
                        y_diff as int,
                        x as int,
                        y as int,
                    ),
            decreases 4 - k,
        {
            let block = blocks[k];
            if block.x as i16 + x_diff as i16 == x as i16 && block.y as i16 + y_diff as i16
                == y as i16 {
                return true;
            }
            k = k + 1;
        }
        assert(!self.block_at_cell(rotations as int, 0, x_diff as int, y_diff as int, x as int, y as int));
        assert(!self.block_at_cell(rotations as int, 1, x_diff as int, y_diff as int, x as int, y as int));
        assert(!self.block_at_cell(rotations as int, 2, x_diff as int, y_diff as int, x as int, y as int));
        assert(!self.block_at_cell(rotations as int, 3, x_diff as int, y_diff as int, x as int, y as int));
        false
    }

    /// Whether some block of the piece, placed with the given pose, lies off the grid.
    pub fn is_off_grid(&self, rotations: usize, x_diff: i8, y_diff: i8) -> (r: bool)
        ensures
            r == !self.fits(rotations as int, x_diff as int, y_diff as int),
    {
        let blocks = &self.base_rotations[rotations % 4];
        let mut k: usize = 0;
        while k < 4
            invariant
                k <= 4,
                *blocks == self.base_rotations[rotations as int % 4],
                forall|j: int|
                    0 <= j < k ==> #[trigger] self.block_in_grid(
                        rotations as int,
                        j,
                        x_diff as int,
                        y_diff as int,
                    ),
            decreases 4 - k,
        {
            let block = blocks[k];
            let x = block.x as i16 + x_diff as i16;
            let y = block.y as i16 + y_diff as i16;
            if x > 9 || x < 0 || y > 19 || y < 0 {
                return true;
            }
            k = k + 1;
        }
        assert(self.block_in_grid(rotations as int, 0, x_diff as int, y_diff as int));
        assert(self.block_in_grid(rotations as int, 1, x_diff as int, y_diff as int));
        assert(self.block_in_grid(rotations as int, 2, x_diff as int, y_diff as int));
        assert(self.block_in_grid(rotations as int, 3, x_diff as int, y_diff as int));
        false
    }

    /// Whether the piece, placed on the grid with the given pose, lies on a settled cell.
    pub fn intersects(&self, grid: &Grid, rotations: usize, x_diff: i8, y_diff: i8) -> (r: bool)
        requires
            self.fits(rotations as int, x_diff as int, y_diff as int),
        ensures
            r == self.hits(grid_view(*grid), rotations as int, x_diff as int, y_diff as int),
    {
        let blocks = &self.base_rotations[rotations % 4];
        let mut k: usize = 0;
        while k < 4
            invariant
                k <= 4,
                *blocks == self.base_rotations[rotations as int % 4],
                self.fits(rotations as int, x_diff as int, y_diff as int),
                forall|j: int|
                    0 <= j < k ==> !#[trigger] self.block_on_dead(
                        grid_view(*grid),
                        rotations as int,
                        j,
                        x_diff as int,
                        y_diff as int,
                    ),
            decreases 4 - k,
        {
            let block = blocks[k];
            assert(self.block_in_grid(rotations as int, k as int, x_diff as int, y_diff as int));
            let x = (block.x as i16 + x_diff as i16) as usize;
            let y = (block.y as i16 + y_diff as i16) as usize;
            if grid[x][y] {
                return true;
            }
            k = k + 1;
        }
        assert(!self.block_on_dead(grid_view(*grid), rotations as int, 0, x_diff as int, y_diff as int));
        assert(!self.block_on_dead(grid_view(*grid), rotations as int, 1, x_diff as int, y_diff as int));
        assert(!self.block_on_dead(grid_view(*grid), rotations as int, 2, x_diff as int, y_diff as int));
        assert(!self.block_on_dead(grid_view(*grid), rotations as int, 3, x_diff as int, y_diff as int));
        false
    }

    /// Marks every cell of the piece, placed with the given pose, as settled.
    pub fn apply_to(&self, grid: &mut Grid, rotations: usize, x_diff: i8, y_diff: i8)
        requires
            self.fits(rotations as int, x_diff as int, y_diff as int),
        ensures
            grid_view(*final(grid)) == placed(grid_view(*old(grid)), *self, rotations as int, x_diff as int, y_diff as int),
    {
        let blocks = &self.base_rotations[rotations % 4];
        let mut k: usize = 0;
        while k < 4
            invariant
                k <= 4,
                *blocks == self.base_rotations[rotations as int % 4],
                self.fits(rotations as int, x_diff as int, y_diff as int),
                forall|x: int, y: int|
                    in_grid(x, y) ==> #[trigger] grid[x][y] == (old(grid)[x][y]
                        || self.covers_first(rotations as int, x_diff as int, y_diff as int, x, y, k as int)),
            decreases 4 - k,
        {
            let block = blocks[k];
            assert(self.block_in_grid(rotations as int, k as int, x_diff as int, y_diff as int));
            let x = (block.x as i16 + x_diff as i16) as usize;
            let y = (block.y as i16 + y_diff as i16) as usize;
            grid[x][y] = true;
            k = k + 1;
        }
        assert forall|x: int, y: int| in_grid(x, y) implies #[trigger] grid[x][y] == (old(grid)[x][y]
            || self.covers(rotations as int, x_diff as int, y_diff as int, x, y)) by {
            reveal_with_fuel(Shape::covers_first, 5);
        }
        assert(grid_view(*grid) =~~= placed(grid_view(*old(grid)), *self, rotations as int, x_diff as int, y_diff as int));
    }

    /// The square piece.
    pub fn o() -> (s: Shape)
        ensures
            s.wf(),
            s.is_o(),
    {
        Shape::new([
            [Block::new(4, 0), Block::new(5, 0), Block::new(4, 1), Block::new(5, 1)],
            [Block::new(4, 0), Block::new(5, 0), Block::new(4, 1), Block::new(5, 1)],
            [Block::new(4, 0), Block::new(5, 0), Block::new(4, 1), Block::new(5, 1)],
            [Block::new(4, 0), Block::new(5, 0), Block::new(4, 1), Block::new(5, 1)],
        ])
    }

    /// The S piece.
    pub fn s() -> (s: Shape)
        ensures
            s.wf(),
            s.is_s(),
    {
        Shape::new([
            [Block::new(4, 0), Block::new(5, 0), Block::new(3, 1), Block::new(4, 1)],
            [Block::new(4, 0), Block::new(4, 1), Block::new(5, 1), Block::new(5, 2)],
            [Block::new(4, 1), Block::new(5, 1), Block::new(3, 2), Block::new(4, 2)],
            [Block::new(3, 0), Block::new(3, 1), Block::new(4, 1), Block::new(4, 2)],
        ])
    }

    /// The Z piece, mirror of the S piece.
    pub fn z() -> (s: Shape)
        ensures
            s.wf(),
            s.is_z(),
    {
        Shape::new([
            [Block::new(3, 0), Block::new(4, 0), Block::new(4, 1), Block::new(5, 1)],
            [Block::new(5, 0), Block::new(5, 1), Block::new(4, 1), Block::new(4, 2)],
            [Block::new(3, 1), Block::new(4, 1), Block::new(4, 2), Block::new(5, 2)],
            [Block::new(4, 0), Block::new(4, 1), Block::new(3, 1), Block::new(3, 2)],
        ])
    }

    /// The T piece.
    pub fn t() -> (s: Shape)
        ensures
            s.wf(),
            s.is_t(),
    {
        Shape::new([
            [Block::new(4, 0), Block::new(3, 1), Block::new(4, 1), Block::new(5, 1)],
            [Block::new(4, 0), Block::new(4, 1), Block::new(4, 2), Block::new(5, 1)],
            [Block::new(4, 2), Block::new(3, 1), Block::new(4, 1), Block::new(5, 1)],
            [Block::new(4, 0), Block::new(3, 1), Block::new(4, 1), Block::new(4, 2)],
        ])
    }

    /// The L piece.
    pub fn l() -> (s: Shape)
        ensures
            s.wf(),
            s.is_l(),
    {
        Shape::new([
            [Block::new(5, 0), Block::new(3, 1), Block::new(4, 1), Block::new(5, 1)],
            [Block::new(4, 0), Block::new(4, 1), Block::new(4, 2), Block::new(5, 2)],
            [Block::new(3, 2), Block::new(3, 1), Block::new(4, 1), Block::new(5, 1)],
            [Block::new(3, 0), Block::new(4, 0), Block::new(4, 1), Block::new(4, 2)],
        ])
    }

    /// The J piece, mirror of the L piece.
    pub fn j() -> (s: Shape)
        ensures
            s.wf(),
            s.is_j(),
    {
        Shape::new([
            [Block::new(3, 0), Block::new(3, 1), Block::new(4, 1), Block::new(5, 1)],
            [Block::new(4, 0), Block::new(5, 0), Block::new(4, 1), Block::new(4, 2)],
            [Block::new(5, 2), Block::new(3, 1), Block::new(4, 1), Block::new(5, 1)],
            [Block::new(4, 0), Block::new(3, 2), Block::new(4, 1), Block::new(4, 2)],
        ])
    }

    /// The four-long bar piece.
    pub fn i() -> (s: Shape)
        ensures
            s.wf(),
            s.is_i(),
    {
        Shape::new([
            [Block::new(3, 1), Block::new(4, 1), Block::new(5, 1), Block::new(6, 1)],
            [Block::new(5, 0), Block::new(5, 1), Block::new(5, 2), Block::new(5, 3)],
            [Block::new(3, 2), Block::new(4, 2), Block::new(5, 2), Block::new(6, 2)],
            [Block::new(4, 0), Block::new(4, 1), Block::new(4, 2), Block::new(4, 3)],
        ])
    }
}

} // verus!
