use vstd::prelude::*;
use crate::grid::{row_full, Grid, grid_view, is_grid, no_full_row, cleared, complete_lines, in_grid, lemma_cleared_no_full_row};
use crate::shape::{Shape, placed};

verus! {

/// A command for the falling piece.
#[derive(Clone, Copy, Debug, PartialEq, Eq, Structural)]
pub enum Action {
    Left,
    Right,
    Rotate,
    Down,
    Drop,
}

/// What applying an [`Action`] did.
#[derive(Clone, Copy, Debug, PartialEq, Eq, Structural)]
pub enum ActionResult {
    /// The piece took the new pose.
    Moved,
    /// The piece settled and the next one appeared at its spawn pose.
    NextShape,
    /// The piece settled and the next one does not fit at its spawn pose.
    GameOver,
    /// The new pose is off the grid or overlaps settled cells; nothing changed.
    Invalid,
}

/// The mathematical state of a board.
pub struct TetrisView {
    /// The catalog that pieces are drawn from.
    pub shapes: Seq<Shape>,
    /// Catalog index of the falling piece.
    pub current: int,
    /// Catalog index of the piece that appears when the falling one settles.
    pub next: int,
    pub rotations: int,
    pub x_diff: int,
    pub y_diff: int,
    /// Settled cells, by column then row.
    pub dead: Seq<Seq<bool>>,
    /// The game has ended: no piece is falling.
    pub over: bool,
}

/// A grid with no settled cell.
pub open spec fn empty_grid() -> Seq<Seq<bool>> {
    Seq::new(10, |x: int| Seq::new(20, |y: int| false))
}

impl TetrisView {
    pub open spec fn shape(self) -> Shape {
        self.shapes[self.current]
    }

    /// The falling piece, in the given pose, lies on the grid and on no settled cell.
    pub open spec fn pose_ok(self, rotations: int, x_diff: int, y_diff: int) -> bool {
        &&& self.shape().fits(rotations, x_diff, y_diff)
        &&& !self.shape().hits(self.dead, rotations, x_diff, y_diff)
    }

    pub open spec fn wf(self) -> bool {
        &&& self.shapes.len() > 0
        &&& forall|i: int| 0 <= i < self.shapes.len() ==> (#[trigger] self.shapes[i]).wf()
        &&& 0 <= self.current < self.shapes.len()
        &&& 0 <= self.next < self.shapes.len()
        &&& 0 <= self.rotations < 4
        &&& is_grid(self.dead)
        &&& no_full_row(self.dead)
        &&& !self.over ==> self.pose_ok(self.rotations, self.x_diff, self.y_diff)
    }

    /// The board as a scorer sees it: everything but the piece that follows the
    /// next one, which is still to be drawn.
    pub open spec fn seen(self) -> TetrisView {
        TetrisView { next: 0, ..self }
    }

    /// A settled cell or a cell of the falling piece is at `(x, y)`.
    pub open spec fn occupied(self, x: int, y: int) -> bool {
        ||| self.dead[x][y]
        ||| !self.over && self.shape().covers(self.rotations, self.x_diff, self.y_diff, x, y)
    }

    pub open spec fn with_pose(self, rotations: int, x_diff: int, y_diff: int) -> TetrisView {
        TetrisView { rotations, x_diff, y_diff, ..self }
    }

    /// Takes the pose if it is free, else reports it invalid.
    pub open spec fn try_pose(self, rotations: int, x_diff: int, y_diff: int) -> (TetrisView, ActionResult) {
        if self.pose_ok(rotations, x_diff, y_diff) {
            (self.with_pose(rotations, x_diff, y_diff), ActionResult::Moved)
        } else {
            (self, ActionResult::Invalid)
        }
    }

    /// The falling piece becomes settled cells, complete rows are cleared, the
    /// next piece appears at its spawn pose and `fresh` is drawn as the one after it.
    pub open spec fn settle(self, fresh: int) -> (TetrisView, ActionResult) {
        let dead = cleared(placed(self.dead, self.shape(), self.rotations, self.x_diff, self.y_diff));
        let spawned = TetrisView {
            current: self.next,
            next: fresh,
            rotations: 0,
            x_diff: 0,
            y_diff: 0,
            dead,
            over: false,
            ..self
        };
        if spawned.pose_ok(0, 0, 0) {
            (spawned, ActionResult::NextShape)
        } else {
            (TetrisView { over: true, ..spawned }, ActionResult::GameOver)
        }
    }

    /// One row down, or settle where that pose is not free.
    pub open spec fn soft_drop(self, fresh: int) -> (TetrisView, ActionResult) {
        if self.pose_ok(self.rotations, self.x_diff, self.y_diff + 1) {
            (self.with_pose(self.rotations, self.x_diff, self.y_diff + 1), ActionResult::Moved)
        } else {
            self.settle(fresh)
        }
    }

    /// Soft drops until one of them does not move the piece. On a well-formed
    /// board a soft drop that moves the piece lowers it by one row and keeps it
    /// above row 20, so the bound on `y_diff` below never stops the recursion
    /// early; it only makes the recursion visibly finite.
    pub open spec fn hard_drop(self, fresh: int) -> (TetrisView, ActionResult)
        decreases 20 - self.y_diff,
    {
        let w = self.soft_drop(fresh);
        if w.1 is Moved && self.y_diff < w.0.y_diff <= 20 {
            w.0.hard_drop(fresh)
        } else {
            w
        }
    }

    /// The board and result after `action`, where `fresh` is the catalog index
    /// drawn for the piece after the next one, should a piece settle.
    pub open spec fn step(self, action: Action, fresh: int) -> (TetrisView, ActionResult) {
        if self.over {
            (self, ActionResult::GameOver)
        } else {
            match action {
                Action::Left => self.try_pose(self.rotations, self.x_diff - 1, self.y_diff),
                Action::Right => self.try_pose(self.rotations, self.x_diff + 1, self.y_diff),
                Action::Rotate => self.try_pose((self.rotations + 1) % 4, self.x_diff, self.y_diff),
                Action::Down => self.soft_drop(fresh),
                Action::Drop => self.hard_drop(fresh),
            }
        }
    }
}

/// Relies on rand's `Uniform` sampled from `thread_rng`: an index drawn uniformly
/// from `0..count` (it panics on an empty range).
#[verifier::external_body]
fn random_index(count: usize) -> (r: usize)
    requires
        count > 0,
    ensures
        r < count,
{
    rand::distributions::Distribution::sample(
        &rand::distributions::Uniform::from(0..count),
        &mut rand::thread_rng(),
    )
}

/// A board: the settled cells and the falling piece.
pub struct Tetris {
    shapes: Vec<Shape>,
    current_shapes_index: usize,
    next_shapes_index: usize,
    current_shape_rotations: usize,
    current_shape_x_diff: i8,
    current_shape_y_diff: i8,
    dead_blocks: Grid,
    game_over: bool,
}

impl View for Tetris {
    type V = TetrisView;

    closed spec fn view(&self) -> TetrisView {
        TetrisView {
            shapes: self.shapes@,
            current: self.current_shapes_index as int,
            next: self.next_shapes_index as int,
            rotations: self.current_shape_rotations as int,
            x_diff: self.current_shape_x_diff as int,
            y_diff: self.current_shape_y_diff as int,
            dead: grid_view(self.dead_blocks),
            over: self.game_over,
        }
    }
}

impl Tetris {
    pub open spec fn wf(&self) -> bool {
        self@.wf()
    }

    /// A board with the seven canonical pieces and nothing settled; the first
    /// two pieces are drawn at random.
    pub fn new() -> (t: Tetris)
        ensures
            t.wf(),
            t@.shapes.len() == 7,
            t@.shapes[0].is_o() && t@.shapes[1].is_s() && t@.shapes[2].is_z() && t@.shapes[3].is_t(),
            t@.shapes[4].is_l() && t@.shapes[5].is_j() && t@.shapes[6].is_i(),
            t@.dead == empty_grid(),
            t@.rotations == 0 && t@.x_diff == 0 && t@.y_diff == 0,
            !t@.over,
    {
        Tetris::new_with_custom_shapes(
            vec![Shape::o(), Shape::s(), Shape::z(), Shape::t(), Shape::l(), Shape::j(), Shape::i()],
        )
    }

    /// A board that draws its pieces at random from `shapes`, with nothing settled.
    pub fn new_with_custom_shapes(shapes: Vec<Shape>) -> (t: Tetris)
        requires
            shapes@.len() > 0,
            forall|i: int| 0 <= i < shapes@.len() ==> (#[trigger] shapes@[i]).wf(),
        ensures
            t.wf(),
            t@.shapes == shapes@,
            t@.dead == empty_grid(),
            t@.rotations == 0 && t@.x_diff == 0 && t@.y_diff == 0,
            !t@.over,
    {
        let first = random_index(shapes.len());
        let second = random_index(shapes.len());
        Tetris::new_with_pieces(shapes, first, second)
    }

    /// A board with nothing settled, whose falling piece is `shapes[first]` at its
    /// spawn pose and whose next piece is `shapes[second]`.
    pub fn new_with_pieces(shapes: Vec<Shape>, first: usize, second: usize) -> (t: Tetris)
        requires
            shapes@.len() > 0,
            forall|i: int| 0 <= i < shapes@.len() ==> (#[trigger] shapes@[i]).wf(),
            first < shapes@.len(),
            second < shapes@.len(),
        ensures
            t.wf(),
            t@ == (TetrisView {
                shapes: shapes@,
                current: first as int,
                next: second as int,
                rotations: 0,
                x_diff: 0,
                y_diff: 0,
                dead: empty_grid(),
                over: false,
            }),
    {
        let t = Tetris {
            shapes,
            current_shapes_index: first,
            next_shapes_index: second,
            current_shape_rotations: 0,
            current_shape_x_diff: 0,
            current_shape_y_diff: 0,
            dead_blocks: [[false; 20]; 10],
            game_over: false,
        };
        assert(t@.dead =~~= empty_grid());
        proof {
            lemma_spawn_fits(t@.shape());
            assert forall|y: int| 0 <= y < 20 implies !#[trigger] row_full(t@.dead, y) by {
                assert(!t@.dead[0][y]);
            }
        }
        t
    }

    /// Whether a settled cell or a cell of the falling piece is at `(x, y)`.
    pub fn block_at(&self, x: i8, y: i8) -> (r: bool)
        requires
            self.wf(),
            in_grid(x as int, y as int),
        ensures
            r == self@.occupied(x as int, y as int),
    {
        let is_dead_block = self.dead_blocks[x as usize][y as usize];
        let is_current_shape = !self.game_over && self.shapes[self.current_shapes_index].has_block_at(
            x,
            y,
            self.current_shape_rotations,
            self.current_shape_x_diff,
            self.current_shape_y_diff,
        );
        is_dead_block || is_current_shape
    }

    /// The settled cells.
    pub fn dead_blocks(&self) -> (r: &Grid)
        ensures
            grid_view(*r) == self@.dead,
    {
        &self.dead_blocks
    }

    /// Whether the game has ended.
    pub fn is_over(&self) -> (r: bool)
        ensures
            r == self@.over,
    {
        self.game_over
    }

    /// An independent copy of the board.
    pub fn duplicate(&self) -> (r: Tetris)
        ensures
            r@ == self@,
    {
        let mut shapes: Vec<Shape> = Vec::new();
        let mut i: usize = 0;
        while i < self.shapes.len()
            invariant
                i <= self.shapes@.len(),
                shapes@ == self.shapes@.subrange(0, i as int),
            decreases self.shapes@.len() - i,
        {
            shapes.push(self.shapes[i]);
            i = i + 1;
            assert(shapes@ =~= self.shapes@.subrange(0, i as int));
        }
        assert(shapes@ =~= self.shapes@);
        Tetris {
            shapes,
            current_shapes_index: self.current_shapes_index,
            next_shapes_index: self.next_shapes_index,
            current_shape_rotations: self.current_shape_rotations,
            current_shape_x_diff: self.current_shape_x_diff,
            current_shape_y_diff: self.current_shape_y_diff,
            dead_blocks: self.dead_blocks,
            game_over: self.game_over,
        }
    }

    /// Whether the falling piece, in the given pose, lies on the grid and on no
    /// settled cell.
    fn pose_is_free(&self, rotations: usize, x_diff: i8, y_diff: i8) -> (r: bool)
        requires
            0 <= self@.current < self@.shapes.len(),
        ensures
            r == self@.pose_ok(rotations as int, x_diff as int, y_diff as int),
    {
        let shape = &self.shapes[self.current_shapes_index];
        !shape.is_off_grid(rotations, x_diff, y_diff) && !shape.intersects(
            &self.dead_blocks,
            rotations,
            x_diff,
            y_diff,
        )
    }

    /// Takes the pose if it is free.
    fn try_pose(&mut self, rotations: usize, x_diff: i8, y_diff: i8) -> (r: ActionResult)
        requires
            old(self).wf(),
            !old(self)@.over,
            rotations < 4,
        ensures
            final(self).wf(),
            (final(self)@, r) == old(self)@.try_pose(rotations as int, x_diff as int, y_diff as int),
    {
        if self.pose_is_free(rotations, x_diff, y_diff) {
            self.current_shape_rotations = rotations;
            self.current_shape_x_diff = x_diff;
            self.current_shape_y_diff = y_diff;
            ActionResult::Moved
        } else {
            ActionResult::Invalid
        }
    }

    /// Settles the falling piece, clears complete rows and brings in the next piece.
    fn settle(&mut self, fresh: usize) -> (r: ActionResult)
        requires
            old(self).wf(),
            !old(self)@.over,
            fresh < old(self)@.shapes.len(),
        ensures
            final(self).wf(),
            (final(self)@, r) == old(self)@.settle(fresh as int),
    {
        let shape = self.shapes[self.current_shapes_index];
        shape.apply_to(
            &mut self.dead_blocks,
            self.current_shape_rotations,
            self.current_shape_x_diff,
            self.current_shape_y_diff,
        );
        self.dead_blocks = complete_lines(&self.dead_blocks);
        proof {
            lemma_cleared_no_full_row(
                placed(old(self)@.dead, old(self)@.shape(), old(self)@.rotations, old(self)@.x_diff, old(self)@.y_diff),
            );
        }
        self.current_shapes_index = self.next_shapes_index;
        self.next_shapes_index = fresh;
        self.current_shape_rotations = 0;
        self.current_shape_x_diff = 0;
        self.current_shape_y_diff = 0;
        if self.pose_is_free(0, 0, 0) {
            ActionResult::NextShape
        } else {
            self.game_over = true;
            ActionResult::GameOver
        }
    }

    /// Moves the falling piece one row down, or settles it.
    fn soft_drop(&mut self, fresh: usize) -> (r: ActionResult)
        requires
            old(self).wf(),
            !old(self)@.over,
            fresh < old(self)@.shapes.len(),
        ensures
            final(self).wf(),
            (final(self)@, r) == old(self)@.soft_drop(fresh as int),
            r is Moved ==> final(self)@.y_diff == old(self)@.y_diff + 1 <= 19,
    {
        proof {
            lemma_pose_bounds(self@, self@.rotations, self@.x_diff, self@.y_diff);
        }
        let y = self.current_shape_y_diff + 1;
        if self.pose_is_free(self.current_shape_rotations, self.current_shape_x_diff, y) {
            proof {
                lemma_pose_bounds(self@, self@.rotations, self@.x_diff, y as int);
            }
            self.current_shape_y_diff = y;
            ActionResult::Moved
        } else {
            self.settle(fresh)
        }
    }

    /// Applies `action`; `fresh` is the catalog index of the piece that follows
    /// the next one, should the falling piece settle.
    pub fn apply(&mut self, action: &Action, fresh: usize) -> (r: ActionResult)
        requires
            old(self).wf(),
            fresh < old(self)@.shapes.len(),
        ensures
            final(self).wf(),
            (final(self)@, r) == old(self)@.step(*action, fresh as int),
    {
        if self.game_over {
            return ActionResult::GameOver;
        }
        proof {
            lemma_pose_bounds(self@, self@.rotations, self@.x_diff, self@.y_diff);
        }
        match action {
            Action::Left => self.try_pose(
                self.current_shape_rotations,
                self.current_shape_x_diff - 1,
                self.current_shape_y_diff,
            ),
            Action::Right => self.try_pose(
                self.current_shape_rotations,
                self.current_shape_x_diff + 1,
                self.current_shape_y_diff,
            ),
            Action::Rotate => self.try_pose(
                (self.current_shape_rotations + 1) % 4,
                self.current_shape_x_diff,
                self.current_shape_y_diff,
            ),
            Action::Down => self.soft_drop(fresh),
            Action::Drop => {
                let ghost start = self@;
                loop
                    invariant
                        self.wf(),
                        !self@.over,
                        fresh < self@.shapes.len(),
                        start == old(self)@,
                        !start.over,
                        *action == Action::Drop,
                        start.hard_drop(fresh as int) == self@.hard_drop(fresh as int),
                    decreases 20 - self@.y_diff,
                {
                    let ghost before = self@;
                    let r = self.soft_drop(fresh);
                    assert(before.hard_drop(fresh as int) == if r is Moved {
                        self@.hard_drop(fresh as int)
                    } else {
                        (self@, r)
                    });
                    match r {
                        ActionResult::Moved => {},
                        _ => {
                            return r;
                        },
                    }
                }
            },
        }
    }

    /// Applies `action`, drawing at random the piece that follows the next one
    /// should the falling piece settle.
    pub fn input(&mut self, action: &Action) -> (r: ActionResult)
        requires
            old(self).wf(),
        ensures
            final(self).wf(),
            exists|fresh: int|
                0 <= fresh < old(self)@.shapes.len() && (final(self)@, r) == old(self)@.step(
                    *action,
                    fresh,
                ),
    {
        let fresh = random_index(self.shapes.len());
        self.apply(action, fresh)
    }
}

/// A well-formed piece lies on the grid at its spawn pose.
proof fn lemma_spawn_fits(s: Shape)
    requires
        s.wf(),
    ensures
        s.fits(0, 0, 0),
{
    assert(in_grid(s.base_rotations[0][0].x as int, s.base_rotations[0][0].y as int));
    assert(in_grid(s.base_rotations[0][1].x as int, s.base_rotations[0][1].y as int));
    assert(in_grid(s.base_rotations[0][2].x as int, s.base_rotations[0][2].y as int));
    assert(in_grid(s.base_rotations[0][3].x as int, s.base_rotations[0][3].y as int));
}

/// A free pose of a well-formed piece keeps its offsets within the grid's size.
proof fn lemma_pose_bounds(v: TetrisView, rotations: int, x_diff: int, y_diff: int)
    requires
        v.wf(),
        v.pose_ok(rotations, x_diff, y_diff),
    ensures
        -9 <= x_diff <= 9,
        -19 <= y_diff <= 19,
{
    let r = rotations % 4;
    assert(in_grid(v.shape().base_rotations[r][0].x as int, v.shape().base_rotations[r][0].y as int));
}

/// The board after applying `a` `n` times, where no piece is drawn that matters.
pub open spec fn repeated(v: TetrisView, a: Action, n: int) -> TetrisView
    decreases n,
{
    if n <= 0 {
        v
    } else {
        repeated(v, a, n - 1).step(a, 0).0
    }
}

/// Four rotations that are all accepted bring the board back to where it was.
pub proof fn lemma_four_rotations(v: TetrisView)
    requires
        v.wf(),
        forall|i: int|
            0 <= i < 4 ==> (#[trigger] repeated(v, Action::Rotate, i)).step(Action::Rotate, 0).1 is Moved,
    ensures
        repeated(v, Action::Rotate, 4) == v,
{
    assert(repeated(v, Action::Rotate, 0).step(Action::Rotate, 0).1 is Moved);
    assert(repeated(v, Action::Rotate, 1).step(Action::Rotate, 0).1 is Moved);
    assert(repeated(v, Action::Rotate, 2).step(Action::Rotate, 0).1 is Moved);
    assert(repeated(v, Action::Rotate, 3).step(Action::Rotate, 0).1 is Moved);
    assert(repeated(v, Action::Rotate, 4).rotations == v.rotations);
}

/// A hard drop is a soft drop, followed, when that moved the piece, by a hard drop
/// from there: soft drops repeated until one does not move the piece, with the
/// same settled cells and the same result.
pub proof fn lemma_hard_drop_repeats_soft_drop(v: TetrisView, fresh: int)
    requires
        v.wf(),
    ensures
        v.step(Action::Drop, fresh) == if v.step(Action::Down, fresh).1 is Moved {
            v.step(Action::Down, fresh).0.step(Action::Drop, fresh)
        } else {
            v.step(Action::Down, fresh)
        },
{
    if !v.over && v.pose_ok(v.rotations, v.x_diff, v.y_diff + 1) {
        lemma_pose_bounds(v, v.rotations, v.x_diff, v.y_diff + 1);
    }
}

/// The board after `n` soft drops, where `fresh` is drawn at each settle.
pub open spec fn soft_drops(v: TetrisView, n: int, fresh: int) -> TetrisView
    decreases n,
{
    if n <= 0 {
        v
    } else {
        soft_drops(v.step(Action::Down, fresh).0, n - 1, fresh)
    }
}

/// A hard drop ends where soft drops end when repeated until one does not move
/// the piece: some number of soft drops that move it, then one more that does
/// not, give the same board and the same result.
pub proof fn lemma_hard_drop_is_soft_drops(v: TetrisView, fresh: int)
    requires
        v.wf(),
    ensures
        exists|n: int|
            0 <= n && (forall|i: int|
                0 <= i < n ==> (#[trigger] soft_drops(v, i, fresh)).step(Action::Down, fresh).1 is Moved)
                && !(soft_drops(v, n, fresh).step(Action::Down, fresh).1 is Moved) && v.step(
                Action::Drop,
                fresh,
            ) == soft_drops(v, n, fresh).step(Action::Down, fresh),
    decreases 20 - v.y_diff,
{
    lemma_hard_drop_repeats_soft_drop(v, fresh);
    let w = v.step(Action::Down, fresh);
    if w.1 is Moved {
        lemma_pose_bounds(v, v.rotations, v.x_diff, v.y_diff + 1);
        lemma_hard_drop_is_soft_drops(w.0, fresh);
        let m = choose|m: int|
            0 <= m && (forall|i: int|
                0 <= i < m ==> (#[trigger] soft_drops(w.0, i, fresh)).step(Action::Down, fresh).1 is Moved)
                && !(soft_drops(w.0, m, fresh).step(Action::Down, fresh).1 is Moved) && w.0.step(
                Action::Drop,
                fresh,
            ) == soft_drops(w.0, m, fresh).step(Action::Down, fresh);
        assert forall|i: int| 0 <= i < m + 1 implies (#[trigger] soft_drops(v, i, fresh)).step(
            Action::Down,
            fresh,
        ).1 is Moved by {
            if i > 0 {
                assert(soft_drops(v, i, fresh) == soft_drops(w.0, i - 1, fresh));
            }
        }
        assert(soft_drops(v, m + 1, fresh) == soft_drops(w.0, m, fresh));
    } else {
        assert(soft_drops(v, 0, fresh) == v);
    }
}

} // verus!
