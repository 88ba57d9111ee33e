use vstd::prelude::*;
use crate::analysis::{
    analyse, deep_holes_upto, gaps_upto, low_edges, max_height_in, neighbour_diff_upto,
};
use crate::tetris::{Tetris, TetrisView};

verus! {

/// A way of scoring the board that a candidate placement leads to: the higher,
/// the better.
pub trait Strategy {
    /// The score of a board, as the scorer sees it; the search's contracts speak
    /// of it. It is zero unless a scorer overrides it, as every scorer whose
    /// scores differ between boards must.
    open spec fn spec_score(&self, outcome: TetrisView) -> int {
        0
    }

    fn score(&self, outcome: &Tetris) -> (r: i64)
        requires
            outcome.wf(),
        ensures
            r as int == self.spec_score(outcome@.seen()),
    ;
}

/// Scores every board alike, so that the search settles for a plain drop.
pub struct AlwaysDrop {}

impl AlwaysDrop {
    pub fn new() -> AlwaysDrop {
        AlwaysDrop {  }
    }
}

impl Strategy for AlwaysDrop {
    fn score(&self, outcome: &Tetris) -> (r: i64) {
        0
    }
}

/// Fewest gaps first, then fewest deep holes, then the lowest stack.
pub struct Fixed {}

impl Fixed {
    pub fn new() -> Fixed {
        Fixed {  }
    }
}

pub open spec fn fixed_score(d: Seq<Seq<bool>>) -> int {
    (20 - max_height_in(d, 0, 10)) + 100 * (200 - deep_holes_upto(d, 10)) + 100000 * (200
        - gaps_upto(d, 10))
}

impl Strategy for Fixed {
    open spec fn spec_score(&self, outcome: TetrisView) -> int {
        fixed_score(outcome.dead)
    }

    fn score(&self, outcome: &Tetris) -> (r: i64) {
        let analysis = analyse(outcome);
        let height_score = 20 - analysis.max_height as i64;
        let deep_hole_score = 100 * (200 - analysis.deep_hole_blocks as i64);
        let gaps_score = 100000 * (200 - analysis.gaps as i64);
        height_score + deep_hole_score + gaps_score
    }
}

/// Fewest gaps first, then the lowest stack.
pub struct NoGaps {}

impl NoGaps {
    pub fn new() -> NoGaps {
        NoGaps {  }
    }
}

pub open spec fn no_gaps_score(d: Seq<Seq<bool>>) -> int {
    (20 - max_height_in(d, 0, 10)) + 100 * (200 - gaps_upto(d, 10))
}

impl Strategy for NoGaps {
    open spec fn spec_score(&self, outcome: TetrisView) -> int {
        no_gaps_score(outcome.dead)
    }

    fn score(&self, outcome: &Tetris) -> (r: i64) {
        let analysis = analyse(outcome);
        let height_score = 20 - analysis.max_height as i64;
        let gaps_score = 100 * (200 - analysis.gaps as i64);
        height_score + gaps_score
    }
}

/// A weighted sum over the height of the middle columns, the unevenness of the
/// surface, the gaps and the low edges.
pub struct Weighted {}

impl Weighted {
    pub fn new() -> Weighted {
        Weighted {  }
    }
}

pub open spec fn weighted_score(d: Seq<Seq<bool>>) -> int {
    let central = max_height_in(d, 3, 7);
    let central_columns_height_score = if central < 16 {
        200
    } else {
        200 - central
    };
    central_columns_height_score * 500 + (200 - neighbour_diff_upto(d, 10)) * 15 + (200
        - low_edges(d)) * 50 + (200 - gaps_upto(d, 10)) * 100
}

impl Strategy for Weighted {
    open spec fn spec_score(&self, outcome: TetrisView) -> int {
        weighted_score(outcome.dead)
    }

    fn score(&self, outcome: &Tetris) -> (r: i64) {
        let analysis = analyse(outcome);
        let central = analysis.central_columns_max_height as i64;
        let central_columns_height_score: i64 = if central < 16 {
            200
        } else {
            200 - central
        };
        let total_neighbour_diff_score = 200 - analysis.total_neighbour_diff as i64;
        let gaps_score = 200 - analysis.gaps as i64;
        let low_edges_score = 200 - analysis.low_edges as i64;
        central_columns_height_score * 500 + total_neighbour_diff_score * 15 + low_edges_score
            * 50 + gaps_score * 100
    }
}

} // verus!
