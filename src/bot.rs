use vstd::prelude::*;
use crate::tetris::ActionResult;

verus! {

/// What a player does after one of its actions has been applied.
#[derive(Clone, Copy, Debug, PartialEq, Eq, Structural)]
pub enum Turn {
    /// Apply the next chosen action.
    Continue,
    /// A new piece is falling: choose actions for it.
    NextShape,
    /// The game has ended.
    Finished,
}

/// Plays games with a strategy, one chosen batch of actions per piece.
pub struct Bot {}

impl Bot {
    pub fn new() -> Bot {
        Bot {  }
    }

    /// The turn that follows an action with the given result: the rest of a
    /// batch is dropped once a new piece falls, and play stops at the end of the game.
    pub fn after(&self, result: ActionResult) -> (t: Turn)
        ensures
            t == (match result {
                ActionResult::NextShape => Turn::NextShape,
                ActionResult::GameOver => Turn::Finished,
                _ => Turn::Continue,
            }),
    {
        match result {
            ActionResult::NextShape => Turn::NextShape,
            ActionResult::GameOver => Turn::Finished,
            _ => Turn::Continue,
        }
    }
}

} // verus!
