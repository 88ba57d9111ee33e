use vstd::prelude::*;

verus! {

/// One cell of a piece, as an offset in the piece's own frame.
#[derive(Clone, Copy, Debug, PartialEq, Eq, Structural)]
pub struct Block {
    pub x: i8,
    pub y: i8,
}

impl Block {
    pub fn new(x: i8, y: i8) -> (b: Block)
        ensures
            b.x == x,
            b.y == y,
    {
        Block { x, y }
    }

    pub fn x(&self) -> (r: i8)
        ensures
            r == self.x,
    {
        self.x
    }

    pub fn y(&self) -> (r: i8)
        ensures
            r == self.y,
    {
        self.y
    }
}

} // verus!
