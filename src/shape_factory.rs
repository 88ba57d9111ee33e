use vstd::prelude::*;
use crate::shape::Shape;

verus! {

/// A source of pieces.
pub trait ShapeFactory {
    fn next(&self) -> &Shape;
}

} // verus!
