//! One of two kinds of work that end in the same kind of result.

use vstd::prelude::*;

verus! {

/// Either the work of a response that is passed on, or the work of one that
/// is composed.
#[derive(Debug)]
pub enum Either<L, R> {
    Left { left: L },
    Right { right: R },
}

impl<L, R> Either<L, R> {
    /// The left kind.
    pub fn left(left: L) -> (either: Either<L, R>)
        ensures
            either == (Either::<L, R>::Left { left }),
    {
        Either::Left { left }
    }

    /// The right kind.
    pub fn right(right: R) -> (either: Either<L, R>)
        ensures
            either == (Either::<L, R>::Right { right }),
    {
        Either::Right { right }
    }
}

} // verus!
