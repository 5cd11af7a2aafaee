//! One of two bodies, and the error of whichever it is.

use vstd::prelude::*;

verus! {

/// A body that is one of two kinds.
#[derive(Debug)]
pub enum EitherBody<A, B> {
    A { a: A },
    B { b: B },
}

/// The error of a body that is one of two kinds.
#[derive(Debug)]
pub enum EitherError<A, B> {
    A(A),
    B(B),
}

impl<A, B> EitherBody<A, B> {
    /// A body of the first kind.
    pub fn a(a: A) -> (body: EitherBody<A, B>)
        ensures
            body == (EitherBody::<A, B>::A { a }),
    {
        EitherBody::A { a }
    }

    /// A body of the second kind.
    pub fn b(b: B) -> (body: EitherBody<A, B>)
        ensures
            body == (EitherBody::<A, B>::B { b }),
    {
        EitherBody::B { b }
    }

    /// What a poll of a body hands out, given what the poll of the body
    /// inside it handed out: the same, with an error marked by the kind of
    /// body that it came from.
    pub fn poll_data<D, EA, EB>(polled: EitherBody<Option<Result<D, EA>>, Option<Result<D, EB>>>) -> (data: Option<
        Result<D, EitherError<EA, EB>>,
    >)
        ensures
            data == match polled {
                EitherBody::A { a: Some(Ok(chunk)) } => Some(Ok::<D, EitherError<EA, EB>>(chunk)),
                EitherBody::A { a: Some(Err(e)) } => Some(Err::<D, EitherError<EA, EB>>(EitherError::A(e))),
                EitherBody::A { a: None } => None,
                EitherBody::B { b: Some(Ok(chunk)) } => Some(Ok::<D, EitherError<EA, EB>>(chunk)),
                EitherBody::B { b: Some(Err(e)) } => Some(Err::<D, EitherError<EA, EB>>(EitherError::B(e))),
                EitherBody::B { b: None } => None,
            },
    {
        match polled {
            EitherBody::A { a: Some(Ok(chunk)) } => Some(Ok(chunk)),
            EitherBody::A { a: Some(Err(e)) } => Some(Err(EitherError::A(e))),
            EitherBody::A { a: None } => None,
            EitherBody::B { b: Some(Ok(chunk)) } => Some(Ok(chunk)),
            EitherBody::B { b: Some(Err(e)) } => Some(Err(EitherError::B(e))),
            EitherBody::B { b: None } => None,
        }
    }
}

} // verus!
