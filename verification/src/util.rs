//! A body that holds nothing but an error.

use vstd::prelude::*;

verus! {

/// A body that fails when it is first read.
#[derive(Debug)]
pub struct ErrorBody<D, E> {
    pub error: Option<E>,
    pub phantom: core::marker::PhantomData<D>,
}

impl<D, E> ErrorBody<D, E> {
    /// A body that fails with `error`.
    pub fn new(error: E) -> (body: ErrorBody<D, E>)
        ensures
            body.error == Some(error),
    {
        ErrorBody { error: Some(error), phantom: core::marker::PhantomData }
    }

    /// Hands out the error. A body may be read once only.
    pub fn poll_data(&mut self) -> (data: Option<Result<D, E>>)
        requires
            old(self).error is Some,
        ensures
            data == Some(Err::<D, E>(old(self).error.unwrap())),
            final(self).error is None,
    {
        match self.error.take() {
            Some(error) => Some(Err(error)),
            None => None,
        }
    }
}

} // verus!
