//! A context that several passes share, and the body that is handed on once
//! the context is taken off the response.

use vstd::prelude::*;
use crate::message::ResponseHead;

verus! {

/// Values by key, in the order in which the keys came.
#[derive(Debug)]
pub struct MultiContext<T> {
    pub entries: Vec<(String, T)>,
}

/// A body that is handed on as it is.
#[derive(Debug)]
pub struct HoldupBody<B> {
    pub body: B,
}

impl<B> HoldupBody<B> {
    /// Wraps a body.
    pub fn new(body: B) -> (wrapped: HoldupBody<B>)
        ensures
            wrapped.body == body,
    {
        HoldupBody { body }
    }
}

/// Takes the context off a response before it is handed on: the context is
/// never sent.
pub fn strip_context(res: &mut ResponseHead)
    ensures
        final(res).context is None,
        final(res).content_type == old(res).content_type,
        final(res).content_length == old(res).content_length,
{
    res.context = None;
}

} // verus!
