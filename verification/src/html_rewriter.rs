//! The rewrite pass with a body that keeps the response's own body beside
//! what rewriting made of it.

use vstd::prelude::*;
use crate::error::RewriteError;
use crate::message::ResponseHead;
use crate::rewrite::{handle_rewrite, pass_outcome, RuleSet};

verus! {

/// Layer to apply [`HtmlRewriterService`] middleware.
#[derive(Debug)]
pub struct HtmlRewriterLayer<C> {
    pub settings: C,
}

/// Middleware that rewrites HTML before it is handed on.
#[derive(Debug)]
pub struct HtmlRewriterService<C, S> {
    pub settings: C,
    pub inner: S,
}

/// The body of a response that went through a pass: the response's own
/// body, and beside it the error of the pass or the rewritten bytes, each
/// until it is handed out.
#[derive(Debug)]
pub struct HtmlRewriterBody<B, E> {
    pub inner: B,
    pub error: Option<E>,
    /// `None` for a body that was not rewritten; else the rewritten bytes
    /// until they are handed out.
    pub rewritten: Option<Option<Vec<u8>>>,
}

/// What a poll of a body comes back with.
#[derive(Debug)]
pub enum Data<E> {
    /// This chunk, this error or, with `None`, the end of the body.
    Ready(Option<Result<Vec<u8>, E>>),
    /// Whatever a poll of the response's own body comes back with.
    Inner,
}

/// The length that is announced for a body: that of the rewritten bytes
/// that were not handed out yet, none for any other body.
pub open spec fn announced<B, E>(body: HtmlRewriterBody<B, E>) -> Option<usize> {
    match body.rewritten {
        Some(Some(bytes)) => Some(bytes@.len() as usize),
        _ => None,
    }
}

impl<C> HtmlRewriterLayer<C> {
    /// Create a new [`HtmlRewriterLayer`].
    pub fn new(settings: C) -> (layer: HtmlRewriterLayer<C>)
        ensures
            layer.settings == settings,
    {
        HtmlRewriterLayer { settings }
    }

    /// Puts a [`HtmlRewriterService`] with these settings around `inner`.
    pub fn layer<S>(self, inner: S) -> (service: HtmlRewriterService<C, S>)
        ensures
            service.settings == self.settings,
            service.inner == inner,
    {
        HtmlRewriterService::new(inner, self.settings)
    }
}

impl<C, S> HtmlRewriterService<C, S> {
    /// Create a new [`HtmlRewriterService`] middleware.
    pub fn new(inner: S, settings: C) -> (service: HtmlRewriterService<C, S>)
        ensures
            service.settings == settings,
            service.inner == inner,
    {
        HtmlRewriterService { inner, settings }
    }

    /// Sets the response's length to that of rewritten bytes. The head of
    /// a response whose body is passed on, or whose rewriting failed, stays
    /// as it is.
    pub fn finish<B, E>(res: &mut ResponseHead, body: &HtmlRewriterBody<B, E>)
        ensures
            final(res).content_type == old(res).content_type,
            final(res).context == old(res).context,
            final(res).content_length == match announced(*body) {
                Some(len) => Some(len),
                None => old(res).content_length,
            },
    {
        match body.len() {
            Some(len) => {
                res.content_length = Some(len);
            },
            None => {},
        }
    }
}

impl<B, E> HtmlRewriterBody<B, E> {
    /// A body that is passed on as it came.
    pub fn passthrough(body: B) -> (passed: HtmlRewriterBody<B, E>)
        ensures
            passed.inner == body,
            passed.error is None,
            passed.rewritten is None,
    {
        HtmlRewriterBody { inner: body, error: None, rewritten: None }
    }

    /// The length of the rewritten bytes that were not handed out yet.
    pub fn len(&self) -> (len: Option<usize>)
        ensures
            len == announced(*self),
    {
        match &self.rewritten {
            Some(Some(bytes)) => Some(bytes.len()),
            _ => None,
        }
    }

    /// Hands out the next of the body. An error comes first, once. The
    /// rewritten bytes come once, and after them the body has ended. A
    /// body that was not rewritten goes on with the response's own body.
    pub fn poll_data(&mut self) -> (data: Data<E>)
        ensures
            final(self).inner == old(self).inner,
            final(self).error is None,
            match old(self).error {
                Some(e) => data == Data::Ready(Some(Err::<Vec<u8>, E>(e))) && final(self).rewritten == old(self).rewritten,
                None => match old(self).rewritten {
                    Some(Some(bytes)) => data == Data::<E>::Ready(Some(Ok::<Vec<u8>, E>(bytes))) && final(self).rewritten == Some(None::<Vec<u8>>),
                    Some(None) => data == Data::<E>::Ready(None) && final(self).rewritten == old(self).rewritten,
                    None => data is Inner && final(self).rewritten is None,
                },
            },
    {
        match self.error.take() {
            Some(e) => Data::Ready(Some(Err(e))),
            None => match &mut self.rewritten {
                Some(slot) => match slot.take() {
                    Some(bytes) => Data::Ready(Some(Ok(bytes))),
                    None => Data::Ready(None),
                },
                None => Data::Inner,
            },
        }
    }
}

impl<B> HtmlRewriterBody<B, RewriteError> {
    /// Rewrites `data`, the whole of the response's body, by `rules`, and
    /// keeps the rewritten bytes, or the error that rewriting ended with,
    /// beside the body.
    pub fn new(body: B, rules: RuleSet, res: &mut ResponseHead, data: &[u8]) -> (made: HtmlRewriterBody<
        B,
        RewriteError,
    >)
        ensures
            made.inner == body,
            made.error is Some <==> made.rewritten is None,
            match made.error {
                Some(e) => pass_outcome(rules, *old(res), data@, Err::<Vec<u8>, RewriteError>(e), *final(res)),
                None => made.rewritten matches Some(Some(bytes)) && pass_outcome(
                    rules,
                    *old(res),
                    data@,
                    Ok::<Vec<u8>, RewriteError>(bytes),
                    *final(res),
                ),
            },
    {
        match handle_rewrite(rules, res, data) {
            Ok(rewritten) => HtmlRewriterBody { inner: body, rewritten: Some(Some(rewritten)), error: None },
            Err(error) => HtmlRewriterBody { inner: body, rewritten: None, error: Some(error) },
        }
    }
}

} // verus!
