//! The composing service: forwards a request, and where the response is an
//! HTML document, resolves the document's directives one after the other
//! and merges what they resolved to.
//!
//! The service itself only waits and sends. What it does next is decided
//! here, by a [`Composer`]: the caller tells it what happened and is told
//! what to do.

use vstd::prelude::*;
use vstd::string::*;
use crate::config::{selector_for, Config};
use crate::error::{kind_of, Error, HandleErrorService, RewriteError};
use crate::message::{Fragment, FragmentView, RequestHead, ResponseHead, SubRequest};
use crate::engine::{matched_elements, AttributeNames, DirectiveView};
use crate::uri::TargetView;
use crate::rewriter::{eligible, extracted, merged, parent_named, redirected, BasicRewriter, Resolvable, ResolvableView};

verus! {

/// Layer to apply [`HtmxRewriteService`] middleware.
#[derive(Debug, Clone, Copy)]
pub struct HtmxRewriteLayer;

/// Layer to apply [`HtmxRewriteService`] middleware with in-band error
/// handling.
#[derive(Debug, Clone, Copy)]
pub struct HtmxRewriteLayerInfallible(pub HtmxRewriteLayer);

/// Middleware that composes HTML responses out of fragments.
#[derive(Debug)]
pub struct HtmxRewriteService<S>(pub S);

/// How far the composition of one response has come.
#[derive(Clone, Copy, Debug, PartialEq, Eq, Structural)]
pub enum Phase {
    /// Nothing has happened yet.
    Received,
    /// The request is forwarded; the response's head is awaited.
    Dispatched,
    /// The response is a document; its body is awaited.
    Scanning,
    /// The fragment for the pending request at `next` is awaited.
    Resolving,
    /// The response is settled.
    Done,
    /// The composition failed.
    Failed,
}

/// What the caller tells a composer.
#[derive(Debug)]
pub enum Event<F, B> {
    /// A request came in.
    Request(RequestHead),
    /// The inner service answered the forwarded request with this head.
    Response(ResponseHead),
    /// The body of the response was read to its end.
    Body(Vec<u8>),
    /// The inner service answered the request that was to be fetched, and
    /// the body of its answer was read to its end.
    Fetched(Fragment),
    /// The inner service failed.
    DispatchFailed(F),
    /// A body could not be read to its end.
    BodyFailed(B),
}

/// What a composer tells the caller to do.
#[derive(Debug)]
pub enum Action<F, B> {
    /// Send this request to the inner service and come back with the head
    /// of its response.
    Forward(RequestHead),
    /// Read the response's whole body and come back with it.
    Buffer,
    /// Wait until the inner service is ready, send it this request, read
    /// the whole body of its response and come back with it.
    Fetch(SubRequest),
    /// Hand the response on as it is; its body was not read.
    Pass,
    /// Hand the response on with its head as it is and with this body,
    /// which is the body that was read.
    PassBuffered(Vec<u8>),
    /// Hand the response on with this body and with this as its length.
    Rewritten { body: Vec<u8>, content_length: usize },
    /// Give up with this error.
    Fail(Error<F, B, RewriteError>),
    /// The event does not fit the phase. Nothing has changed.
    Invalid,
}

/// The composition of one response.
#[derive(Debug)]
pub struct Composer {
    pub rewriter: BasicRewriter,
    pub phase: Phase,
    /// The document, once it is read.
    pub body: Vec<u8>,
    /// What the document's directives resolve to, in document order.
    pub pending: Vec<Resolvable>,
    /// The index in `pending` of the request that is being fetched.
    pub next: usize,
    /// The fragments of the entries of `pending` before `next`.
    pub fragments: Vec<Fragment>,
}

/// The index of the first request among the pending entries at or after
/// `from`, or their number where there is none.
pub open spec fn first_request(pending: Seq<ResolvableView>, from: int) -> int
    decreases pending.len() - from,
{
    if from < 0 || from >= pending.len() {
        pending.len() as int
    } else if pending[from] is Req {
        from
    } else {
        first_request(pending, from + 1)
    }
}

/// The fragments of the pending entries from `from` up to `to` that are
/// responses already.
pub open spec fn literals(pending: Seq<ResolvableView>, from: int, to: int) -> Seq<FragmentView>
    decreases to - from,
{
    if from >= to || from < 0 || to > pending.len() {
        Seq::empty()
    } else {
        match pending[to - 1] {
            ResolvableView::Rsp(fragment) => literals(pending, from, to - 1).push(fragment),
            ResolvableView::Req(_) => literals(pending, from, to - 1),
        }
    }
}

/// The rewriter's settings are those of `before`.
pub open spec fn same_settings(before: BasicRewriter, after: BasicRewriter) -> bool {
    &&& after.selector == before.selector
    &&& after.names == before.names
    &&& after.base_url == before.base_url
    &&& after.recursion_level == before.recursion_level
}

/// What happens once the fragments of all entries before `from` are there.
/// The responses that follow are taken as they are. If a request follows
/// them, it is fetched next. If none does, the fragments are merged into
/// the document, and the composition ends with the merged document and its
/// length, or with the error of the merge.
pub open spec fn settles<F, B>(
    before: Composer,
    body: Seq<u8>,
    pending: Seq<ResolvableView>,
    from: int,
    fragments: Seq<FragmentView>,
    after: Composer,
    action: Action<F, B>,
) -> bool {
    let stop = first_request(pending, from);
    let got = fragments + literals(pending, from, stop);
    if stop < pending.len() {
        &&& action matches Action::Fetch(request)
        &&& ResolvableView::Req(request.deep_view()) == pending[stop]
        &&& after.phase == Phase::Resolving
        &&& after.next == stop
        &&& after.fragments.deep_view() == got
        &&& after.body@ == body
        &&& after.pending.deep_view() == pending
        &&& same_settings(before.rewriter, after.rewriter)
    } else {
        match merged(before.rewriter.selector@, before.rewriter.names@, body, got) {
            Ok(out) => {
                &&& action matches Action::Rewritten { body, content_length }
                &&& body@ == out
                &&& content_length == out.len()
                &&& after.phase == Phase::Done
            },
            Err(kind) => action matches Action::Fail(Error::Rewrite(e)) && kind_of(e) == kind && after.phase
                == Phase::Failed,
        }
    }
}

/// What a composer does with an event.
///
/// A request is forwarded, to its parent where it names one. A response
/// that is no document with a length is passed on. A document is read and
/// scanned: without directives it is passed on as it was read, with
/// directives they are resolved in document order and merged. Any failure
/// ends the composition; nothing of a document is handed out then. An event
/// that does not fit the phase changes nothing.
pub open spec fn steps<F, B>(before: Composer, event: Event<F, B>, after: Composer, action: Action<F, B>) -> bool {
    match (before.phase, event) {
        (Phase::Received, Event::Request(req)) => match redirected(
            req.deep_view(),
            parent_named(req.deep_view()),
        ) {
            Ok((request, child)) => {
                &&& action matches Action::Forward(forward)
                &&& forward.deep_view() == request
                &&& after.phase == Phase::Dispatched
                &&& after.rewriter.selector == before.rewriter.selector
                &&& after.rewriter.names == before.rewriter.names
                &&& after.rewriter.base_url.deep_view() == req.deep_view().target
                &&& after.rewriter.recursion_level == match req.depth {
                    Some(depth) => depth,
                    None => 0,
                }
                &&& after.rewriter.templated_child.deep_view() == child
            },
            Err(e) => action matches Action::Fail(Error::Rewrite(g)) && g == e && after.phase == Phase::Failed,
        },
        (Phase::Dispatched, Event::Response(head)) => if eligible(
            head.content_length,
            head.content_type.deep_view(),
        ) {
            &&& action is Buffer
            &&& after.phase == Phase::Scanning
            &&& after.rewriter == before.rewriter
        } else {
            action is Pass && after.phase == Phase::Done
        },
        (Phase::Scanning, Event::Body(bytes)) => match extracted(
            before.rewriter.selector@,
            before.rewriter.names@,
            bytes@,
            before.rewriter.base_url.deep_view(),
            before.rewriter.recursion_level,
            before.rewriter.templated_child.deep_view(),
        ) {
            Err(kind) => action matches Action::Fail(Error::Rewrite(e)) && kind_of(e) == kind && after.phase
                == Phase::Failed,
            Ok(pending) => if pending.len() == 0 {
                action matches Action::PassBuffered(same) && same@ == bytes@ && after.phase == Phase::Done
            } else {
                settles(before, bytes@, pending, 0, Seq::empty(), after, action)
            },
        },
        (Phase::Resolving, Event::Fetched(fragment)) => settles(
            before,
            before.body@,
            before.pending.deep_view(),
            before.next + 1,
            before.fragments.deep_view().push(fragment.deep_view()),
            after,
            action,
        ),
        (Phase::Dispatched, Event::DispatchFailed(error)) => action == Action::<F, B>::Fail(Error::Future(error))
            && after.phase == Phase::Failed,
        (Phase::Resolving, Event::DispatchFailed(error)) => action == Action::<F, B>::Fail(Error::Future(error))
            && after.phase == Phase::Failed,
        (Phase::Scanning, Event::BodyFailed(error)) => action == Action::<F, B>::Fail(Error::Body(error))
            && after.phase == Phase::Failed,
        (Phase::Resolving, Event::BodyFailed(error)) => action == Action::<F, B>::Fail(Error::Body(error))
            && after.phase == Phase::Failed,
        _ => action is Invalid && after == before,
    }
}

/// A document in which the selector matches no element is passed on as it
/// was read: the bytes are the same and the head is not touched.
pub proof fn lemma_no_directives_pass<F, B>(before: Composer, bytes: Vec<u8>, after: Composer, action: Action<F, B>)
    requires
        before.phase == Phase::Scanning,
        matched_elements(before.rewriter.selector@, before.rewriter.names@, bytes@) == Some(
            Seq::<DirectiveView>::empty(),
        ),
        steps(before, Event::<F, B>::Body(bytes), after, action),
    ensures
        action matches Action::PassBuffered(same) && same@ == bytes@,
        after.phase == Phase::Done,
{
}

/// A failed scan hands out nothing of the document: the composition ends
/// with the error and no body.
pub proof fn lemma_failed_scan_emits_nothing<F, B>(
    before: Composer,
    bytes: Vec<u8>,
    after: Composer,
    action: Action<F, B>,
)
    requires
        before.phase == Phase::Scanning,
        extracted(
            before.rewriter.selector@,
            before.rewriter.names@,
            bytes@,
            before.rewriter.base_url.deep_view(),
            before.rewriter.recursion_level,
            before.rewriter.templated_child.deep_view(),
        ) is Err,
        steps(before, Event::<F, B>::Body(bytes), after, action),
    ensures
        action is Fail,
        after.phase == Phase::Failed,
{
}

impl HtmxRewriteLayer {
    /// Create a new [`HtmxRewriteLayer`].
    pub fn new() -> (layer: HtmxRewriteLayer)
        ensures
            layer == HtmxRewriteLayer,
    {
        HtmxRewriteLayer
    }

    /// Convert this layer into a [`HtmxRewriteLayerInfallible`].
    pub fn infallible(self) -> (layer: HtmxRewriteLayerInfallible)
        ensures
            layer.0 == self,
    {
        HtmxRewriteLayerInfallible(self)
    }

    /// Puts a [`HtmxRewriteService`] around `inner`.
    pub fn layer<S>(&self, inner: S) -> (service: HtmxRewriteService<S>)
        ensures
            service.0 == inner,
    {
        HtmxRewriteService::new(inner)
    }
}

impl HtmxRewriteLayerInfallible {
    /// Puts a [`HtmxRewriteService`] around `inner`, and around that the
    /// service that turns its errors into pages.
    pub fn layer<S>(&self, inner: S) -> (service: HandleErrorService<HtmxRewriteService<S>>)
        ensures
            service.0.0 == inner,
    {
        HandleErrorService(self.0.layer(inner))
    }
}

impl<S> HtmxRewriteService<S> {
    /// Create a new [`HtmxRewriteService`] middleware.
    pub fn new(inner: S) -> (service: HtmxRewriteService<S>)
        ensures
            service.0 == inner,
    {
        HtmxRewriteService(inner)
    }

    /// Starts the composition of the response to one request.
    pub fn call(&self) -> (composer: Composer)
        ensures
            composer.phase == Phase::Received,
            composer.well_formed(),
            composer.rewriter.selector@ == "[hx-get][hx-trigger~=\"server\"]"@,
            composer.rewriter.names@ == AttributeNames::defaults(),
            composer.rewriter.base_url.deep_view() == (TargetView { path: Seq::empty(), query: None }),
            composer.rewriter.recursion_level == 0,
            composer.rewriter.templated_child is None,
            composer.body@ == Seq::<u8>::empty(),
            composer.pending.deep_view() == Seq::<ResolvableView>::empty(),
            composer.fragments.deep_view() == Seq::<FragmentView>::empty(),
            composer.next == 0,
    {
        Composer::new()
    }
}

impl Composer {
    /// While a fragment is awaited, `next` is the index of the request
    /// that is being fetched.
    pub open spec fn well_formed(&self) -> bool {
        self.phase == Phase::Resolving ==> self.next < self.pending.len()
    }

    /// A composer that has not seen its request yet.
    pub fn new() -> (composer: Composer)
        ensures
            composer.phase == Phase::Received,
            composer.well_formed(),
            composer.rewriter.selector@ == "[hx-get][hx-trigger~=\"server\"]"@,
            composer.rewriter.names@ == AttributeNames::defaults(),
            composer.rewriter.base_url.deep_view() == (TargetView { path: Seq::empty(), query: None }),
            composer.rewriter.recursion_level == 0,
            composer.rewriter.templated_child is None,
            composer.body@ == Seq::<u8>::empty(),
            composer.pending.deep_view() == Seq::<ResolvableView>::empty(),
            composer.fragments.deep_view() == Seq::<FragmentView>::empty(),
            composer.next == 0,
    {
        let composer = Composer {
            rewriter: BasicRewriter::new(),
            phase: Phase::Received,
            body: Vec::new(),
            pending: Vec::new(),
            next: 0,
            fragments: Vec::new(),
        };
        composer
    }

    /// A composer for the directives that `config` describes.
    pub fn with_config(config: &Config) -> (composer: Composer)
        ensures
            composer.phase == Phase::Received,
            composer.well_formed(),
            composer.rewriter.selector@ == selector_for(config.target@, config.require_trigger),
            composer.rewriter.names@ == (config.target@, "hx-select"@, "hx-swap"@),
            composer.rewriter.recursion_level == 0,
            composer.rewriter.templated_child is None,
            composer.body@ == Seq::<u8>::empty(),
            composer.pending.deep_view() == Seq::<ResolvableView>::empty(),
            composer.fragments.deep_view() == Seq::<FragmentView>::empty(),
            composer.next == 0,
    {
        let composer = Composer {
            rewriter: BasicRewriter::with_config(config),
            phase: Phase::Received,
            body: Vec::new(),
            pending: Vec::new(),
            next: 0,
            fragments: Vec::new(),
        };
        composer
    }

    /// Takes the responses at and after `next` as they are, up to the
    /// first request, and says what to do then.
    fn settle<F, B>(&mut self) -> (action: Action<F, B>)
        requires
            old(self).next <= old(self).pending.len(),
        ensures
            final(self).well_formed(),
            settles(
                *old(self),
                old(self).body@,
                old(self).pending.deep_view(),
                old(self).next as int,
                old(self).fragments.deep_view(),
                *final(self),
                action,
            ),
    {
        let ghost pending = self.pending.deep_view();
        let ghost start = self.next as int;
        let ghost given = self.fragments.deep_view();
        while self.next < self.pending.len()
            invariant
                0 <= start <= self.next <= self.pending.len(),
                start == old(self).next,
                given == old(self).fragments.deep_view(),
                self.pending == old(self).pending,
                self.body == old(self).body,
                self.rewriter == old(self).rewriter,
                pending == self.pending.deep_view(),
                first_request(pending, start) == first_request(pending, self.next as int),
                self.fragments.deep_view() == given + literals(pending, start, self.next as int),
            decreases self.pending.len() - self.next,
        {
            let ghost so_far = self.fragments.deep_view();
            match &self.pending[self.next] {
                Resolvable::Req(request) => {
                    let fetch = request.duplicate();
                    self.phase = Phase::Resolving;
                    return Action::Fetch(fetch);
                },
                Resolvable::Rsp(fragment) => {
                    let copy = fragment.duplicate();
                    self.fragments.push(copy);
                    assert(self.fragments.deep_view() =~= so_far.push(copy.deep_view()));
                },
            }
            self.next = self.next + 1;
        }
        match self.rewriter.rewrite(self.body.as_slice(), &self.fragments) {
            Ok(body) => {
                self.phase = Phase::Done;
                let content_length = body.len();
                Action::Rewritten { body, content_length }
            },
            Err(e) => {
                self.phase = Phase::Failed;
                Action::Fail(Error::Rewrite(e))
            },
        }
    }

    /// Takes in what happened and says what to do next.
    pub fn step<F, B>(&mut self, event: Event<F, B>) -> (action: Action<F, B>)
        requires
            old(self).well_formed(),
        ensures
            final(self).well_formed(),
            steps(*old(self), event, *final(self), action),
    {
        match (self.phase, event) {
            (Phase::Received, Event::Request(req)) => match self.rewriter.match_request(req) {
                Ok(forward) => {
                    self.phase = Phase::Dispatched;
                    Action::Forward(forward)
                },
                Err(e) => {
                    self.phase = Phase::Failed;
                    Action::Fail(Error::Rewrite(e))
                },
            },
            (Phase::Dispatched, Event::Response(head)) => if self.rewriter.match_response(&head) {
                self.phase = Phase::Scanning;
                Action::Buffer
            } else {
                self.phase = Phase::Done;
                Action::Pass
            },
            (Phase::Scanning, Event::Body(bytes)) => match self.rewriter.extract_info(bytes.as_slice()) {
                Err(e) => {
                    self.phase = Phase::Failed;
                    Action::Fail(Error::Rewrite(e))
                },
                Ok(pending) => if pending.len() == 0 {
                    self.phase = Phase::Done;
                    Action::PassBuffered(bytes)
                } else {
                    self.body = bytes;
                    self.pending = pending;
                    self.next = 0;
                    self.fragments = Vec::new();
                    self.settle()
                },
            },
            (Phase::Resolving, Event::Fetched(fragment)) => {
                let ghost so_far = self.fragments.deep_view();
                self.fragments.push(fragment);
                assert(self.fragments.deep_view() =~= so_far.push(fragment.deep_view()));
                self.next = self.next + 1;
                self.settle()
            },
            (Phase::Dispatched, Event::DispatchFailed(error)) => {
                self.phase = Phase::Failed;
                Action::Fail(Error::Future(error))
            },
            (Phase::Resolving, Event::DispatchFailed(error)) => {
                self.phase = Phase::Failed;
                Action::Fail(Error::Future(error))
            },
            (Phase::Scanning, Event::BodyFailed(error)) => {
                self.phase = Phase::Failed;
                Action::Fail(Error::Body(error))
            },
            (Phase::Resolving, Event::BodyFailed(error)) => {
                self.phase = Phase::Failed;
                Action::Fail(Error::Body(error))
            },
            _ => Action::Invalid,
        }
    }
}

} // verus!
