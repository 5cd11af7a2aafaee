//! The rewrite pass: a provider of rules is shown the request and the
//! response, and where it hands out rules the buffered body is rewritten by
//! them.

use vstd::prelude::*;
use vstd::string::*;
use crate::engine::{apply_edits, edited_document, filter_rules, filtered_document, matched_elements, run_filter, scan_elements, selector_accepted, selector_error_text, AttributeNames, Directive, DirectiveView, EngineFailure};
use crate::inject::EditCursor;
use crate::error::RewriteError;
use crate::message::{RequestHead, ResponseHead};
use crate::plan::{plan_by_key, planned_by_key};
use crate::query::{get_query_string, resolution_key};
use crate::resolve::{lemma_with_key_keeps, position_of, with_key, EntryView, ResolveContext};
use crate::rewriter::engine_error;

verus! {

/// The rules of one pass over one document.
#[derive(Debug)]
pub enum RuleSet {
    /// Record the key of every directive in the response's context.
    Extract { selector: String, names: AttributeNames },
    /// Merge into every directive the fragment that its key resolved to.
    Insert { selector: String, names: AttributeNames, context: ResolveContext },
    /// Keep what the selector matches and drop the rest.
    Select { selector: String },
}

/// Something that provides the rules for a response.
///
/// It is shown the request before it is forwarded, so that it can keep what
/// it needs of it, and the response's head before the body is read. It may
/// change the head whether or not it hands out rules.
pub trait SettingsProvider {
    /// What this provider makes of a response: shown the head `res`, it
    /// becomes `after`, leaves the head as `changed` and hands out `rules`.
    spec fn provides(
        &self,
        res: ResponseHead,
        after: &Self,
        changed: ResponseHead,
        rules: Option<RuleSet>,
    ) -> bool;

    /// Handle http request metadata by storing any required data.
    fn handle_request(&mut self, req: &RequestHead);

    /// Handle http response metadata by returning some dependent rules.
    fn handle_response(&mut self, res: &mut ResponseHead) -> (rules: Option<RuleSet>)
        ensures
            old(self).provides(*old(res), final(self), *final(res), rules),
    ;
}

/// Layer to apply [`HtmlRewriteService`] middleware.
#[derive(Debug)]
pub struct HtmlRewriteLayer<C> {
    pub settings: C,
}

/// Middleware that modifies HTML in-flight.
#[derive(Debug)]
pub struct HtmlRewriteService<C, S> {
    pub settings: C,
    pub inner: S,
}

/// What became of a response's body: it is passed on as it came, it was
/// rewritten, or rewriting it failed. A rewritten body and an error are
/// handed out once.
#[derive(Debug)]
pub enum HtmlRewriteBody<B, E> {
    Normal { inner: B },
    Rewritten { rewritten: Option<Vec<u8>> },
    Failed { error: Option<E> },
}

/// The wildcard that the select filter judges every element under.
pub open spec fn wildcard() -> Seq<char> {
    "*"@
}

/// The context after the keys of these directives were recorded, in
/// document order.
pub open spec fn recorded(directives: Seq<DirectiveView>, entries: Seq<EntryView>) -> Seq<EntryView>
    decreases directives.len(),
{
    if directives.len() == 0 {
        entries
    } else {
        let before = recorded(directives.drop_last(), entries);
        match directives.last().target {
            None => before,
            Some(target) => with_key(before, resolution_key(target, directives.last().select)),
        }
    }
}

/// Recording keeps every key that was there.
pub proof fn lemma_recorded_keeps(directives: Seq<DirectiveView>, entries: Seq<EntryView>, key: Seq<char>)
    requires
        position_of(entries, key) is Some,
    ensures
        position_of(recorded(directives, entries), key) is Some,
    decreases directives.len(),
{
    if directives.len() > 0 {
        let before = recorded(directives.drop_last(), entries);
        lemma_recorded_keeps(directives.drop_last(), entries, key);
        match directives.last().target {
            None => {},
            Some(target) => {
                lemma_with_key_keeps(before, resolution_key(target, directives.last().select), key);
            },
        }
    }
}

/// After recording, the key of every directive that names a target is
/// among the entries.
pub proof fn lemma_recorded_has_keys(directives: Seq<DirectiveView>, entries: Seq<EntryView>, at: int)
    requires
        0 <= at < directives.len(),
        directives[at].target is Some,
    ensures
        position_of(
            recorded(directives, entries),
            resolution_key(directives[at].target->0, directives[at].select),
        ) is Some,
    decreases directives.len(),
{
    let key = resolution_key(directives[at].target->0, directives[at].select);
    let before = recorded(directives.drop_last(), entries);
    if at == directives.len() - 1 {
        lemma_with_key_keeps(before, key, key);
    } else {
        lemma_recorded_has_keys(directives.drop_last(), entries, at);
        match directives.last().target {
            None => {},
            Some(target) => {
                lemma_with_key_keeps(before, resolution_key(target, directives.last().select), key);
            },
        }
    }
}

/// The entries of the context that a response carries, none where it
/// carries no context.
pub open spec fn entries_of(context: Option<ResolveContext>) -> Seq<EntryView> {
    match context {
        Some(c) => c.view_entries(),
        None => Seq::empty(),
    }
}

/// The length that is announced for a body: that of a rewritten body that
/// was not handed out yet, none for any other body.
pub open spec fn announced_len<B, E>(body: HtmlRewriteBody<B, E>) -> Option<usize> {
    match body {
        HtmlRewriteBody::Rewritten { rewritten: Some(bytes) } => Some(bytes@.len() as usize),
        _ => None,
    }
}

/// What one pass yields for a document, and what it makes of the response's
/// head.
///
/// Extracting leaves the document as it is and records its keys in the
/// response's context. Inserting merges the fragments of the rules' context
/// by key. Selecting filters. Where the rewriter refuses the selector or
/// the document the pass ends with the rewriter's error; a key without a
/// fragment and a fragment that is no text end it with their own.
pub open spec fn pass_outcome(
    rules: RuleSet,
    before: ResponseHead,
    data: Seq<u8>,
    output: Result<Vec<u8>, RewriteError>,
    after: ResponseHead,
) -> bool {
    &&& after.content_type == before.content_type
    &&& after.content_length == before.content_length
    &&& match rules {
        RuleSet::Extract { selector, names } => match matched_elements(selector@, names@, data) {
            None => output matches Err(e) && e is Engine,
            Some(directives) => {
                &&& output matches Ok(out)
                &&& out@ == data
                &&& after.context matches Some(c)
                &&& c.view_entries() == recorded(directives, entries_of(before.context))
            },
        },
        RuleSet::Insert { selector, names, context } => {
            &&& after.context == before.context
            &&& match matched_elements(selector@, names@, data) {
                None => output matches Err(e) && e is Engine,
                Some(directives) => match planned_by_key(directives, context.view_entries()) {
                    Err(e) => output matches Err(g) && g == e,
                    Ok(edits) => match edited_document(selector@, data, edits) {
                        Some(out) => output matches Ok(v) && v@ == out,
                        None => output matches Err(e) && e is Engine,
                    },
                },
            }
        },
        RuleSet::Select { selector } => after.context == before.context && select_outcome(
            selector@,
            data,
            output,
        ),
    }
}

/// What filtering a document by a selector yields: the filtered document,
/// or the rewriter's error where it refuses the selector or the document.
pub open spec fn select_outcome(selector: Seq<char>, data: Seq<u8>, output: Result<Vec<u8>, RewriteError>) -> bool {
    if selector_accepted(selector) && selector_accepted(wildcard()) {
        match filtered_document(selector, wildcard(), data) {
            Some(out) => output matches Ok(v) && v@ == out,
            None => output matches Err(e) && e is Engine,
        }
    } else {
        output matches Err(e) && e is Engine
    }
}

/// What a body holds that was rewritten or failed and was not handed out
/// yet.
pub open spec fn held<B>(body: HtmlRewriteBody<B, RewriteError>) -> Option<Result<Vec<u8>, RewriteError>> {
    match body {
        HtmlRewriteBody::Rewritten { rewritten: Some(bytes) } => Some(Ok(bytes)),
        HtmlRewriteBody::Failed { error: Some(e) } => Some(Err(e)),
        _ => None,
    }
}

/// Records the key of every directive that names a target.
pub fn record_keys(directives: &Vec<Directive>, context: &mut ResolveContext)
    ensures
        final(context).view_entries() == recorded(directives.deep_view(), old(context).view_entries()),
{
    let ghost all = directives.deep_view();
    let ghost start = context.view_entries();
    let mut at: usize = 0;
    while at < directives.len()
        invariant
            at <= directives.len(),
            all == directives.deep_view(),
            context.view_entries() == recorded(all.take(at as int), start),
        decreases directives.len() - at,
    {
        let ghost upto = all.take(at as int + 1);
        assert(upto.drop_last() =~= all.take(at as int));
        if directives[at].target.is_some() {
            context.insert(get_query_string(&directives[at]));
        }
        at = at + 1;
    }
    assert(all.take(at as int) =~= all);
}

/// Runs one pass: rewrites `data`, the whole body of a response, by
/// `rules`.
///
/// Extracting leaves the document as it is and records its keys in the
/// response's context. Inserting merges the resolved fragments. Selecting
/// filters. An error of the rewriter comes back as it is; every other error
/// is said exactly.
pub fn handle_rewrite(rules: RuleSet, res: &mut ResponseHead, data: &[u8]) -> (output: Result<
    Vec<u8>,
    RewriteError,
>)
    ensures
        pass_outcome(rules, *old(res), data@, output, *final(res)),
{
    match rules {
        RuleSet::Extract { selector, names } => {
            let directives = match scan_elements(selector.as_str(), &names, data) {
                Ok(list) => list,
                Err(e) => {
                    return Err(engine_error(e));
                },
            };
            let mut context = match res.context.take() {
                Some(c) => c,
                None => ResolveContext::new(),
            };
            record_keys(&directives, &mut context);
            res.context = Some(context);
            Ok(copy_of(data))
        },
        RuleSet::Insert { selector, names, context } => {
            let directives = match scan_elements(selector.as_str(), &names, data) {
                Ok(list) => list,
                Err(e) => {
                    return Err(engine_error(e));
                },
            };
            let edits = plan_by_key(&directives, &context)?;
            match apply_edits(selector.as_str(), data, EditCursor::new(&edits)) {
                Ok(out) => Ok(out),
                Err(e) => Err(engine_error(e)),
            }
        },
        RuleSet::Select { selector } => {
            let rules = match filter_rules(selector.as_str(), "*") {
                Ok(rules) => rules,
                Err(e) => {
                    return Err(RewriteError::Engine(EngineFailure::Selector(selector_error_text(e))));
                },
            };
            match run_filter(rules, data) {
                Ok(out) => Ok(out),
                Err(e) => Err(engine_error(e)),
            }
        },
    }
}

/// The bytes of a slice in a vector of their own.
pub fn copy_of(data: &[u8]) -> (copy: Vec<u8>)
    ensures
        copy@ == data@,
{
    let mut copy: Vec<u8> = Vec::new();
    let mut at: usize = 0;
    while at < data.len()
        invariant
            at <= data.len(),
            copy@ == data@.take(at as int),
        decreases data.len() - at,
    {
        copy.push(data[at]);
        at = at + 1;
    }
    copy
}

/// Asks a provider for the rules for a response: shows it the head and
/// hands on what it hands out. What the provider makes of the head, and of
/// itself, is what it says it makes of them.
pub fn provide_settings<C: SettingsProvider>(settings: &mut C, res: &mut ResponseHead) -> (rules: Option<
    RuleSet,
>)
    ensures
        old(settings).provides(*old(res), final(settings), *final(res), rules),
{
    settings.handle_response(res)
}

impl<C> HtmlRewriteLayer<C> {
    /// Create a new [`HtmlRewriteLayer`].
    pub fn new(settings: C) -> (layer: HtmlRewriteLayer<C>)
        ensures
            layer.settings == settings,
    {
        HtmlRewriteLayer { settings }
    }

    /// Puts a [`HtmlRewriteService`] with these settings around `inner`.
    pub fn layer<S>(self, inner: S) -> (service: HtmlRewriteService<C, S>)
        ensures
            service.settings == self.settings,
            service.inner == inner,
    {
        HtmlRewriteService::new(inner, self.settings)
    }
}

impl<C, S> HtmlRewriteService<C, S> {
    /// Create a new [`HtmlRewriteService`] middleware.
    pub fn new(inner: S, settings: C) -> (service: HtmlRewriteService<C, S>)
        ensures
            service.settings == settings,
            service.inner == inner,
    {
        HtmlRewriteService { inner, settings }
    }

    /// Sets the response's length to that of a rewritten body. The head of
    /// a response whose body is passed on, or whose rewriting failed, stays
    /// as it is.
    pub fn finish<B, E>(res: &mut ResponseHead, body: &HtmlRewriteBody<B, E>)
        ensures
            final(res).content_type == old(res).content_type,
            final(res).context == old(res).context,
            final(res).content_length == match announced_len(*body) {
                Some(len) => Some(len),
                None => old(res).content_length,
            },
    {
        match body.len() {
            Some(len) => {
                res.content_length = Some(len);
            },
            None => {},
        }
    }
}

impl<B, E> HtmlRewriteBody<B, E> {
    /// A body that is passed on as it came.
    pub fn new(body: B) -> (passed: HtmlRewriteBody<B, E>)
        ensures
            passed == (HtmlRewriteBody::<B, E>::Normal { inner: body }),
    {
        HtmlRewriteBody::Normal { inner: body }
    }

    /// The length of a rewritten body that was not handed out yet.
    pub fn len(&self) -> (len: Option<usize>)
        ensures
            len == announced_len(*self),
    {
        match self {
            HtmlRewriteBody::Rewritten { rewritten: Some(bytes) } => Some(bytes.len()),
            _ => None,
        }
    }

    /// Hands out what is left of a body that is not passed on: the
    /// rewritten bytes or the error the first time, nothing after that.
    /// A body that is passed on hands out nothing here: its frames are the
    /// inner body's.
    pub fn poll_frame(&mut self) -> (frame: Option<Result<Vec<u8>, E>>)
        ensures
            match *old(self) {
                HtmlRewriteBody::Normal { inner } => frame is None && *final(self) == *old(self),
                HtmlRewriteBody::Rewritten { rewritten } => {
                    &&& *final(self) == (HtmlRewriteBody::<B, E>::Rewritten { rewritten: None })
                    &&& match rewritten {
                        Some(bytes) => frame == Some(Ok::<Vec<u8>, E>(bytes)),
                        None => frame is None,
                    }
                },
                HtmlRewriteBody::Failed { error } => {
                    &&& *final(self) == (HtmlRewriteBody::<B, E>::Failed { error: None })
                    &&& match error {
                        Some(e) => frame == Some(Err::<Vec<u8>, E>(e)),
                        None => frame is None,
                    }
                },
            },
    {
        match self {
            HtmlRewriteBody::Normal { .. } => None,
            HtmlRewriteBody::Rewritten { rewritten } => match rewritten.take() {
                Some(bytes) => Some(Ok(bytes)),
                None => None,
            },
            HtmlRewriteBody::Failed { error } => match error.take() {
                Some(e) => Some(Err(e)),
                None => None,
            },
        }
    }
}

impl<B> HtmlRewriteBody<B, RewriteError> {
    /// Rewrites a body that was passed on so far: `data` is all of it. The
    /// body becomes the rewritten bytes, or the error that rewriting ended
    /// with. A body that was rewritten before, or failed before, stays as it
    /// is, and so does the response's head.
    pub fn try_rewrite(self, rules: RuleSet, res: &mut ResponseHead, data: &[u8]) -> (body: HtmlRewriteBody<
        B,
        RewriteError,
    >)
        ensures
            match self {
                HtmlRewriteBody::Normal { inner } => held(body) matches Some(output) && pass_outcome(
                    rules,
                    *old(res),
                    data@,
                    output,
                    *final(res),
                ),
                _ => body == self && *final(res) == *old(res),
            },
    {
        match self {
            HtmlRewriteBody::Normal { inner } => match handle_rewrite(rules, res, data) {
                Ok(rewritten) => HtmlRewriteBody::Rewritten { rewritten: Some(rewritten) },
                Err(error) => HtmlRewriteBody::Failed { error: Some(error) },
            },
            other => other,
        }
    }
}

} // verus!
