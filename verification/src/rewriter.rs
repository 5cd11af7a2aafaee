//! The rewriter behind the composing service: what it reads of a request,
//! which responses it takes on, what it asks to be fetched for a document,
//! and how it merges what came back.

use vstd::prelude::*;
use vstd::string::*;
use crate::engine::{apply_edits, edited_document, failure_of, matched_elements, scan_elements, AttributeNames, Directive, DirectiveView};
use crate::config::{lemma_default_selectors, selector_for, Config};
use crate::inject::EditCursor;
use crate::error::{kind_of, ErrorKind, RewriteError};
use crate::message::{empty_fragment, Fragment, FragmentView, RequestHead, RequestView, ResponseHead, SubRequest, SubRequestView};
use crate::plan::{fetches, plan, planned};
use crate::query::{get_query_string, parent_from_query, parent_of, resolution_key};
use crate::swap::{content_kind_of, ContentKind};
use crate::text::{has_prefix, same_text};
use crate::uri::{expand_uri, expanded, Target, TargetView};

verus! {

/// The deepest that resolved fragments may nest.
pub const MAX_DEPTH: usize = 10;

/// What a directive asks for: a request to send, or a response that is
/// already there.
#[derive(Debug)]
pub enum Resolvable {
    Req(SubRequest),
    Rsp(Fragment),
}

/// The mathematical value of a [`Resolvable`].
pub ghost enum ResolvableView {
    Req(SubRequestView),
    Rsp(FragmentView),
}

impl DeepView for Resolvable {
    type V = ResolvableView;

    open spec fn deep_view(&self) -> ResolvableView {
        match self {
            Resolvable::Req(request) => ResolvableView::Req(request.deep_view()),
            Resolvable::Rsp(fragment) => ResolvableView::Rsp(fragment.deep_view()),
        }
    }
}

/// The state that one request's composition is run with.
#[derive(Debug)]
pub struct BasicRewriter {
    /// The target of the request as it came in.
    pub base_url: Target,
    /// How deep the request is nested: the recursion token that it came
    /// with, zero where it came with none.
    pub recursion_level: usize,
    /// The selector that finds the directives of a document.
    pub selector: String,
    /// What `[child]` stands for, until a directive has used it.
    pub templated_child: Option<String>,
    /// The attributes that directives are read by.
    pub names: AttributeNames,
}

/// What a directive's target refers to while `child` is what `[child]`
/// stands for: `None` where there is nothing to fetch.
pub open spec fn reference_of(directive: DirectiveView, child: Option<Seq<char>>) -> Option<Seq<char>>
    recommends
        directive.target is Some,
{
    if directive.target->0 == "[child]"@ {
        child
    } else {
        Some(resolution_key(directive.target->0, directive.select))
    }
}

/// What `[child]` stands for after these directives: nothing, once one of
/// them has used it.
pub open spec fn child_after(directives: Seq<DirectiveView>, child: Option<Seq<char>>) -> Option<Seq<char>>
    decreases directives.len(),
{
    if directives.len() == 0 {
        child
    } else if directives.last().target == Some("[child]"@) {
        None
    } else {
        child_after(directives.drop_last(), child)
    }
}

/// What one directive resolves to. An element without a target asks for
/// nothing. A `[child]` that is used up gets the empty fragment. Anything
/// else is a request one level deeper, which the recursion ceiling or an
/// invalid target turns into an error.
pub open spec fn resolve_one(
    directive: DirectiveView,
    base: TargetView,
    depth: usize,
    child: Option<Seq<char>>,
) -> Result<Option<ResolvableView>, RewriteError> {
    if directive.target is None {
        Ok(None)
    } else {
        match reference_of(directive, child) {
            None => Ok(Some(ResolvableView::Rsp(empty_fragment()))),
            Some(reference) => if depth + 1 > MAX_DEPTH {
                Err(RewriteError::RecursionLimit)
            } else {
                match expanded(base, reference) {
                    None => Err(RewriteError::Uri),
                    Some(target) => Ok(
                        Some(ResolvableView::Req(SubRequestView { target, depth: (depth + 1) as usize })),
                    ),
                }
            },
        }
    }
}

/// What the directives of a document resolve to, in document order. The
/// first directive that fails, fails the whole: nothing is handed out for
/// the directives before it.
pub open spec fn resolvables(
    directives: Seq<DirectiveView>,
    base: TargetView,
    depth: usize,
    child: Option<Seq<char>>,
) -> Result<Seq<ResolvableView>, RewriteError>
    decreases directives.len(),
{
    if directives.len() == 0 {
        Ok(Seq::empty())
    } else {
        match resolvables(directives.drop_last(), base, depth, child) {
            Err(e) => Err(e),
            Ok(found) => match resolve_one(
                directives.last(),
                base,
                depth,
                child_after(directives.drop_last(), child),
            ) {
                Err(e) => Err(e),
                Ok(None) => Ok(found),
                Ok(Some(one)) => Ok(found.push(one)),
            },
        }
    }
}

/// What a scan of a document hands out: what its directives resolve to,
/// or the kind of the error that the scan ends with.
pub open spec fn extracted(
    selector: Seq<char>,
    names: (Seq<char>, Seq<char>, Seq<char>),
    data: Seq<u8>,
    base: TargetView,
    depth: usize,
    child: Option<Seq<char>>,
) -> Result<Seq<ResolvableView>, ErrorKind> {
    match matched_elements(selector, names, data) {
        None => Err(ErrorKind::Engine),
        Some(directives) => match resolvables(directives, base, depth, child) {
            Ok(list) => Ok(list),
            Err(e) => Err(kind_of(e)),
        },
    }
}

/// The document that merging fragments into a document yields, or the kind
/// of the error that merging ends with.
pub open spec fn merged(
    selector: Seq<char>,
    names: (Seq<char>, Seq<char>, Seq<char>),
    data: Seq<u8>,
    fragments: Seq<FragmentView>,
) -> Result<Seq<u8>, ErrorKind> {
    match matched_elements(selector, names, data) {
        None => Err(ErrorKind::Engine),
        Some(directives) => match planned(directives, fragments) {
            Err(e) => Err(kind_of(e)),
            Ok(edits) => match edited_document(selector, data, edits) {
                Some(out) => Ok(out),
                None => Err(ErrorKind::Engine),
            },
        },
    }
}

/// Whether a response is taken on: it has a length and its content type
/// begins with `text/html`.
pub open spec fn eligible(content_length: Option<usize>, content_type: Option<Seq<char>>) -> bool {
    content_length is Some && content_kind_of(content_type) == ContentKind::Html
}

/// The request that is forwarded for a request whose query names this
/// parent, and what `[child]` then stands for. Without a parent the request
/// goes on as it is. With one, the request goes to the parent and `[child]`
/// stands for the path that was asked for.
pub open spec fn redirected(request: RequestView, parent: Option<Seq<char>>) -> Result<
    (RequestView, Option<Seq<char>>),
    RewriteError,
> {
    match parent {
        None => Ok((request, None)),
        Some(p) => match expanded(request.target, p) {
            None => Err(RewriteError::Uri),
            Some(target) => Ok((RequestView { target, depth: request.depth }, Some(request.target.path))),
        },
    }
}

/// The parent that a request names in its query.
pub open spec fn parent_named(request: RequestView) -> Option<Seq<char>> {
    match request.target.query {
        None => None,
        Some(q) => parent_of(q),
    }
}

/// A failure of the rewriter as a rewrite error.
pub(crate) fn engine_error(error: lol_html::errors::RewritingError) -> (wrapped: RewriteError)
    ensures
        wrapped is Engine,
{
    RewriteError::Engine(failure_of(error))
}

impl BasicRewriter {
    /// A rewriter for directives that carry `hx-get` and are triggered by
    /// the server.
    pub fn new() -> (rewriter: BasicRewriter)
        ensures
            rewriter.recursion_level == 0,
            rewriter.selector@ == "[hx-get][hx-trigger~=\"server\"]"@,
            rewriter.templated_child is None,
            rewriter.names@ == AttributeNames::defaults(),
            rewriter.base_url.deep_view() == (TargetView { path: Seq::empty(), query: None }),
    {
        proof {
            lemma_default_selectors();
        }
        BasicRewriter::with_config(&Config::new())
    }

    /// A rewriter for the directives that `config` describes.
    pub fn with_config(config: &Config) -> (rewriter: BasicRewriter)
        ensures
            rewriter.recursion_level == 0,
            rewriter.selector@ == selector_for(config.target@, config.require_trigger),
            rewriter.templated_child is None,
            rewriter.names@ == (config.target@, "hx-select"@, "hx-swap"@),
            rewriter.base_url.deep_view() == (TargetView { path: Seq::empty(), query: None }),
    {
        BasicRewriter {
            base_url: Target { path: String::new(), query: None },
            recursion_level: 0,
            selector: config.selector(),
            templated_child: None,
            names: config.names(),
        }
    }

    /// Takes in a request: remembers its target as the base for the
    /// document's directives and its recursion token as the depth, and
    /// hands out the request to forward. A `parent` in the query sends the
    /// request to the parent instead and lets `[child]` stand for the path
    /// that was asked for. A parent that is no valid path fails the
    /// request.
    pub fn match_request(&mut self, req: RequestHead) -> (forward: Result<RequestHead, RewriteError>)
        ensures
            final(self).selector == old(self).selector,
            final(self).names == old(self).names,
            final(self).base_url.deep_view() == req.deep_view().target,
            final(self).recursion_level == match req.depth {
                Some(depth) => depth,
                None => 0,
            },
            match redirected(req.deep_view(), parent_named(req.deep_view())) {
                Ok((request, child)) => forward matches Ok(f) && f.deep_view() == request && final(
                    self
                ).templated_child.deep_view() == child,
                Err(e) => forward matches Err(g) && g == e && final(self).templated_child is None,
            },
    {
        let base_query = match &req.target.query {
            Some(q) => Some(q.clone()),
            None => None,
        };
        self.base_url = Target { path: req.target.path.clone(), query: base_query };
        self.recursion_level = match req.depth {
            Some(depth) => depth,
            None => 0,
        };
        self.templated_child = None;
        let parent: Option<String> = match &req.target.query {
            Some(q) => parent_from_query(q.as_str()),
            None => None,
        };
        match parent {
            None => Ok(req),
            Some(p) => {
                let target = expand_uri(&req.target, p.as_str())?;
                self.templated_child = Some(req.target.path);
                Ok(RequestHead { target, depth: req.depth })
            },
        }
    }

    /// Whether a response is taken on.
    pub fn match_response(&self, res: &ResponseHead) -> (taken: bool)
        ensures
            taken == eligible(res.content_length, res.content_type.deep_view()),
    {
        res.content_length.is_some() && match &res.content_type {
            Some(t) => has_prefix(t.as_str(), "text/html"),
            None => false,
        }
    }

    /// What one directive resolves to while `child` is what `[child]`
    /// stands for. A directive that names `[child]` uses it up, whether or
    /// not it can be resolved.
    pub fn resolve(&self, directive: &Directive, child: &mut Option<String>) -> (one: Result<
        Option<Resolvable>,
        RewriteError,
    >)
        ensures
            final(child).deep_view() == if directive.deep_view().target == Some("[child]"@) {
                None
            } else {
                old(child).deep_view()
            },
            match resolve_one(
                directive.deep_view(),
                self.base_url.deep_view(),
                self.recursion_level,
                old(child).deep_view(),
            ) {
                Ok(expected) => one matches Ok(found) && found.deep_view() == expected,
                Err(e) => one matches Err(g) && g == e,
            },
    {
        let target: &String = match &directive.target {
            None => {
                return Ok(None);
            },
            Some(t) => t,
        };
        let reference: Option<String> = if same_text(target.as_str(), "[child]") {
            child.take()
        } else {
            Some(get_query_string(directive))
        };
        match reference {
            None => Ok(Some(Resolvable::Rsp(Fragment::empty()))),
            Some(reference) => {
                if self.recursion_level >= MAX_DEPTH {
                    return Err(RewriteError::RecursionLimit);
                }
                let target = expand_uri(&self.base_url, reference.as_str())?;
                Ok(Some(Resolvable::Req(SubRequest { target, depth: self.recursion_level + 1 })))
            },
        }
    }

    /// Scans a document for its directives and says what each resolves to,
    /// in document order. `[child]` is used up by the first directive that
    /// names it. On an error nothing is handed out and nothing has changed.
    pub fn extract_info(&mut self, data: &[u8]) -> (found: Result<Vec<Resolvable>, RewriteError>)
        ensures
            final(self).selector == old(self).selector,
            final(self).names == old(self).names,
            final(self).base_url == old(self).base_url,
            final(self).recursion_level == old(self).recursion_level,
            match extracted(
                old(self).selector@,
                old(self).names@,
                data@,
                old(self).base_url.deep_view(),
                old(self).recursion_level,
                old(self).templated_child.deep_view(),
            ) {
                Ok(list) => found matches Ok(v) && v.deep_view() == list,
                Err(kind) => found matches Err(e) && kind_of(e) == kind,
            },
            match found {
                Ok(_) => matched_elements(old(self).selector@, old(self).names@, data@) matches Some(directives)
                    && final(self).templated_child.deep_view() == child_after(
                    directives,
                    old(self).templated_child.deep_view(),
                ),
                Err(_) => *final(self) == *old(self),
            },
    {
        let directives = match scan_elements(self.selector.as_str(), &self.names, data) {
            Ok(list) => list,
            Err(e) => {
                return Err(engine_error(e));
            },
        };
        let ghost all = directives.deep_view();
        let ghost base = self.base_url.deep_view();
        let ghost start = self.templated_child.deep_view();
        let mut child: Option<String> = match &self.templated_child {
            Some(c) => Some(c.clone()),
            None => None,
        };
        let mut list: Vec<Resolvable> = Vec::new();
        let mut at: usize = 0;
        assert(list.deep_view() =~= Seq::<ResolvableView>::empty());
        while at < directives.len()
            invariant
                at <= directives.len(),
                all == directives.deep_view(),
                matched_elements(self.selector@, self.names@, data@) == Some(all),
                *self == *old(self),
                base == self.base_url.deep_view(),
                start == self.templated_child.deep_view(),
                child.deep_view() == child_after(all.take(at as int), start),
                resolvables(all.take(at as int), base, self.recursion_level, start) == Ok::<
                    Seq<ResolvableView>,
                    RewriteError,
                >(list.deep_view()),
            decreases directives.len() - at,
        {
            let ghost before = list.deep_view();
            let ghost upto = all.take(at as int + 1);
            assert(upto.drop_last() =~= all.take(at as int));
            match self.resolve(&directives[at], &mut child) {
                Err(e) => {
                    proof {
                        lemma_failed_prefix(all, base, self.recursion_level, start, at as int + 1);
                    }
                    return Err(e);
                },
                Ok(None) => {},
                Ok(Some(one)) => {
                    list.push(one);
                    assert(list.deep_view() =~= before.push(one.deep_view()));
                },
            }
            at = at + 1;
        }
        assert(all.take(at as int) =~= all);
        self.templated_child = child;
        Ok(list)
    }

    /// Merges the fragments into a document: scans it for its directives,
    /// pairs them with the fragments by position, and has the edits carried
    /// out.
    pub fn rewrite(&self, data: &[u8], list: &Vec<Fragment>) -> (output: Result<Vec<u8>, RewriteError>)
        ensures
            match merged(self.selector@, self.names@, data@, list.deep_view()) {
                Ok(out) => output matches Ok(v) && v@ == out,
                Err(kind) => output matches Err(e) && kind_of(e) == kind,
            },
    {
        let directives = match scan_elements(self.selector.as_str(), &self.names, data) {
            Ok(list) => list,
            Err(e) => {
                return Err(engine_error(e));
            },
        };
        let edits = plan(&directives, list)?;
        match apply_edits(self.selector.as_str(), data, EditCursor::new(&edits)) {
            Ok(out) => Ok(out),
            Err(e) => Err(engine_error(e)),
        }
    }
}

/// The depth of the request that the `hops`-th of a chain of nested
/// fetches is sent with, where the first request of the chain came without
/// a token; `None` once the ceiling has stopped the chain.
pub open spec fn depth_after(hops: nat) -> Option<usize>
    decreases hops,
{
    if hops == 0 {
        Some(0)
    } else {
        match depth_after((hops - 1) as nat) {
            Some(depth) => if depth + 1 > MAX_DEPTH {
                None
            } else {
                Some((depth + 1) as usize)
            },
            None => None,
        }
    }
}

/// A directive that has something to fetch is refused exactly at the
/// ceiling, whatever it names; below the ceiling its request, if its target
/// is valid, goes out one level deeper.
pub proof fn lemma_recursion_gate(
    directive: DirectiveView,
    base: TargetView,
    depth: usize,
    child: Option<Seq<char>>,
)
    requires
        directive.target is Some,
        reference_of(directive, child) is Some,
    ensures
        resolve_one(directive, base, depth, child) == Err::<Option<ResolvableView>, RewriteError>(
            RewriteError::RecursionLimit,
        ) <==> depth >= MAX_DEPTH,
        resolve_one(directive, base, depth, child) matches Ok(Some(ResolvableView::Req(request)))
            ==> request.depth == depth + 1,
{
}

/// A chain of nested fetches reaches its `hops`-th request exactly when
/// `hops` is at most the ceiling, and that request is `hops` deep: ten
/// nested fetches go through, the eleventh is refused.
pub proof fn lemma_nesting(hops: nat)
    ensures
        depth_after(hops) is Some <==> hops <= MAX_DEPTH,
        depth_after(hops) matches Some(depth) ==> depth == hops,
    decreases hops,
{
    if hops > 0 {
        lemma_nesting((hops - 1) as nat);
    }
}

/// One directive that cannot be resolved fails the whole scan: no list is
/// handed out, whatever the other directives are.
pub proof fn lemma_fails_closed(
    directives: Seq<DirectiveView>,
    base: TargetView,
    depth: usize,
    child: Option<Seq<char>>,
    at: int,
)
    requires
        0 <= at < directives.len(),
        resolve_one(directives[at], base, depth, child_after(directives.take(at), child)) is Err,
    ensures
        resolvables(directives, base, depth, child) is Err,
    decreases directives.len(),
{
    if at == directives.len() - 1 {
    } else {
        assert(directives.drop_last().take(at) =~= directives.take(at));
        lemma_fails_closed(directives.drop_last(), base, depth, child, at);
    }
}

/// A directive whose target is no valid path fails the whole scan.
pub proof fn lemma_invalid_target_fails(
    directives: Seq<DirectiveView>,
    base: TargetView,
    depth: usize,
    child: Option<Seq<char>>,
    at: int,
)
    requires
        0 <= at < directives.len(),
        directives[at].target matches Some(target) && target != "[child]"@ && expanded(
            base,
            resolution_key(target, directives[at].select),
        ) is None,
    ensures
        resolvables(directives, base, depth, child) is Err,
{
    lemma_fails_closed(directives, base, depth, child, at);
}

/// A scan that succeeds hands out one entry for each directive that names a
/// target, so that fragments and directives pair off.
pub proof fn lemma_one_for_each_target(
    directives: Seq<DirectiveView>,
    base: TargetView,
    depth: usize,
    child: Option<Seq<char>>,
)
    ensures
        resolvables(directives, base, depth, child) matches Ok(list) ==> list.len() == fetches(directives),
    decreases directives.len(),
{
    if directives.len() > 0 {
        lemma_one_for_each_target(directives.drop_last(), base, depth, child);
    }
}

/// Resolving that fails for the first `upto` directives fails, in the same
/// way, for all of them.
pub proof fn lemma_failed_prefix(
    directives: Seq<DirectiveView>,
    base: TargetView,
    depth: usize,
    child: Option<Seq<char>>,
    upto: int,
)
    requires
        0 <= upto <= directives.len(),
        resolvables(directives.take(upto), base, depth, child) is Err,
    ensures
        resolvables(directives, base, depth, child) == resolvables(directives.take(upto), base, depth, child),
    decreases directives.len(),
{
    if upto < directives.len() {
        assert(directives.drop_last().take(upto) =~= directives.take(upto));
        lemma_failed_prefix(directives.drop_last(), base, depth, child, upto);
    } else {
        assert(directives.take(upto) =~= directives);
    }
}

} // verus!
