//! The streaming HTML rewriter that every pass is run through.
//!
//! The rewriter itself is `lol_html`. This module declares the few types and
//! calls of it that the library needs, and gives a name to what each pass
//! over a document yields. It is the boundary between the verified library
//! and the rewriter: what is said here of a call into the rewriter is
//! believed, not proved.
//!
//! A call on a node hands out a record of itself. The records have private
//! fields, so that a handler can only hold the record of a call that it has
//! made.

use vstd::prelude::*;
use crate::swap::{ContentKind, SwapMode};
use crate::select::{on_any_element, on_any_text, on_comment, on_doctype, on_selected_element, on_selected_text, NodeKind};
use crate::inject::EditCursor;
use lol_html::errors::{RewritingError, SelectorError};
use lol_html::html_content::{Comment, ContentType, Doctype, Element, TextChunk, UserData};
use lol_html::{DocumentContentHandlers, ElementContentHandlers, HtmlRewriter, Settings};
use std::borrow::Cow;

verus! {

/// `lol_html`'s element, as handed to an element handler.
#[verifier::external_type_specification]
#[verifier::external_body]
pub struct ExElement<'r, 't>(Element<'r, 't>);

/// `lol_html`'s chunk of text, as handed to a text handler.
#[verifier::external_type_specification]
#[verifier::external_body]
pub struct ExTextChunk<'i>(TextChunk<'i>);

/// `lol_html`'s document type declaration.
#[verifier::external_type_specification]
#[verifier::external_body]
pub struct ExDoctype<'i>(Doctype<'i>);

/// `lol_html`'s comment.
#[verifier::external_type_specification]
#[verifier::external_body]
pub struct ExComment<'i>(Comment<'i>);

/// `lol_html`'s way of saying whether inserted content is markup or text.
#[verifier::external_type_specification]
#[verifier::external_body]
pub struct ExContentType(ContentType);

/// `lol_html`'s settings: the handlers of one pass.
#[verifier::external_type_specification]
#[verifier::external_body]
pub struct ExSettings<'h, 's>(Settings<'h, 's>);

/// The error that `lol_html` refuses a selector with.
#[verifier::external_type_specification]
#[verifier::external_body]
pub struct ExSelectorError(SelectorError);

/// The error that `lol_html` ends a pass with.
#[verifier::external_type_specification]
#[verifier::external_body]
pub struct ExRewritingError(RewritingError);

/// The names of the attributes that make an element a directive.
#[derive(Debug)]
pub struct AttributeNames {
    /// The attribute that holds what to fetch.
    pub target: String,
    /// The attribute that holds the selector to cut the fragment down with.
    pub select: String,
    /// The attribute that holds the swap mode.
    pub swap: String,
}

/// What a scan reads off one matched element: the values of the three
/// attributes of [`AttributeNames`], each `None` where the element lacks it.
#[derive(Debug)]
pub struct Directive {
    pub target: Option<String>,
    pub select: Option<String>,
    pub swap: Option<String>,
}

/// The mathematical value of a [`Directive`].
pub ghost struct DirectiveView {
    pub target: Option<Seq<char>>,
    pub select: Option<Seq<char>>,
    pub swap: Option<Seq<char>>,
}

/// What is done to one matched element during injection.
#[derive(Debug)]
pub struct Edit {
    /// How the content is merged; `None` leaves the element as it is.
    pub mode: Option<SwapMode>,
    /// The content to merge.
    pub content: String,
    /// Whether the content is markup or text.
    pub kind: ContentKind,
}

/// The mathematical value of an [`Edit`].
pub ghost struct EditView {
    pub mode: Option<SwapMode>,
    pub content: Seq<char>,
    pub kind: ContentKind,
}

/// The handlers of the select filter as the rewriter takes them, with the
/// selector and the wildcard that they were registered under. Only
/// [`filter_rules`] makes one.
pub struct FilterRules {
    selector: String,
    wildcard: String,
    settings: Settings<'static, 'static>,
}

/// The calls that a handler makes on a node.
#[derive(Clone, Copy, Debug, PartialEq, Eq, Structural)]
pub enum Operation {
    /// No call: the node is left as it is.
    Nothing,
    /// `set_inner_content`: what is between the tags is replaced.
    SetInnerContent,
    /// `replace`: the node is replaced.
    Replace,
    /// `prepend`: content goes right behind the start tag.
    Prepend,
    /// `before`: content goes right before the start tag.
    Before,
    /// `append`: content goes right before the end tag.
    Append,
    /// `after`: content goes right behind the end tag.
    After,
    /// `remove`: the node goes, with what it holds.
    Remove,
    /// `remove_and_keep_content`: the tags go, what is between them stays.
    RemoveAndKeepContent,
    /// `set_user_data`: the node is marked.
    Mark,
}

/// How content is inserted, as the library says it and as the rewriter
/// takes it. Only [`content_type_of`] makes one.
pub struct Insertion {
    kind: ContentKind,
    content_type: ContentType,
}

/// The record of one call on a node: the kind of node, the call, and for a
/// call that inserts, the content and how it is inserted. Only the wrappers
/// of this module make the record of a call; [`Call::none`] makes the
/// record of no call.
#[derive(Debug)]
pub struct Call<'a> {
    node: NodeKind,
    op: Operation,
    content: Option<&'a str>,
    kind: Option<ContentKind>,
}

/// The record of one reading of a node's mark. Only the wrappers of this
/// module make one.
#[derive(Debug)]
pub struct MarkRead {
    found: Option<bool>,
}

/// Why the rewriter gave up on a document.
#[derive(Debug)]
pub enum EngineFailure {
    /// The rewriter ran out of the memory it is allowed.
    MemoryLimit,
    /// The document cannot be parsed without building its tree.
    Ambiguity,
    /// A handler, or the selector it was registered under, was refused.
    Handler(String),
    /// The selector of a filter was refused.
    Selector(String),
}

impl View for AttributeNames {
    type V = (Seq<char>, Seq<char>, Seq<char>);

    open spec fn view(&self) -> Self::V {
        (self.target@, self.select@, self.swap@)
    }
}

impl AttributeNames {
    /// The names that htmx gives the three attributes.
    pub open spec fn defaults() -> (Seq<char>, Seq<char>, Seq<char>) {
        ("hx-get"@, "hx-select"@, "hx-swap"@)
    }

    /// The names that htmx gives the three attributes.
    pub fn new() -> (names: AttributeNames)
        ensures
            names@ == AttributeNames::defaults(),
    {
        AttributeNames { target: "hx-get".to_owned(), select: "hx-select".to_owned(), swap: "hx-swap".to_owned() }
    }
}

impl Insertion {
    /// How the content is inserted.
    pub closed spec fn kind(&self) -> ContentKind {
        self.kind
    }
}

impl<'a> Call<'a> {
    /// The kind of node that the call was made on.
    pub closed spec fn node(&self) -> NodeKind {
        self.node
    }

    /// The call that was made.
    pub closed spec fn op(&self) -> Operation {
        self.op
    }

    /// The content that was handed to the call, for a call that inserts.
    pub closed spec fn content(&self) -> Option<Seq<char>> {
        match self.content {
            Some(text) => Some(text@),
            None => None,
        }
    }

    /// How the content was to be inserted, for a call that inserts.
    pub closed spec fn kind(&self) -> Option<ContentKind> {
        self.kind
    }

    /// The record of no call on a node of this kind.
    pub fn none(node: NodeKind) -> (made: Call<'static>)
        ensures
            made.node() == node,
            made.op() == Operation::Nothing,
            made.content() is None,
            made.kind() is None,
    {
        Call { node, op: Operation::Nothing, content: None, kind: None }
    }
}

impl MarkRead {
    /// What was read: the boolean attached to the node, `None` where none
    /// is attached.
    pub closed spec fn read(&self) -> Option<bool> {
        self.found
    }

    /// What was read.
    pub fn value(&self) -> (found: Option<bool>)
        ensures
            found == self.read(),
    {
        self.found
    }
}

impl FilterRules {
    /// The selector that the marking handlers are registered under.
    pub closed spec fn selector(&self) -> Seq<char> {
        self.selector@
    }

    /// The selector that the judging handler is registered under.
    pub closed spec fn wildcard(&self) -> Seq<char> {
        self.wildcard@
    }
}

impl DeepView for Directive {
    type V = DirectiveView;

    open spec fn deep_view(&self) -> DirectiveView {
        DirectiveView {
            target: self.target.deep_view(),
            select: self.select.deep_view(),
            swap: self.swap.deep_view(),
        }
    }
}

impl DeepView for Edit {
    type V = EditView;

    open spec fn deep_view(&self) -> EditView {
        EditView { mode: self.mode, content: self.content@, kind: self.kind }
    }
}

/// The elements of `html` that `selector` matches, in document order, each
/// with its three attributes; `None` where the rewriter refuses the selector
/// or the document.
pub uninterp spec fn matched_elements(
    selector: Seq<char>,
    names: (Seq<char>, Seq<char>, Seq<char>),
    html: Seq<u8>,
) -> Option<Seq<DirectiveView>>;

/// The document that the rewriter emits for `html` when the i-th element that
/// `selector` matches receives the i-th edit; `None` where the pass fails.
pub uninterp spec fn edited_document(
    selector: Seq<char>,
    html: Seq<u8>,
    edits: Seq<EditView>,
) -> Option<Seq<u8>>;

/// Whether `lol_html` takes `selector` as a selector.
pub uninterp spec fn selector_accepted(selector: Seq<char>) -> bool;

/// The document that the rewriter emits for `html` when only what `selector`
/// matches is kept; `None` where the pass fails.
pub uninterp spec fn filtered_document(
    selector: Seq<char>,
    wildcard: Seq<char>,
    html: Seq<u8>,
) -> Option<Seq<u8>>;

/// Runs `lol_html::HtmlRewriter` over `html` with one element handler under
/// `selector` that reads three attributes with `Element::get_attribute`. The
/// contract names what was read; the rewriter's output is discarded.
#[verifier::external_body]
pub(crate) fn scan_elements(selector: &str, names: &AttributeNames, html: &[u8]) -> (found: Result<
    Vec<Directive>,
    RewritingError,
>)
    ensures
        match found {
            Ok(list) => matched_elements(selector@, names@, html@) == Some(list.deep_view()),
            Err(_) => matched_elements(selector@, names@, html@) is None,
        },
{
    let mut list = Vec::new();
    let chosen = selector.parse().map_err(|e: SelectorError| RewritingError::ContentHandlerError(e.into()))?;
    let handlers = ElementContentHandlers::default().element(|el| {
        list.push(Directive { target: el.get_attribute(&names.target), select: el.get_attribute(&names.select), swap: el.get_attribute(&names.swap) });
        Ok(())
    });
    let settings = Settings { element_content_handlers: vec![(Cow::Owned(chosen), handlers)], ..Settings::default() };
    let mut rewriter = HtmlRewriter::new(settings, |_: &[u8]| ());
    rewriter.write(html)?;
    rewriter.end()?;
    Ok(list)
}

/// Runs `lol_html::HtmlRewriter` over `html` with one element handler under
/// `selector`, which hands each matched element to the cursor's
/// [`EditCursor::apply_next`]. The contract names the bytes that the
/// rewriter emitted.
#[verifier::external_body]
pub(crate) fn apply_edits(selector: &str, html: &[u8], mut cursor: EditCursor<'_>) -> (done: Result<
    Vec<u8>,
    RewritingError,
>)
    ensures
        match done {
            Ok(out) => edited_document(selector@, html@, cursor@) == Some(out@),
            Err(_) => edited_document(selector@, html@, cursor@) is None,
        },
{
    let mut out = Vec::new();
    let chosen = selector.parse().map_err(|e: SelectorError| RewritingError::ContentHandlerError(e.into()))?;
    let handlers = ElementContentHandlers::default().element(|el| cursor.apply_next(el).map(drop).map_err(|e| e.into()));
    let settings = Settings { element_content_handlers: vec![(Cow::Owned(chosen), handlers)], ..Settings::default() };
    let mut rewriter = HtmlRewriter::new(settings, |c: &[u8]| out.extend_from_slice(c));
    rewriter.write(html)?;
    rewriter.end()?;
    Ok(out)
}

/// Builds the `lol_html::Settings` of the select filter: under `selector` the
/// two handlers that mark, under `wildcard` the one that judges elements, and
/// for the whole document those that judge document types, text and
/// comments. Both selectors go through `Selector::from_str`, whose verdict
/// the contract names.
#[verifier::external_body]
pub(crate) fn filter_rules(selector: &str, wildcard: &str) -> (made: Result<FilterRules, SelectorError>)
    ensures
        match made {
            Ok(rules) => {
                &&& selector_accepted(selector@) && selector_accepted(wildcard@)
                &&& rules.selector() == selector@
                &&& rules.wildcard() == wildcard@
            },
            Err(_) => !(selector_accepted(selector@) && selector_accepted(wildcard@)),
        },
{
    let settings = Settings {
        element_content_handlers: vec![
            (Cow::Owned(selector.parse()?), ElementContentHandlers::default().element(|e| Ok(drop(on_selected_element(e)))).text(|t| Ok(drop(on_selected_text(t))))),
            (Cow::Owned(wildcard.parse()?), ElementContentHandlers::default().element(|e| Ok(drop(on_any_element(e))))),
        ],
        document_content_handlers: vec![DocumentContentHandlers::default().doctype(|d| Ok(drop(on_doctype(d)))).text(|t| Ok(drop(on_any_text(t)))).comments(|c| Ok(drop(on_comment(c))))],
        ..Settings::default()
    };
    Ok(FilterRules { selector: selector.to_owned(), wildcard: wildcard.to_owned(), settings })
}

/// Runs `lol_html::HtmlRewriter` over `html` with the settings of a select
/// filter. The contract names the bytes that the rewriter emitted.
#[verifier::external_body]
pub(crate) fn run_filter(rules: FilterRules, html: &[u8]) -> (done: Result<Vec<u8>, RewritingError>)
    ensures
        match done {
            Ok(out) => filtered_document(rules.selector(), rules.wildcard(), html@) == Some(out@),
            Err(_) => filtered_document(rules.selector(), rules.wildcard(), html@) is None,
        },
{
    let mut out = Vec::new();
    let mut rewriter = HtmlRewriter::new(rules.settings, |c: &[u8]| out.extend_from_slice(c));
    rewriter.write(html)?;
    rewriter.end()?;
    Ok(out)
}

/// The text that a `lol_html::errors::SelectorError` displays.
#[verifier::external_body]
pub(crate) fn selector_error_text(error: SelectorError) -> String {
    error.to_string()
}

/// Tells the three variants of `RewritingError` apart. A
/// handler's error is carried as the text it displays.
#[verifier::external_body]
pub(crate) fn failure_of(error: RewritingError) -> EngineFailure {
    match error {
        RewritingError::MemoryLimitExceeded(_) => EngineFailure::MemoryLimit,
        RewritingError::ParsingAmbiguity(_) => EngineFailure::Ambiguity,
        RewritingError::ContentHandlerError(e) => EngineFailure::Handler(e.to_string()),
    }
}

/// `lol_html`'s content type for a [`ContentKind`], kept beside it.
#[verifier::external_body]
pub(crate) fn content_type_of(kind: ContentKind) -> (made: Insertion)
    ensures
        made.kind() == kind,
{
    match kind {
        ContentKind::Html => Insertion { kind, content_type: ContentType::Html },
        ContentKind::Text => Insertion { kind, content_type: ContentType::Text },
    }
}

/// Calls `Element::set_inner_content` with the content, and records the
/// call and what was handed to it.
#[verifier::external_body]
pub(crate) fn element_set_inner_content<'a>(el: &mut Element<'_, '_>, content: &'a str, how: Insertion) -> (made: Call<'a>)
    ensures
        made.node() == NodeKind::Element,
        made.op() == Operation::SetInnerContent,
        made.content() == Some(content@),
        made.kind() == Some(how.kind()),
{
    el.set_inner_content(content, how.content_type);
    Call { node: NodeKind::Element, op: Operation::SetInnerContent, content: Some(content), kind: Some(how.kind) }
}

/// Calls `Element::replace` with the content, and records the call and
/// what was handed to it.
#[verifier::external_body]
pub(crate) fn element_replace<'a>(el: &mut Element<'_, '_>, content: &'a str, how: Insertion) -> (made: Call<'a>)
    ensures
        made.node() == NodeKind::Element,
        made.op() == Operation::Replace,
        made.content() == Some(content@),
        made.kind() == Some(how.kind()),
{
    el.replace(content, how.content_type);
    Call { node: NodeKind::Element, op: Operation::Replace, content: Some(content), kind: Some(how.kind) }
}

/// Calls `Element::prepend` with the content, and records the call and
/// what was handed to it.
#[verifier::external_body]
pub(crate) fn element_prepend<'a>(el: &mut Element<'_, '_>, content: &'a str, how: Insertion) -> (made: Call<'a>)
    ensures
        made.node() == NodeKind::Element,
        made.op() == Operation::Prepend,
        made.content() == Some(content@),
        made.kind() == Some(how.kind()),
{
    el.prepend(content, how.content_type);
    Call { node: NodeKind::Element, op: Operation::Prepend, content: Some(content), kind: Some(how.kind) }
}

/// Calls `Element::before` with the content, and records the call and what
/// was handed to it.
#[verifier::external_body]
pub(crate) fn element_before<'a>(el: &mut Element<'_, '_>, content: &'a str, how: Insertion) -> (made: Call<'a>)
    ensures
        made.node() == NodeKind::Element,
        made.op() == Operation::Before,
        made.content() == Some(content@),
        made.kind() == Some(how.kind()),
{
    el.before(content, how.content_type);
    Call { node: NodeKind::Element, op: Operation::Before, content: Some(content), kind: Some(how.kind) }
}

/// Calls `Element::append` with the content, and records the call and what
/// was handed to it.
#[verifier::external_body]
pub(crate) fn element_append<'a>(el: &mut Element<'_, '_>, content: &'a str, how: Insertion) -> (made: Call<'a>)
    ensures
        made.node() == NodeKind::Element,
        made.op() == Operation::Append,
        made.content() == Some(content@),
        made.kind() == Some(how.kind()),
{
    el.append(content, how.content_type);
    Call { node: NodeKind::Element, op: Operation::Append, content: Some(content), kind: Some(how.kind) }
}

/// Calls `Element::after` with the content, and records the call and what
/// was handed to it.
#[verifier::external_body]
pub(crate) fn element_after<'a>(el: &mut Element<'_, '_>, content: &'a str, how: Insertion) -> (made: Call<'a>)
    ensures
        made.node() == NodeKind::Element,
        made.op() == Operation::After,
        made.content() == Some(content@),
        made.kind() == Some(how.kind()),
{
    el.after(content, how.content_type);
    Call { node: NodeKind::Element, op: Operation::After, content: Some(content), kind: Some(how.kind) }
}

/// Calls `Element::remove`, and records the call.
#[verifier::external_body]
pub(crate) fn element_remove(el: &mut Element<'_, '_>) -> (made: Call<'static>)
    ensures
        made.node() == NodeKind::Element,
        made.op() == Operation::Remove,
        made.content() is None,
        made.kind() is None,
{
    el.remove();
    Call { node: NodeKind::Element, op: Operation::Remove, content: None, kind: None }
}

/// Calls `Element::remove_and_keep_content`, and records the call.
#[verifier::external_body]
pub(crate) fn element_unwrap(el: &mut Element<'_, '_>) -> (made: Call<'static>)
    ensures
        made.node() == NodeKind::Element,
        made.op() == Operation::RemoveAndKeepContent,
        made.content() is None,
        made.kind() is None,
{
    el.remove_and_keep_content();
    Call { node: NodeKind::Element, op: Operation::RemoveAndKeepContent, content: None, kind: None }
}

/// Attaches `true` to an element with `UserData::set_user_data`, and
/// records the call.
#[verifier::external_body]
pub(crate) fn element_mark(el: &mut Element<'_, '_>) -> (made: Call<'static>)
    ensures
        made.node() == NodeKind::Element,
        made.op() == Operation::Mark,
        made.content() is None,
        made.kind() is None,
{
    UserData::set_user_data(el, true);
    Call { node: NodeKind::Element, op: Operation::Mark, content: None, kind: None }
}

/// Reads what is attached to an element with `UserData::user_data`, and
/// hands out the boolean that is attached, `None` where none is.
#[verifier::external_body]
pub(crate) fn element_marked(el: &Element<'_, '_>) -> MarkRead {
    MarkRead { found: UserData::user_data(el).downcast_ref::<bool>().copied() }
}

/// Attaches `true` to a chunk of text with `UserData::set_user_data`, and
/// records the call.
#[verifier::external_body]
pub(crate) fn text_mark(chunk: &mut TextChunk<'_>) -> (made: Call<'static>)
    ensures
        made.node() == NodeKind::Text,
        made.op() == Operation::Mark,
        made.content() is None,
        made.kind() is None,
{
    UserData::set_user_data(chunk, true);
    Call { node: NodeKind::Text, op: Operation::Mark, content: None, kind: None }
}

/// Reads what is attached to a chunk of text with `UserData::user_data`,
/// and hands out the boolean that is attached, `None` where none is.
#[verifier::external_body]
pub(crate) fn text_marked(chunk: &TextChunk<'_>) -> MarkRead {
    MarkRead { found: UserData::user_data(chunk).downcast_ref::<bool>().copied() }
}

/// Calls `TextChunk::remove`, and records the call.
#[verifier::external_body]
pub(crate) fn text_remove(chunk: &mut TextChunk<'_>) -> (made: Call<'static>)
    ensures
        made.node() == NodeKind::Text,
        made.op() == Operation::Remove,
        made.content() is None,
        made.kind() is None,
{
    chunk.remove();
    Call { node: NodeKind::Text, op: Operation::Remove, content: None, kind: None }
}

/// Calls `Doctype::remove`, and records the call.
#[verifier::external_body]
pub(crate) fn doctype_remove(doctype: &mut Doctype<'_>) -> (made: Call<'static>)
    ensures
        made.node() == NodeKind::Doctype,
        made.op() == Operation::Remove,
        made.content() is None,
        made.kind() is None,
{
    doctype.remove();
    Call { node: NodeKind::Doctype, op: Operation::Remove, content: None, kind: None }
}

/// Calls `Comment::remove`, and records the call.
#[verifier::external_body]
pub(crate) fn comment_remove(comment: &mut Comment<'_>) -> (made: Call<'static>)
    ensures
        made.node() == NodeKind::Comment,
        made.op() == Operation::Remove,
        made.content() is None,
        made.kind() is None,
{
    comment.remove();
    Call { node: NodeKind::Comment, op: Operation::Remove, content: None, kind: None }
}

} // verus!
