//! The select filter: keep what a selector matches, drop the rest.

use vstd::prelude::*;
use crate::engine::{comment_remove, doctype_remove, element_mark, element_marked, element_remove, element_unwrap, text_mark, text_marked, text_remove, Call, MarkRead, Operation};
use lol_html::html_content::{Comment, Doctype, Element, TextChunk};

verus! {

/// The kinds of node that the filter is shown.
#[derive(Clone, Copy, Debug, PartialEq, Eq, Structural)]
pub enum NodeKind {
    Element,
    Text,
    Doctype,
    Comment,
}

/// What the filter does with a node.
#[derive(Clone, Copy, Debug, PartialEq, Eq, Structural)]
pub enum Verdict {
    /// The node stays as it is.
    Keep,
    /// The node's tags go, what is between them stays.
    Unwrap,
    /// The node goes.
    Delete,
}

/// The filter's rule. A marked element or text stays. An element without
/// the mark loses its tags and keeps its children, so that a marked
/// descendant survives. Text without the mark goes. Document types and
/// comments go, marked or not.
pub open spec fn verdict_of(kind: NodeKind, marked: bool) -> Verdict {
    match kind {
        NodeKind::Element => if marked {
            Verdict::Keep
        } else {
            Verdict::Unwrap
        },
        NodeKind::Text => if marked {
            Verdict::Keep
        } else {
            Verdict::Delete
        },
        NodeKind::Doctype => Verdict::Delete,
        NodeKind::Comment => Verdict::Delete,
    }
}

/// Applies the filter's rule to one node.
pub fn verdict(kind: NodeKind, marked: bool) -> (v: Verdict)
    ensures
        v == verdict_of(kind, marked),
{
    match kind {
        NodeKind::Element => if marked {
            Verdict::Keep
        } else {
            Verdict::Unwrap
        },
        NodeKind::Text => if marked {
            Verdict::Keep
        } else {
            Verdict::Delete
        },
        NodeKind::Doctype => Verdict::Delete,
        NodeKind::Comment => Verdict::Delete,
    }
}

/// The call by which a node is dealt with: none for a node that stays,
/// `remove_and_keep_content` for one that is unwrapped, `remove` for one
/// that goes.
pub open spec fn operation_of(verdict: Verdict) -> Operation {
    match verdict {
        Verdict::Keep => Operation::Nothing,
        Verdict::Unwrap => Operation::RemoveAndKeepContent,
        Verdict::Delete => Operation::Remove,
    }
}

/// Whether a node counts as marked, by what was read of it: it does when
/// `true` is attached to it.
pub open spec fn marked_of(read: Option<bool>) -> bool {
    read == Some(true)
}

/// The call is made on a node of this kind, is this call, and inserts
/// nothing.
pub open spec fn is_call(call: Call, node: NodeKind, op: Operation) -> bool {
    &&& call.node() == node
    &&& call.op() == op
    &&& call.content() is None
    &&& call.kind() is None
}

/// What a handler that judges made of a node: what it read of the node's
/// mark, and the call that it made.
#[derive(Debug)]
pub struct Judged {
    pub read: MarkRead,
    pub made: Call<'static>,
}

/// Whether a node counts as marked, by what was read of it.
pub fn is_marked(read: &MarkRead) -> (marked: bool)
    ensures
        marked == marked_of(read.read()),
{
    match read.value() {
        Some(marked) => marked,
        None => false,
    }
}

/// Handler for an element that the selector matches: marks it.
pub(crate) fn on_selected_element(el: &mut Element<'_, '_>) -> (made: Call<'static>)
    ensures
        is_call(made, NodeKind::Element, Operation::Mark),
{
    element_mark(el)
}

/// Handler for text that the selector matches: marks it.
pub(crate) fn on_selected_text(chunk: &mut TextChunk<'_>) -> (made: Call<'static>)
    ensures
        is_call(made, NodeKind::Text, Operation::Mark),
{
    text_mark(chunk)
}

/// Handler for every element: reads its mark and deals with it by the call
/// that the rule asks for.
pub(crate) fn on_any_element(el: &mut Element<'_, '_>) -> (done: Judged)
    ensures
        is_call(
            done.made,
            NodeKind::Element,
            operation_of(verdict_of(NodeKind::Element, marked_of(done.read.read()))),
        ),
{
    let read = element_marked(el);
    let made = match verdict(NodeKind::Element, is_marked(&read)) {
        Verdict::Keep => Call::none(NodeKind::Element),
        Verdict::Unwrap => element_unwrap(el),
        Verdict::Delete => element_remove(el),
    };
    Judged { read, made }
}

/// Handler for every chunk of text: reads its mark and deals with it by
/// the call that the rule asks for.
pub(crate) fn on_any_text(chunk: &mut TextChunk<'_>) -> (done: Judged)
    ensures
        is_call(done.made, NodeKind::Text, operation_of(verdict_of(NodeKind::Text, marked_of(done.read.read())))),
{
    let read = text_marked(chunk);
    let made = match verdict(NodeKind::Text, is_marked(&read)) {
        Verdict::Delete => text_remove(chunk),
        _ => Call::none(NodeKind::Text),
    };
    Judged { read, made }
}

/// Handler for every document type declaration: removes it, as the rule
/// asks for every one.
pub(crate) fn on_doctype(doctype: &mut Doctype<'_>) -> (made: Call<'static>)
    ensures
        is_call(made, NodeKind::Doctype, operation_of(verdict_of(NodeKind::Doctype, false))),
        made.op() == Operation::Remove,
{
    match verdict(NodeKind::Doctype, false) {
        Verdict::Delete => doctype_remove(doctype),
        _ => Call::none(NodeKind::Doctype),
    }
}

/// Handler for every comment: removes it, as the rule asks for every one.
pub(crate) fn on_comment(comment: &mut Comment<'_>) -> (made: Call<'static>)
    ensures
        is_call(made, NodeKind::Comment, operation_of(verdict_of(NodeKind::Comment, false))),
        made.op() == Operation::Remove,
{
    match verdict(NodeKind::Comment, false) {
        Verdict::Delete => comment_remove(comment),
        _ => Call::none(NodeKind::Comment),
    }
}

} // verus!
