//! Carrying out the edits of a plan, one matched element after the other.

use vstd::prelude::*;
use crate::engine::{content_type_of, element_after, element_append, element_before, element_prepend, element_remove, element_replace, element_set_inner_content, Call, Edit, EditView, Operation};
use crate::select::NodeKind;
use crate::swap::SwapMode;
use lol_html::html_content::Element;

verus! {

/// The edits of a plan, and how many of them were carried out.
#[derive(Debug)]
pub struct EditCursor<'a> {
    pub edits: &'a Vec<Edit>,
    pub next: usize,
}

impl<'a> View for EditCursor<'a> {
    type V = Seq<EditView>;

    /// The edits that are left.
    open spec fn view(&self) -> Seq<EditView> {
        if self.next <= self.edits.len() {
            self.edits.deep_view().skip(self.next as int)
        } else {
            Seq::empty()
        }
    }
}

/// The text of the error of an element that no edit is left for.
pub open spec fn missing_edit() -> Seq<char> {
    "no resolved content is left for this element"@
}

/// The call that carries out a swap mode. Without a mode no call is made.
pub open spec fn operation_for(mode: Option<SwapMode>) -> Operation {
    match mode {
        None => Operation::Nothing,
        Some(SwapMode::ReplaceInnerHTML) => Operation::SetInnerContent,
        Some(SwapMode::ReplaceOuterHTML) => Operation::Replace,
        Some(SwapMode::InsertAfterBegin) => Operation::Prepend,
        Some(SwapMode::InsertBeforeBegin) => Operation::Before,
        Some(SwapMode::InsertBeforeEnd) => Operation::Append,
        Some(SwapMode::InsertAfterEnd) => Operation::After,
        Some(SwapMode::Delete) => Operation::Remove,
    }
}

/// Whether a call inserts content.
pub open spec fn inserts(op: Operation) -> bool {
    op != Operation::Nothing && op != Operation::Remove
}

/// The call carries out the edit: it is made on an element, it is the call
/// that the edit's mode asks for, and where that call inserts, the content
/// and the kind that were handed to it are the edit's.
pub open spec fn carries_out(call: Call, edit: EditView) -> bool {
    &&& call.node() == NodeKind::Element
    &&& call.op() == operation_for(edit.mode)
    &&& if inserts(operation_for(edit.mode)) {
        call.content() == Some(edit.content) && call.kind() == Some(edit.kind)
    } else {
        call.content() is None && call.kind() is None
    }
}

/// Carries out an edit on an element and hands out the record of the call
/// that was made.
pub(crate) fn apply<'a>(el: &mut Element<'_, '_>, edit: &'a Edit) -> (made: Call<'a>)
    ensures
        carries_out(made, edit.deep_view()),
{
    let content: &'a str = edit.content.as_str();
    match edit.mode {
        None => Call::none(NodeKind::Element),
        Some(SwapMode::ReplaceInnerHTML) => element_set_inner_content(el, content, content_type_of(edit.kind)),
        Some(SwapMode::ReplaceOuterHTML) => element_replace(el, content, content_type_of(edit.kind)),
        Some(SwapMode::InsertAfterBegin) => element_prepend(el, content, content_type_of(edit.kind)),
        Some(SwapMode::InsertBeforeBegin) => element_before(el, content, content_type_of(edit.kind)),
        Some(SwapMode::InsertBeforeEnd) => element_append(el, content, content_type_of(edit.kind)),
        Some(SwapMode::InsertAfterEnd) => element_after(el, content, content_type_of(edit.kind)),
        Some(SwapMode::Delete) => element_remove(el),
    }
}

impl<'a> EditCursor<'a> {
    /// A cursor before the first edit of a plan.
    pub fn new(edits: &'a Vec<Edit>) -> (cursor: EditCursor<'a>)
        ensures
            cursor.edits == edits,
            cursor.next == 0,
            cursor@ == edits.deep_view(),
    {
        let cursor = EditCursor { edits, next: 0 };
        assert(cursor@ =~= edits.deep_view());
        cursor
    }

    /// Carries out the next edit on a matched element and moves on by one.
    /// The record that is handed out is that of the call that carries out
    /// that edit. Fails, and leaves the element and the cursor alone,
    /// exactly when no edit is left.
    pub(crate) fn apply_next(&mut self, el: &mut Element<'_, '_>) -> (done: Result<Call<'a>, String>)
        ensures
            final(self).edits == old(self).edits,
            if old(self)@.len() > 0 {
                &&& done matches Ok(call)
                &&& carries_out(call, old(self)@[0])
                &&& final(self).next == old(self).next + 1
                &&& final(self)@ == old(self)@.skip(1)
            } else {
                &&& done matches Err(text)
                &&& text@ == missing_edit()
                &&& final(self).next == old(self).next
            },
    {
        if self.next < self.edits.len() {
            let edits: &'a Vec<Edit> = self.edits;
            let made = apply(el, &edits[self.next]);
            assert(old(self)@[0] == edits@[self.next as int].deep_view());
            self.next = self.next + 1;
            assert(self@ =~= old(self)@.skip(1));
            Ok(made)
        } else {
            Err("no resolved content is left for this element".to_owned())
        }
    }
}

} // verus!
