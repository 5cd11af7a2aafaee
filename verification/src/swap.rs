//! How a resolved fragment is merged with the element that asked for it.

use vstd::prelude::*;
use crate::text::{begins_with, has_prefix, same_text};

verus! {

/// The merge strategy named by an element's swap attribute.
#[derive(Clone, Copy, Debug, PartialEq, Eq, Structural)]
pub enum SwapMode {
    /// Replace what is between the start tag and the end tag.
    ReplaceInnerHTML,
    /// Replace the element, tags included.
    ReplaceOuterHTML,
    /// Insert right after the start tag.
    InsertAfterBegin,
    /// Insert right before the start tag.
    InsertBeforeBegin,
    /// Insert right before the end tag.
    InsertBeforeEnd,
    /// Insert right after the end tag.
    InsertAfterEnd,
    /// Remove the element and what it holds.
    Delete,
}

/// Whether a fragment is inserted as markup or as escaped text.
#[derive(Clone, Copy, Debug, PartialEq, Eq, Structural)]
pub enum ContentKind {
    /// The fragment is markup and is inserted as it is.
    Html,
    /// The fragment is text and is escaped when inserted.
    Text,
}

/// The swap mode that a swap attribute asks for. An element without the
/// attribute gets its inner content replaced; a value that names no mode
/// asks for nothing.
pub open spec fn swap_mode_of(value: Option<Seq<char>>) -> Option<SwapMode> {
    match value {
        None => Some(SwapMode::ReplaceInnerHTML),
        Some(v) => if v == "innerHTML"@ {
            Some(SwapMode::ReplaceInnerHTML)
        } else if v == "outerHTML"@ {
            Some(SwapMode::ReplaceOuterHTML)
        } else if v == "afterbegin"@ {
            Some(SwapMode::InsertAfterBegin)
        } else if v == "beforebegin"@ {
            Some(SwapMode::InsertBeforeBegin)
        } else if v == "beforeend"@ {
            Some(SwapMode::InsertBeforeEnd)
        } else if v == "afterend"@ {
            Some(SwapMode::InsertAfterEnd)
        } else if v == "delete"@ {
            Some(SwapMode::Delete)
        } else {
            None
        },
    }
}

/// A fragment is markup exactly when its content type begins with
/// `text/html`.
pub open spec fn content_kind_of(content_type: Option<Seq<char>>) -> ContentKind {
    match content_type {
        Some(t) => if begins_with(t, "text/html"@) {
            ContentKind::Html
        } else {
            ContentKind::Text
        },
        None => ContentKind::Text,
    }
}

impl SwapMode {
    /// Reads the swap mode out of the value of a swap attribute.
    pub fn from_attribute(value: &Option<String>) -> (mode: Option<SwapMode>)
        ensures
            mode == swap_mode_of(value.deep_view()),
    {
        match value {
            None => Some(SwapMode::ReplaceInnerHTML),
            Some(v) => {
                let v: &str = v.as_str();
                if same_text(v, "innerHTML") {
                    Some(SwapMode::ReplaceInnerHTML)
                } else if same_text(v, "outerHTML") {
                    Some(SwapMode::ReplaceOuterHTML)
                } else if same_text(v, "afterbegin") {
                    Some(SwapMode::InsertAfterBegin)
                } else if same_text(v, "beforebegin") {
                    Some(SwapMode::InsertBeforeBegin)
                } else if same_text(v, "beforeend") {
                    Some(SwapMode::InsertBeforeEnd)
                } else if same_text(v, "afterend") {
                    Some(SwapMode::InsertAfterEnd)
                } else if same_text(v, "delete") {
                    Some(SwapMode::Delete)
                } else {
                    None
                }
            },
        }
    }
}

impl ContentKind {
    /// Decides from a response's content type how its body is inserted.
    pub fn from_content_type(content_type: &Option<String>) -> (kind: ContentKind)
        ensures
            kind == content_kind_of(content_type.deep_view()),
    {
        match content_type {
            Some(t) => if has_prefix(t.as_str(), "text/html") {
                ContentKind::Html
            } else {
                ContentKind::Text
            },
            None => ContentKind::Text,
        }
    }
}

} // verus!
