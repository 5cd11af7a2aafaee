//! What the library reads of a request and of a response.
//!
//! The HTTP types themselves stay outside: a caller copies the few parts of
//! a message that decisions depend on into these plain values.

use vstd::prelude::*;
use vstd::string::*;
use vstd::utf8::{encode_utf8, valid_utf8};
use crate::resolve::ResolveContext;
use crate::uri::{Target, TargetView};

verus! {

/// The parts of a request that the library reads.
#[derive(Debug)]
pub struct RequestHead {
    /// The path and query that the request asks for.
    pub target: Target,
    /// The recursion token that the request carries, if it carries one.
    pub depth: Option<usize>,
}

/// The mathematical value of a [`RequestHead`].
pub ghost struct RequestView {
    pub target: TargetView,
    pub depth: Option<usize>,
}

/// The parts of a response that the library reads and sets.
#[derive(Debug)]
pub struct ResponseHead {
    /// The value of `Content-Type`, if the response has one.
    pub content_type: Option<String>,
    /// The value of `Content-Length`, if the response has one.
    pub content_length: Option<usize>,
    /// The resolution context that travels with the response between
    /// passes. It is never sent.
    pub context: Option<ResolveContext>,
}

/// A resolved response: its content type and its whole body.
#[derive(Debug)]
pub struct Fragment {
    pub content_type: Option<String>,
    pub body: Vec<u8>,
}

/// The mathematical value of a [`Fragment`].
pub ghost struct FragmentView {
    pub content_type: Option<Seq<char>>,
    pub body: Seq<u8>,
}

/// A request that the library asks its caller to send: a `GET` for
/// `target`, carrying `depth` as its recursion token.
#[derive(Debug)]
pub struct SubRequest {
    pub target: Target,
    pub depth: usize,
}

/// The mathematical value of a [`SubRequest`].
pub ghost struct SubRequestView {
    pub target: TargetView,
    pub depth: usize,
}

impl DeepView for RequestHead {
    type V = RequestView;

    open spec fn deep_view(&self) -> RequestView {
        RequestView { target: self.target.deep_view(), depth: self.depth }
    }
}

impl DeepView for Fragment {
    type V = FragmentView;

    open spec fn deep_view(&self) -> FragmentView {
        FragmentView { content_type: self.content_type.deep_view(), body: self.body@ }
    }
}

impl DeepView for SubRequest {
    type V = SubRequestView;

    open spec fn deep_view(&self) -> SubRequestView {
        SubRequestView { target: self.target.deep_view(), depth: self.depth }
    }
}

/// The fragment that stands in where there is nothing to fetch: marked as
/// HTML, with an empty body.
pub open spec fn empty_fragment() -> FragmentView {
    FragmentView { content_type: Some("text/html"@), body: Seq::empty() }
}

impl Fragment {
    /// The fragment that stands in where there is nothing to fetch.
    pub fn empty() -> (fragment: Fragment)
        ensures
            fragment.deep_view() == empty_fragment(),
    {
        Fragment { content_type: Some("text/html".to_owned()), body: Vec::new() }
    }

    /// A copy of this fragment.
    pub fn duplicate(&self) -> (copy: Fragment)
        ensures
            copy.deep_view() == self.deep_view(),
    {
        let content_type = match &self.content_type {
            Some(t) => Some(t.clone()),
            None => None,
        };
        Fragment { content_type, body: self.body.clone() }
    }
}

impl SubRequest {
    /// A copy of this request.
    pub fn duplicate(&self) -> (copy: SubRequest)
        ensures
            copy.deep_view() == self.deep_view(),
    {
        SubRequest { target: self.target.duplicate(), depth: self.depth }
    }
}

/// Reads bytes as text with `std::str::from_utf8`: the text whose UTF-8
/// form the bytes are, `None` where they are not valid UTF-8.
#[verifier::external_body]
pub(crate) fn utf8_text(bytes: &[u8]) -> (text: Option<String>)
    ensures
        match text {
            Some(t) => valid_utf8(bytes@) && encode_utf8(t@) == bytes@,
            None => !valid_utf8(bytes@),
        },
{
    std::str::from_utf8(bytes).ok().map(|t| t.to_owned())
}

} // verus!
