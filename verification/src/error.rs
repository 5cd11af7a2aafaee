//! What can go wrong while a response is composed.

use vstd::prelude::*;
use vstd::string::*;
use crate::engine::EngineFailure;
use crate::text::join;
use vstd::utf8::encode_utf8;

verus! {

/// Why a rewrite failed.
#[derive(Debug)]
pub enum RewriteError {
    /// A directive's target and the base target do not make a valid target.
    Uri,
    /// Resolving a directive would nest deeper than the ceiling allows.
    RecursionLimit,
    /// An element is left without resolved content at injection.
    MissingResolution,
    /// Resolved content that has to be text is not UTF-8.
    InvalidText,
    /// The rewriter gave up on the document.
    Engine(EngineFailure),
}

/// The kinds of rewrite error.
#[derive(Clone, Copy, Debug, PartialEq, Eq, Structural)]
pub enum ErrorKind {
    Uri,
    RecursionLimit,
    MissingResolution,
    InvalidText,
    Engine,
}

/// The kind of a rewrite error.
pub open spec fn kind_of(error: RewriteError) -> ErrorKind {
    match error {
        RewriteError::Uri => ErrorKind::Uri,
        RewriteError::RecursionLimit => ErrorKind::RecursionLimit,
        RewriteError::MissingResolution => ErrorKind::MissingResolution,
        RewriteError::InvalidText => ErrorKind::InvalidText,
        RewriteError::Engine(_) => ErrorKind::Engine,
    }
}

/// Why composing a response failed: in the inner service, in reading a body,
/// or in rewriting.
#[derive(Debug)]
pub enum Error<F, B, R> {
    /// The inner service failed, for the request itself or for a directive.
    Future(F),
    /// A body could not be read to its end.
    Body(B),
    /// The document could not be rewritten.
    Rewrite(R),
}

/// The status, the headers and the body of the page that stands in for a
/// failed response.
#[derive(Debug)]
pub struct ErrorPage {
    pub status: u16,
    pub content_type: String,
    pub content_length: usize,
    pub body: String,
}

/// The service that turns a failed composition into an error page.
#[derive(Debug, Clone)]
pub struct HandleErrorService<S>(pub S);

/// The word that an error's message begins with.
pub open spec fn label_of<F, B, R>(error: Error<F, B, R>) -> Seq<char> {
    match error {
        Error::Future(_) => "future: "@,
        Error::Body(_) => "body: "@,
        Error::Rewrite(_) => "rewrite: "@,
    }
}

/// The message of a rewrite error.
pub open spec fn rewrite_message(error: RewriteError) -> Seq<char> {
    match error {
        RewriteError::Uri => "invalid uri character"@,
        RewriteError::RecursionLimit => "recursion limit exceeded"@,
        RewriteError::MissingResolution => "problem with inner content"@,
        RewriteError::InvalidText => "resolved content is not valid utf-8"@,
        RewriteError::Engine(EngineFailure::MemoryLimit) => "the memory limit has been exceeded"@,
        RewriteError::Engine(EngineFailure::Ambiguity) => "the document cannot be parsed as a stream"@,
        RewriteError::Engine(EngineFailure::Handler(text)) => text@,
        RewriteError::Engine(EngineFailure::Selector(text)) => text@,
    }
}

impl RewriteError {
    /// The kind of this error.
    pub fn kind(&self) -> (kind: ErrorKind)
        ensures
            kind == kind_of(*self),
    {
        match self {
            RewriteError::Uri => ErrorKind::Uri,
            RewriteError::RecursionLimit => ErrorKind::RecursionLimit,
            RewriteError::MissingResolution => ErrorKind::MissingResolution,
            RewriteError::InvalidText => ErrorKind::InvalidText,
            RewriteError::Engine(_) => ErrorKind::Engine,
        }
    }

    /// The message of this error.
    pub fn message(&self) -> (text: String)
        ensures
            text@ == rewrite_message(*self),
    {
        match self {
            RewriteError::Uri => "invalid uri character".to_owned(),
            RewriteError::RecursionLimit => "recursion limit exceeded".to_owned(),
            RewriteError::MissingResolution => "problem with inner content".to_owned(),
            RewriteError::InvalidText => "resolved content is not valid utf-8".to_owned(),
            RewriteError::Engine(EngineFailure::MemoryLimit) => "the memory limit has been exceeded".to_owned(),
            RewriteError::Engine(EngineFailure::Ambiguity) => "the document cannot be parsed as a stream".to_owned(),
            RewriteError::Engine(EngineFailure::Handler(text)) => text.clone(),
            RewriteError::Engine(EngineFailure::Selector(text)) => text.clone(),
        }
    }
}

impl<F, B, R> Error<F, B, R> {
    /// The message of this error: its label, then `detail`, the message of
    /// the error that it wraps.
    pub fn message(&self, detail: &str) -> (text: String)
        ensures
            text@ == label_of(*self) + detail@,
    {
        match self {
            Error::Future(_) => join("future: ", detail),
            Error::Body(_) => join("body: ", detail),
            Error::Rewrite(_) => join("rewrite: ", detail),
        }
    }
}

impl<S> HandleErrorService<S> {
    /// The page that is sent in place of a response that could not be
    /// composed: status 500, marked as HTML, with the error's message as its
    /// body and the message's length in bytes as its length.
    pub fn error_page(message: String) -> (page: ErrorPage)
        ensures
            page.status == 500,
            page.content_type@ == "text/html"@,
            page.content_length == encode_utf8(message@).len() as usize,
            page.body == message,
    {
        let content_length = message.as_str().len();
        ErrorPage { status: 500, content_type: "text/html".to_owned(), content_length, body: message }
    }
}

} // verus!
