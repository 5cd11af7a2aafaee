//! Request targets, and how a directive's target is resolved against the
//! target of the request that is being answered.

use vstd::prelude::*;
use vstd::string::*;
use crate::error::RewriteError;
use crate::text::{begins_with, has_prefix, join};
use http::uri::{InvalidUri, PathAndQuery};

verus! {

/// The error that `http` refuses a path and query with.
#[verifier::external_type_specification]
#[verifier::external_body]
pub struct ExInvalidUri(InvalidUri);

/// The path and the query of a request target.
#[derive(Debug)]
pub struct Target {
    /// The path, as the target holds it.
    pub path: String,
    /// What follows the first `?`, if there is one.
    pub query: Option<String>,
}

/// The mathematical value of a [`Target`].
pub ghost struct TargetView {
    pub path: Seq<char>,
    pub query: Option<Seq<char>>,
}

impl DeepView for Target {
    type V = TargetView;

    open spec fn deep_view(&self) -> TargetView {
        TargetView { path: self.path@, query: self.query.deep_view() }
    }
}

impl Target {
    /// A copy of this target.
    pub fn duplicate(&self) -> (copy: Target)
        ensures
            copy.deep_view() == self.deep_view(),
    {
        let query = match &self.query {
            Some(q) => Some(q.clone()),
            None => None,
        };
        Target { path: self.path.clone(), query }
    }
}

/// The path and the query that `http` reads out of `text`; `None` where it
/// refuses `text` as a path and query.
pub uninterp spec fn parsed_path_and_query(text: Seq<char>) -> Option<(Seq<char>, Option<Seq<char>>)>;

/// The text that a reference stands for. One that begins with `/` stands for
/// itself. Any other is put behind the base path and a `/`: plain
/// concatenation, with no handling of dot segments.
pub open spec fn joined_reference(base_path: Seq<char>, reference: Seq<char>) -> Seq<char> {
    if begins_with(reference, "/"@) {
        reference
    } else {
        base_path + "/"@ + reference
    }
}

/// The target that a reference resolves to against a base; `None` where the
/// joined text is no path and query.
pub open spec fn expanded(base: TargetView, reference: Seq<char>) -> Option<TargetView> {
    match parsed_path_and_query(joined_reference(base.path, reference)) {
        Some((path, query)) => Some(TargetView { path, query }),
        None => None,
    }
}

/// Reads `text` with `http::uri::PathAndQuery::try_from` and hands out the
/// path and the query of what was read. The contract names both.
#[verifier::external_body]
pub(crate) fn parse_path_and_query(text: &str) -> (read: Result<(String, Option<String>), InvalidUri>)
    ensures
        match read {
            Ok(parts) => parsed_path_and_query(text@) == Some((parts.0@, parts.1.deep_view())),
            Err(_) => parsed_path_and_query(text@) is None,
        },
{
    let parsed = PathAndQuery::try_from(text)?;
    Ok((parsed.path().to_owned(), parsed.query().map(|q| q.to_owned())))
}

/// Builds the target from a path and query that `http` has read.
pub fn target_from_parts(parts: (String, Option<String>)) -> (target: Target)
    ensures
        target.deep_view() == (TargetView { path: parts.0@, query: parts.1.deep_view() }),
{
    Target { path: parts.0, query: parts.1 }
}

/// Resolves `path`, the value of a target attribute or of a `parent`
/// parameter, against the target `uri`.
pub fn expand_uri(uri: &Target, path: &str) -> (resolved: Result<Target, RewriteError>)
    ensures
        match resolved {
            Ok(target) => expanded(uri.deep_view(), path@) == Some(target.deep_view()),
            Err(e) => expanded(uri.deep_view(), path@) is None && e == RewriteError::Uri,
        },
{
    let text = if has_prefix(path, "/") {
        path.to_owned()
    } else {
        let with_slash = join(uri.path.as_str(), "/");
        join(with_slash.as_str(), path)
    };
    match parse_path_and_query(text.as_str()) {
        Ok(parts) => Ok(target_from_parts(parts)),
        Err(_) => Err(RewriteError::Uri),
    }
}

} // verus!
