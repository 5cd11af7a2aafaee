//! Scanning and merging in one call each, with the settings of a
//! [`BasicRewriter`] that has seen no request.

use vstd::prelude::*;
use vstd::string::*;
use crate::engine::{matched_elements, scan_elements, AttributeNames, DirectiveView};
use crate::error::{kind_of, RewriteError};
use crate::message::Fragment;
use crate::rewriter::{engine_error, merged, BasicRewriter};

verus! {

/// The selector that finds the directives of a document.
pub open spec fn server_directives() -> Seq<char> {
    "[hx-get][hx-trigger~=\"server\"]"@
}

/// The targets that directives name, in document order.
pub open spec fn targets_of(directives: Seq<DirectiveView>) -> Seq<Seq<char>>
    decreases directives.len(),
{
    if directives.len() == 0 {
        Seq::empty()
    } else {
        match directives.last().target {
            Some(target) => targets_of(directives.drop_last()).push(target),
            None => targets_of(directives.drop_last()),
        }
    }
}

/// Merges the fragments into a document, pairing them by position with the
/// directives that the server triggers.
pub fn rewrite(input: &[u8], list: &Vec<Fragment>) -> (output: Result<Vec<u8>, RewriteError>)
    ensures
        match merged(server_directives(), AttributeNames::defaults(), input@, list.deep_view()) {
            Ok(out) => output matches Ok(v) && v@ == out,
            Err(kind) => output matches Err(e) && kind_of(e) == kind,
        },
{
    BasicRewriter::new().rewrite(input, list)
}

/// The targets of the directives that the server triggers, in document
/// order.
pub fn scan_tags(bytes: &[u8]) -> (hrefs: Result<Vec<String>, RewriteError>)
    ensures
        match matched_elements(server_directives(), AttributeNames::defaults(), bytes@) {
            Some(directives) => hrefs matches Ok(v) && v.deep_view() == targets_of(directives),
            None => hrefs matches Err(e) && e is Engine,
        },
{
    let names = AttributeNames::new();
    let directives = match scan_elements("[hx-get][hx-trigger~=\"server\"]", &names, bytes) {
        Ok(list) => list,
        Err(e) => {
            return Err(engine_error(e));
        },
    };
    let ghost all = directives.deep_view();
    let mut hrefs: Vec<String> = Vec::new();
    let mut at: usize = 0;
    while at < directives.len()
        invariant
            at <= directives.len(),
            all == directives.deep_view(),
            hrefs.deep_view() == targets_of(all.take(at as int)),
        decreases directives.len() - at,
    {
        let ghost upto = all.take(at as int + 1);
        assert(upto.drop_last() =~= all.take(at as int));
        match &directives[at].target {
            Some(target) => {
                hrefs.push(target.clone());
            },
            None => {},
        }
        at = at + 1;
    }
    assert(all.take(at as int) =~= all);
    Ok(hrefs)
}

} // verus!
