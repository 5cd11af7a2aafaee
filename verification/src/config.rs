//! What can be set: the attribute that makes an element a directive,
//! whether a directive has to be triggered by the server, and the query
//! parameter that asks for a filter.

use vstd::prelude::*;
use vstd::string::*;
use crate::engine::AttributeNames;
use crate::text::join;

verus! {

/// The settings of the library.
#[derive(Debug)]
pub struct Config {
    /// The attribute that names what a directive fetches.
    pub target: String,
    /// Whether an element is a directive only if its `hx-trigger` lists
    /// `server`.
    pub require_trigger: bool,
    /// The query parameter whose value is the selector to filter by.
    pub parameter: String,
}

/// The selector that finds directives: elements with the target attribute,
/// and, where that is required, with `server` among the words of their
/// `hx-trigger`.
pub open spec fn selector_for(target: Seq<char>, require_trigger: bool) -> Seq<char> {
    if require_trigger {
        "["@ + target + "][hx-trigger~=\"server\"]"@
    } else {
        "["@ + target + "]"@
    }
}

/// With the usual target attribute the selectors are these two.
pub proof fn lemma_default_selectors()
    ensures
        selector_for("hx-get"@, true) == "[hx-get][hx-trigger~=\"server\"]"@,
        selector_for("hx-get"@, false) == "[hx-get]"@,
{
    reveal_strlit("[");
    reveal_strlit("]");
    reveal_strlit("hx-get");
    reveal_strlit("][hx-trigger~=\"server\"]");
    reveal_strlit("[hx-get][hx-trigger~=\"server\"]");
    reveal_strlit("[hx-get]");
}

impl Config {
    /// The settings for documents whose directives are resolved by
    /// fetching, each fetch going through the service again: `hx-get`,
    /// triggered by the server, filtered by `hx-select`.
    pub fn new() -> (config: Config)
        ensures
            config.target@ == "hx-get"@,
            config.require_trigger,
            config.parameter@ == "hx-select"@,
    {
        Config { target: "hx-get".to_owned(), require_trigger: true, parameter: "hx-select".to_owned() }
    }

    /// The settings for templates, whose directives are recorded in one
    /// pass and merged in another: `hx-get`, whatever triggers it, filtered
    /// by `hx-select`.
    pub fn template() -> (config: Config)
        ensures
            config.target@ == "hx-get"@,
            !config.require_trigger,
            config.parameter@ == "hx-select"@,
    {
        Config { target: "hx-get".to_owned(), require_trigger: false, parameter: "hx-select".to_owned() }
    }

    /// The selector that finds directives.
    pub fn selector(&self) -> (selector: String)
        ensures
            selector@ == selector_for(self.target@, self.require_trigger),
    {
        let mut selector = join("[", self.target.as_str());
        if self.require_trigger {
            selector.append("][hx-trigger~=\"server\"]");
        } else {
            selector.append("]");
        }
        selector
    }

    /// The attributes that directives are read by: the target attribute of
    /// these settings, `hx-select` and `hx-swap`.
    pub fn names(&self) -> (names: AttributeNames)
        ensures
            names@ == (self.target@, "hx-select"@, "hx-swap"@),
    {
        AttributeNames { target: self.target.clone(), select: "hx-select".to_owned(), swap: "hx-swap".to_owned() }
    }
}

} // verus!
