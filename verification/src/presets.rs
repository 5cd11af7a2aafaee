//! The providers that the library comes with: one that records the keys of
//! a document's directives, one that merges what the keys resolved to, and
//! one that filters a document by a selector from the request's query.

use vstd::prelude::*;
use vstd::string::*;
use crate::config::{lemma_default_selectors, Config};
use crate::engine::AttributeNames;
use crate::message::{RequestHead, ResponseHead};
use crate::query::{effective_selector, requested_selector, selector_from_query};
use crate::resolve::{EntryView, ResolveContext};
use crate::error::RewriteError;
use crate::rewrite::{held, select_outcome, HtmlRewriteBody, HtmlRewriteService, RuleSet, SettingsProvider};

verus! {

/// Provider of the rules that record the keys of a document's directives.
#[derive(Debug, Clone, Copy)]
pub struct ExtractSettings {}

/// Provider of the rules that merge resolved fragments into a document.
#[derive(Debug, Clone, Copy)]
pub struct InsertSettings {}

/// Provider of the rules that filter a document by the selector that the
/// request names in its query.
#[derive(Debug)]
pub struct SelectSettings {
    /// The query parameter whose value is the selector.
    pub parameter: String,
    /// The selector to filter by, from the request until the response.
    pub selector: Option<String>,
}

/// The selector that finds the directives of a template.
pub open spec fn directive_selector() -> Seq<char> {
    "[hx-get]"@
}

/// The usual name of the query parameter that asks for a filter.
pub open spec fn select_parameter() -> Seq<char> {
    "hx-select"@
}

impl ExtractSettings {
    /// A provider of the rules that record keys.
    pub fn new() -> (settings: ExtractSettings)
        ensures
            settings == (ExtractSettings {  }),
    {
        ExtractSettings {  }
    }
}

impl InsertSettings {
    /// A provider of the rules that merge fragments.
    pub fn new() -> (settings: InsertSettings)
        ensures
            settings == (InsertSettings {  }),
    {
        InsertSettings {  }
    }
}

impl SelectSettings {
    /// A provider that has not seen a request yet, and so filters nothing.
    /// It reads the selector from `hx-select`.
    pub fn new() -> (settings: SelectSettings)
        ensures
            settings.selector is None,
            settings.parameter@ == select_parameter(),
    {
        SelectSettings { parameter: "hx-select".to_owned(), selector: None }
    }

    /// A provider that reads the selector from the parameter that `config`
    /// names.
    pub fn with_config(config: &Config) -> (settings: SelectSettings)
        ensures
            settings.selector is None,
            settings.parameter@ == config.parameter@,
    {
        SelectSettings { parameter: config.parameter.clone(), selector: None }
    }
}

impl SelectSettings {
    /// Filters the response to one request: shows the provider the request
    /// and the response, and rewrites `body`, the response's whole body, by
    /// the rules that it hands out.
    ///
    /// A request that names no selector gets its response as it is: the
    /// body is passed on and the head is not touched. Any other response is
    /// filtered by the widened selector, and its length is set to that of
    /// the filtered body.
    pub fn filter(&mut self, req: &RequestHead, res: &mut ResponseHead, body: Vec<u8>) -> (filtered:
        HtmlRewriteBody<Vec<u8>, RewriteError>)
        ensures
            final(self).selector is None,
            final(self).parameter == old(self).parameter,
            final(res).content_type == old(res).content_type,
            final(res).context == old(res).context,
            match requested_selector(req.deep_view().target.query, old(self).parameter@) {
                None => filtered == (HtmlRewriteBody::<Vec<u8>, RewriteError>::Normal { inner: body })
                    && final(res).content_length == old(res).content_length,
                Some(selector) => {
                    &&& held(filtered) matches Some(output)
                    &&& select_outcome(effective_selector(selector), body@, output)
                    &&& final(res).content_length == match output {
                        Ok(bytes) => Some(bytes@.len() as usize),
                        Err(_) => old(res).content_length,
                    }
                },
            },
    {
        self.handle_request(req);
        let filtered = match self.handle_response(res) {
            None => HtmlRewriteBody::new(body),
            Some(rules) => HtmlRewriteBody::new(Vec::new()).try_rewrite(rules, res, body.as_slice()),
        };
        HtmlRewriteService::<SelectSettings, ()>::finish(res, &filtered);
        filtered
    }
}

impl SettingsProvider for ExtractSettings {
    /// The response gets a fresh context, and the rules are those that
    /// record the keys of the directives of a template.
    open spec fn provides(
        &self,
        res: ResponseHead,
        after: &Self,
        changed: ResponseHead,
        rules: Option<RuleSet>,
    ) -> bool {
        &&& changed.content_type == res.content_type
        &&& changed.content_length == res.content_length
        &&& changed.context matches Some(c) && c.view_entries() == Seq::<EntryView>::empty()
        &&& rules matches Some(RuleSet::Extract { selector, names }) && selector@ == directive_selector() && names@
            == AttributeNames::defaults()
    }

    fn handle_request(&mut self, req: &RequestHead) {
    }

    /// Gives the response a fresh context and hands out the rules that
    /// fill it.
    fn handle_response(&mut self, res: &mut ResponseHead) -> (rules: Option<RuleSet>) {
        proof {
            lemma_default_selectors();
        }
        let config = Config::template();
        res.context = Some(ResolveContext::new());
        Some(RuleSet::Extract { selector: config.selector(), names: config.names() })
    }
}

impl SettingsProvider for InsertSettings {
    /// The context is taken off the response, and the rules are those that
    /// merge what it holds into the directives of a template. Without a
    /// context the rules hold an empty one.
    open spec fn provides(
        &self,
        res: ResponseHead,
        after: &Self,
        changed: ResponseHead,
        rules: Option<RuleSet>,
    ) -> bool {
        &&& changed.content_type == res.content_type
        &&& changed.content_length == res.content_length
        &&& changed.context is None
        &&& rules matches Some(RuleSet::Insert { selector, names, context }) && selector@ == directive_selector()
            && names@ == AttributeNames::defaults() && match res.context {
            Some(c) => context == c,
            None => context.view_entries() == Seq::<EntryView>::empty(),
        }
    }

    fn handle_request(&mut self, req: &RequestHead) {
    }

    /// Takes the context off the response and hands out the rules that
    /// merge what it holds. A response without a context gets rules with an
    /// empty one, under which every directive is unresolved.
    fn handle_response(&mut self, res: &mut ResponseHead) -> (rules: Option<RuleSet>) {
        let context = match res.context.take() {
            Some(c) => c,
            None => ResolveContext::new(),
        };
        proof {
            lemma_default_selectors();
        }
        let config = Config::template();
        Some(RuleSet::Insert { selector: config.selector(), names: config.names(), context })
    }
}

impl SettingsProvider for SelectSettings {
    /// The selector that was kept is handed out as the filter's rules and
    /// is gone afterwards. Without one there are no rules. The response is
    /// left as it is.
    open spec fn provides(
        &self,
        res: ResponseHead,
        after: &Self,
        changed: ResponseHead,
        rules: Option<RuleSet>,
    ) -> bool {
        &&& changed == res
        &&& after.selector is None
        &&& after.parameter == self.parameter
        &&& match self.selector {
            Some(s) => rules matches Some(RuleSet::Select { selector }) && selector == s,
            None => rules is None,
        }
    }

    /// Keeps the selector that the request names in the parameter, widened
    /// to what descends from its matches. A request that names none, or an
    /// empty one, asks for no filter.
    fn handle_request(&mut self, req: &RequestHead)
        ensures
            final(self).parameter == old(self).parameter,
            final(self).selector.deep_view() == match requested_selector(
                req.deep_view().target.query,
                old(self).parameter@,
            ) {
                Some(s) => Some(effective_selector(s)),
                None => None,
            },
    {
        self.selector = selector_from_query(&req.target.query, self.parameter.as_str());
    }

    /// Hands out the filter for the selector that the request named, once.
    /// Without a selector there are no rules, and the response is left as
    /// it is.
    fn handle_response(&mut self, res: &mut ResponseHead) -> (rules: Option<RuleSet>) {
        match self.selector.take() {
            Some(selector) => Some(RuleSet::Select { selector }),
            None => None,
        }
    }
}

} // verus!
