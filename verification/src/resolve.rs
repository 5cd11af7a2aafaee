//! The resolution context: the keys that a scan found, each with the
//! fragment that it resolved to once that is known.

use vstd::prelude::*;
use vstd::string::*;
use crate::error::RewriteError;
use crate::message::{Fragment, FragmentView, ResponseHead};
use crate::text::same_text;
use crate::uri::{expand_uri, expanded, Target, TargetView};

verus! {

/// One key of a resolution context, with what it resolved to.
#[derive(Debug)]
pub struct Entry {
    pub key: String,
    pub value: Option<Fragment>,
}

/// The mathematical value of an [`Entry`].
pub ghost struct EntryView {
    pub key: Seq<char>,
    pub value: Option<FragmentView>,
}

impl DeepView for Entry {
    type V = EntryView;

    open spec fn deep_view(&self) -> EntryView {
        EntryView { key: self.key@, value: self.value.deep_view() }
    }
}

/// The keys found in one response, in the order in which they were first
/// found, each with its fragment once it is resolved. No key stands twice.
#[derive(Debug)]
pub struct ResolveContext {
    /// The entries, in the order in which their keys were first found.
    pub entries: Vec<Entry>,
}

/// Layer that puts a [`ResolveService`] around a service.
#[derive(Debug, Clone, Copy)]
pub struct ResolveLayer {}

/// Middleware that resolves the keys of a response's context.
#[derive(Debug)]
pub struct ResolveService<S> {
    pub inner: S,
}

/// No key stands twice among the entries.
pub open spec fn distinct_keys(entries: Seq<EntryView>) -> bool {
    forall|i: int, j: int| 0 <= i < j < entries.len() ==> entries[i].key != entries[j].key
}

/// The index of the entry with this key, if there is one.
pub open spec fn position_of(entries: Seq<EntryView>, key: Seq<char>) -> Option<int>
    decreases entries.len(),
{
    if entries.len() == 0 {
        None
    } else if entries.last().key == key {
        Some(entries.len() - 1)
    } else {
        position_of(entries.drop_last(), key)
    }
}

/// The fragment that a key has resolved to; `None` where the key is not
/// among the entries or is not resolved yet.
pub open spec fn resolved_of(entries: Seq<EntryView>, key: Seq<char>) -> Option<FragmentView> {
    match position_of(entries, key) {
        Some(at) => entries[at].value,
        None => None,
    }
}

/// The entries after a key was found: an entry that holds the key is back
/// to unresolved, and a new key goes to the end.
pub open spec fn with_key(entries: Seq<EntryView>, key: Seq<char>) -> Seq<EntryView> {
    match position_of(entries, key) {
        Some(at) => entries.update(at, EntryView { key, value: None }),
        None => entries.push(EntryView { key, value: None }),
    }
}

/// The entries before index `upto` are resolved.
pub open spec fn resolved_upto(entries: Seq<EntryView>, upto: int) -> bool {
    forall|i: int| 0 <= i < upto && i < entries.len() ==> (#[trigger] entries[i]).value is Some
}

/// The entries after the fragment for the entry at `index` was stored.
pub open spec fn with_fragment(entries: Seq<EntryView>, index: int, fragment: FragmentView) -> Seq<EntryView> {
    entries.update(index, EntryView { key: entries[index].key, value: Some(fragment) })
}

/// What is done next for a response whose keys before `from` are resolved:
/// nothing more without a context or once every key was asked for, else a
/// request for the key at `from`, resolved against the target of the
/// request that is being answered. A key that makes no valid target fails
/// the response.
pub open spec fn next_step(context: Option<ResolveContext>, base: TargetView, from: usize) -> Result<
    Option<(usize, TargetView)>,
    RewriteError,
> {
    match context {
        None => Ok(None),
        Some(c) => if from < c.view_entries().len() {
            match expanded(base, c.view_entries()[from as int].key) {
                Some(target) => Ok(Some((from, target))),
                None => Err(RewriteError::Uri),
            }
        } else {
            Ok(None)
        },
    }
}

/// What `position_of` finds is an index of an entry with the key, and where
/// it finds nothing no entry has the key.
pub proof fn lemma_position_of(entries: Seq<EntryView>, key: Seq<char>)
    ensures
        match position_of(entries, key) {
            Some(at) => 0 <= at < entries.len() && entries[at].key == key,
            None => forall|i: int| 0 <= i < entries.len() ==> entries[i].key != key,
        },
    decreases entries.len(),
{
    if entries.len() > 0 && entries.last().key != key {
        let front = entries.drop_last();
        lemma_position_of(front, key);
        match position_of(front, key) {
            Some(at) => {
            },
            None => {
                assert forall|i: int| 0 <= i < entries.len() implies entries[i].key != key by {
                    if i < front.len() {
                        assert(front[i] == entries[i]);
                    }
                }
            },
        }
    }
}

/// Finding a key keeps the keys distinct.
pub proof fn lemma_with_key_distinct(entries: Seq<EntryView>, key: Seq<char>)
    requires
        distinct_keys(entries),
    ensures
        distinct_keys(with_key(entries, key)),
        resolved_of(with_key(entries, key), key) is None,
        position_of(with_key(entries, key), key) is Some,
{
    lemma_position_of(entries, key);
    let after = with_key(entries, key);
    lemma_position_of(after, key);
    match position_of(entries, key) {
        Some(at) => {
            assert(after[at].key == key);
        },
        None => {
        },
    }
}

/// Finding a key puts it among the entries and keeps every key that was
/// there.
pub proof fn lemma_with_key_keeps(entries: Seq<EntryView>, found: Seq<char>, key: Seq<char>)
    ensures
        position_of(with_key(entries, found), found) is Some,
        position_of(entries, key) is Some ==> position_of(with_key(entries, found), key) is Some,
{
    let after = with_key(entries, found);
    lemma_position_of(entries, found);
    lemma_position_of(entries, key);
    lemma_position_of(after, found);
    lemma_position_of(after, key);
    match position_of(entries, found) {
        Some(at) => {
            assert(after[at].key == found);
            if position_of(entries, key) is Some {
                let k = position_of(entries, key)->0;
                assert(after[k].key == key);
            }
        },
        None => {
            if position_of(entries, key) is Some {
                let k = position_of(entries, key)->0;
                assert(after[k] == entries[k]);
            }
        },
    }
}

/// Storing the fragment for the entry at `index` keeps the keys, leaves
/// the entries before it resolved and resolves that entry: after a fragment
/// was stored for every index in turn, every key holds a fragment.
pub proof fn lemma_store_resolves(entries: Seq<EntryView>, index: int, fragment: FragmentView)
    requires
        0 <= index < entries.len(),
        resolved_upto(entries, index),
    ensures
        resolved_upto(with_fragment(entries, index, fragment), index + 1),
        with_fragment(entries, index, fragment).len() == entries.len(),
        forall|i: int|
            0 <= i < entries.len() ==> (#[trigger] with_fragment(entries, index, fragment)[i]).key == entries[i].key,
{
    let after = with_fragment(entries, index, fragment);
    assert forall|i: int| 0 <= i < index + 1 && i < after.len() implies (#[trigger] after[i]).value is Some by {
        if i < index {
            assert(entries[i].value is Some);
        }
    }
}

/// In a context whose entries are all resolved, every key that is there
/// has a fragment.
pub proof fn lemma_resolved_lookup(entries: Seq<EntryView>, key: Seq<char>)
    requires
        resolved_upto(entries, entries.len() as int),
        position_of(entries, key) is Some,
    ensures
        resolved_of(entries, key) is Some,
{
    lemma_position_of(entries, key);
}

impl ResolveContext {
    /// The entries as mathematical values.
    pub open spec fn view_entries(&self) -> Seq<EntryView> {
        self.entries.deep_view()
    }

    /// The context holds no key twice.
    pub open spec fn well_formed(&self) -> bool {
        distinct_keys(self.view_entries())
    }

    /// Create a new [`ResolveContext`] with no entries.
    pub fn new() -> (context: ResolveContext)
        ensures
            context.view_entries() == Seq::<EntryView>::empty(),
            context.well_formed(),
    {
        let context = ResolveContext { entries: Vec::new() };
        context
    }

    /// The index of the entry with this key.
    pub fn position(&self, key: &str) -> (found: Option<usize>)
        ensures
            match found {
                Some(at) => position_of(self.view_entries(), key@) == Some(at as int),
                None => position_of(self.view_entries(), key@) is None,
            },
    {
        let mut at: usize = self.entries.len();
        assert(self.view_entries().take(at as int) =~= self.view_entries());
        while at > 0
            invariant
                at <= self.entries.len(),
                position_of(self.view_entries(), key@) == position_of(self.view_entries().take(at as int), key@),
            decreases at,
        {
            let ghost prefix = self.view_entries().take(at as int);
            at = at - 1;
            assert(prefix.drop_last() =~= self.view_entries().take(at as int));
            if same_text(self.entries[at].key.as_str(), key) {
                return Some(at);
            }
        }
        None
    }

    /// Records that a scan found `key`. A key that is already there goes
    /// back to unresolved; a new key goes to the end.
    pub fn insert(&mut self, key: String)
        ensures
            final(self).view_entries() == with_key(old(self).view_entries(), key@),
            old(self).well_formed() ==> final(self).well_formed(),
    {
        proof {
            if self.well_formed() {
                lemma_with_key_distinct(self.view_entries(), key@);
            }
            lemma_position_of(self.view_entries(), key@);
        }
        let ghost before = self.view_entries();
        match self.position(key.as_str()) {
            Some(at) => {
                self.entries[at].value = None;
                assert(self.view_entries() =~= with_key(before, key@));
            },
            None => {
                self.entries.push(Entry { key, value: None });
            },
        }
    }

    /// The fragment that `key` has resolved to.
    pub fn get(&self, key: &str) -> (found: Option<&Fragment>)
        ensures
            found.deep_view() == resolved_of(self.view_entries(), key@),
    {
        proof {
            lemma_position_of(self.view_entries(), key@);
        }
        match self.position(key) {
            Some(at) => {
                self.entries[at].value.as_ref()
            },
            None => None,
        }
    }

    /// The number of keys.
    pub fn len(&self) -> (count: usize)
        ensures
            count == self.view_entries().len(),
    {
        self.entries.len()
    }

    /// The index of the key to ask for next, when the keys before `from`
    /// have been asked for: every key is asked for once, in the order in
    /// which the keys were found.
    pub fn next_key(&self, from: usize) -> (next: Option<usize>)
        ensures
            next == if from < self.view_entries().len() {
                Some(from)
            } else {
                None
            },
    {
        if from < self.entries.len() {
            Some(from)
        } else {
            None
        }
    }

    /// The target to ask for the key at `index`: the key resolved against
    /// `base`, the target of the request that is being answered. An
    /// absolute key replaces the base's path and query, any other is put
    /// behind the base's path and a `/`.
    pub fn request_for(&self, base: &Target, index: usize) -> (request: Result<Target, RewriteError>)
        requires
            index < self.view_entries().len(),
        ensures
            match expanded(base.deep_view(), self.view_entries()[index as int].key) {
                Some(target) => request matches Ok(found) && found.deep_view() == target,
                None => request matches Err(e) && e == RewriteError::Uri,
            },
    {
        expand_uri(base, self.entries[index].key.as_str())
    }

    /// Stores the fragment that the key at `index` resolved to.
    pub fn store(&mut self, index: usize, fragment: Fragment)
        requires
            index < old(self).view_entries().len(),
        ensures
            final(self).view_entries() == with_fragment(
                old(self).view_entries(),
                index as int,
                fragment.deep_view(),
            ),
            old(self).well_formed() ==> final(self).well_formed(),
    {
        let ghost before = self.view_entries();
        self.entries[index].value = Some(fragment);
        assert(self.view_entries() =~= with_fragment(before, index as int, fragment.deep_view()));
    }
}

impl ResolveLayer {
    /// Create a new [`ResolveLayer`].
    pub fn new() -> (layer: ResolveLayer)
        ensures
            layer == (ResolveLayer {  }),
    {
        ResolveLayer {  }
    }

    /// Puts a [`ResolveService`] around `inner`.
    pub fn layer<S>(&self, inner: S) -> (service: ResolveService<S>)
        ensures
            service.inner == inner,
    {
        ResolveService::new(inner)
    }
}

impl<S> ResolveService<S> {
    /// Create a new [`ResolveService`] middleware.
    pub fn new(inner: S) -> (service: ResolveService<S>)
        ensures
            service.inner == inner,
    {
        ResolveService { inner }
    }

    /// Says what to do next for a response to a request for `base` whose
    /// keys before `from` are resolved: the index and the target of the
    /// next request, or nothing more. The caller sends the request, stores
    /// the response under the index and comes back with the index behind
    /// it.
    pub fn call(res: &ResponseHead, base: &Target, from: usize) -> (step: Result<Option<(usize, Target)>, RewriteError>)
        ensures
            match next_step(res.context, base.deep_view(), from) {
                Ok(None) => step matches Ok(None),
                Ok(Some((index, target))) => step matches Ok(Some(found)) && found.0 == index
                    && found.1.deep_view() == target,
                Err(e) => step matches Err(g) && g == e,
            },
    {
        match &res.context {
            None => Ok(None),
            Some(context) => match context.next_key(from) {
                None => Ok(None),
                Some(index) => {
                    let target = context.request_for(base, index)?;
                    Ok(Some((index, target)))
                },
            },
        }
    }
}

} // verus!
