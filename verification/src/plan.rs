//! From the directives of a document and the fragments they resolved to, the
//! edits that injection carries out.

use vstd::prelude::*;
use vstd::string::*;
use vstd::utf8::{decode_utf8, encode_utf8_decode_utf8, valid_utf8};
use crate::engine::{Directive, DirectiveView, Edit, EditView};
use crate::error::RewriteError;
use crate::message::{utf8_text, Fragment, FragmentView};
use crate::query::{get_query_string, resolution_key};
use crate::resolve::{resolved_of, EntryView, ResolveContext};
use crate::swap::{content_kind_of, swap_mode_of, ContentKind, SwapMode};

verus! {

/// The edit that leaves an element as it is.
pub open spec fn untouched() -> EditView {
    EditView { mode: None, content: Seq::empty(), kind: ContentKind::Text }
}

/// The edit that merges a fragment into the element of a directive: in the
/// mode that the directive's swap attribute names, with the fragment's body
/// read as UTF-8, as markup or text by the fragment's content type.
pub open spec fn edit_for(directive: DirectiveView, fragment: FragmentView) -> EditView {
    EditView {
        mode: swap_mode_of(directive.swap),
        content: decode_utf8(fragment.body),
        kind: content_kind_of(fragment.content_type),
    }
}

/// The number of directives that name a target.
pub open spec fn fetches(directives: Seq<DirectiveView>) -> nat
    decreases directives.len(),
{
    if directives.len() == 0 {
        0
    } else {
        fetches(directives.drop_last()) + if directives.last().target is Some {
            1nat
        } else {
            0nat
        }
    }
}

/// The edits for a document's directives when fragments are paired with
/// them by position: the i-th directive that names a target gets the i-th
/// fragment. An element without a target is left alone. The first directive,
/// in document order, that has no fragment left or whose fragment is not
/// UTF-8 fails the whole plan.
pub open spec fn planned(directives: Seq<DirectiveView>, fragments: Seq<FragmentView>) -> Result<
    Seq<EditView>,
    RewriteError,
>
    decreases directives.len(),
{
    if directives.len() == 0 {
        Ok(Seq::empty())
    } else {
        match planned(directives.drop_last(), fragments) {
            Err(e) => Err(e),
            Ok(edits) => {
                let next = fetches(directives.drop_last()) as int;
                if directives.last().target is None {
                    Ok(edits.push(untouched()))
                } else if next >= fragments.len() {
                    Err(RewriteError::MissingResolution)
                } else if !valid_utf8(fragments[next].body) {
                    Err(RewriteError::InvalidText)
                } else {
                    Ok(edits.push(edit_for(directives.last(), fragments[next])))
                }
            },
        }
    }
}

/// The edits for a document's directives when fragments are looked up by
/// key. An element without a target is left alone. The first directive, in
/// document order, whose key is unresolved or whose fragment is not UTF-8
/// fails the whole plan.
pub open spec fn planned_by_key(directives: Seq<DirectiveView>, entries: Seq<EntryView>) -> Result<
    Seq<EditView>,
    RewriteError,
>
    decreases directives.len(),
{
    if directives.len() == 0 {
        Ok(Seq::empty())
    } else {
        match planned_by_key(directives.drop_last(), entries) {
            Err(e) => Err(e),
            Ok(edits) => {
                let last = directives.last();
                match last.target {
                    None => Ok(edits.push(untouched())),
                    Some(target) => match resolved_of(entries, resolution_key(target, last.select)) {
                        None => Err(RewriteError::MissingResolution),
                        Some(fragment) => if !valid_utf8(fragment.body) {
                            Err(RewriteError::InvalidText)
                        } else {
                            Ok(edits.push(edit_for(last, fragment)))
                        },
                    },
                }
            },
        }
    }
}

/// A plan that succeeds holds one edit for each directive.
pub proof fn lemma_planned_len(directives: Seq<DirectiveView>, fragments: Seq<FragmentView>)
    ensures
        planned(directives, fragments) matches Ok(edits) ==> edits.len() == directives.len(),
    decreases directives.len(),
{
    if directives.len() > 0 {
        lemma_planned_len(directives.drop_last(), fragments);
    }
}

/// The edit that leaves an element as it is.
pub fn keep() -> (edit: Edit)
    ensures
        edit.deep_view() == untouched(),
{
    Edit { mode: None, content: String::new(), kind: ContentKind::Text }
}

/// The edit that merges `fragment` into the element of `directive`, or the
/// error of a fragment that is not UTF-8.
pub fn edit_of(directive: &Directive, fragment: &Fragment) -> (edit: Result<Edit, RewriteError>)
    ensures
        match edit {
            Ok(e) => valid_utf8(fragment.deep_view().body) && e.deep_view() == edit_for(
                directive.deep_view(),
                fragment.deep_view(),
            ),
            Err(e) => !valid_utf8(fragment.deep_view().body) && e == RewriteError::InvalidText,
        },
{
    match utf8_text(fragment.body.as_slice()) {
        None => Err(RewriteError::InvalidText),
        Some(content) => {
            proof {
                encode_utf8_decode_utf8(content@);
            }
            Ok(
                Edit {
                    mode: SwapMode::from_attribute(&directive.swap),
                    content,
                    kind: ContentKind::from_content_type(&fragment.content_type),
                },
            )
        },
    }
}

/// Plans the edits for `directives` with `fragments` paired by position.
pub fn plan(directives: &Vec<Directive>, fragments: &Vec<Fragment>) -> (edits: Result<Vec<Edit>, RewriteError>)
    ensures
        match edits {
            Ok(list) => planned(directives.deep_view(), fragments.deep_view()) == Ok::<Seq<EditView>, RewriteError>(
                list.deep_view(),
            ),
            Err(e) => planned(directives.deep_view(), fragments.deep_view()) == Err::<Seq<EditView>, RewriteError>(
                e,
            ),
        },
{
    let mut list: Vec<Edit> = Vec::new();
    let mut next: usize = 0;
    let mut at: usize = 0;
    let ghost all = directives.deep_view();
    let ghost given = fragments.deep_view();
    assert(list.deep_view() =~= Seq::<EditView>::empty());
    while at < directives.len()
        invariant
            at <= directives.len(),
            all == directives.deep_view(),
            given == fragments.deep_view(),
            next == fetches(all.take(at as int)),
            next <= at,
            planned(all.take(at as int), given) == Ok::<Seq<EditView>, RewriteError>(list.deep_view()),
        decreases directives.len() - at,
    {
        let ghost before = list.deep_view();
        let ghost upto = all.take(at as int + 1);
        assert(upto.drop_last() =~= all.take(at as int));
        let directive = &directives[at];
        if directive.target.is_none() {
            list.push(keep());
            assert(list.deep_view() =~= before.push(untouched()));
        } else if next >= fragments.len() {
            proof {
                lemma_failed_prefix(all, given, at as int + 1);
            }
            return Err(RewriteError::MissingResolution);
        } else {
            match edit_of(directive, &fragments[next]) {
                Err(e) => {
                    proof {
                        lemma_failed_prefix(all, given, at as int + 1);
                    }
                    return Err(e);
                },
                Ok(edit) => {
                    list.push(edit);
                    assert(list.deep_view() =~= before.push(edit_for(upto.last(), given[next as int])));
                    next = next + 1;
                },
            }
        }
        at = at + 1;
    }
    assert(all.take(at as int) =~= all);
    Ok(list)
}

/// Plans the edits for `directives` with fragments looked up in `context`.
pub fn plan_by_key(directives: &Vec<Directive>, context: &ResolveContext) -> (edits: Result<
    Vec<Edit>,
    RewriteError,
>)
    ensures
        match edits {
            Ok(list) => planned_by_key(directives.deep_view(), context.view_entries()) == Ok::<
                Seq<EditView>,
                RewriteError,
            >(list.deep_view()),
            Err(e) => planned_by_key(directives.deep_view(), context.view_entries()) == Err::<
                Seq<EditView>,
                RewriteError,
            >(e),
        },
{
    let mut list: Vec<Edit> = Vec::new();
    let mut at: usize = 0;
    let ghost all = directives.deep_view();
    let ghost entries = context.view_entries();
    assert(list.deep_view() =~= Seq::<EditView>::empty());
    while at < directives.len()
        invariant
            at <= directives.len(),
            all == directives.deep_view(),
            entries == context.view_entries(),
            planned_by_key(all.take(at as int), entries) == Ok::<Seq<EditView>, RewriteError>(list.deep_view()),
        decreases directives.len() - at,
    {
        let ghost before = list.deep_view();
        let ghost upto = all.take(at as int + 1);
        assert(upto.drop_last() =~= all.take(at as int));
        let directive = &directives[at];
        if directive.target.is_none() {
            list.push(keep());
            assert(list.deep_view() =~= before.push(untouched()));
        } else {
            let key = get_query_string(directive);
            match context.get(key.as_str()) {
                None => {
                    proof {
                        lemma_failed_prefix_by_key(all, entries, at as int + 1);
                    }
                    return Err(RewriteError::MissingResolution);
                },
                Some(fragment) => {
                    match edit_of(directive, fragment) {
                        Err(e) => {
                            proof {
                                lemma_failed_prefix_by_key(all, entries, at as int + 1);
                            }
                            return Err(e);
                        },
                        Ok(edit) => {
                            list.push(edit);
                            assert(list.deep_view() =~= before.push(edit_for(upto.last(), fragment.deep_view())));
                        },
                    }
                },
            }
        }
        at = at + 1;
    }
    assert(all.take(at as int) =~= all);
    Ok(list)
}

/// With a fragment of text for every directive that names a target, the
/// plan succeeds: no directive is left without content.
pub proof fn lemma_pairing_complete(directives: Seq<DirectiveView>, fragments: Seq<FragmentView>)
    requires
        fragments.len() >= fetches(directives),
        forall|i: int| 0 <= i < fragments.len() ==> valid_utf8(#[trigger] fragments[i].body),
    ensures
        planned(directives, fragments) is Ok,
    decreases directives.len(),
{
    if directives.len() > 0 {
        lemma_pairing_complete(directives.drop_last(), fragments);
    }
}

/// With every key resolved to text, the plan by key succeeds: no directive
/// is left without content.
pub proof fn lemma_resolved_keys_plan(directives: Seq<DirectiveView>, entries: Seq<EntryView>)
    requires
        forall|i: int|
            0 <= i < directives.len() && (#[trigger] directives[i]).target is Some ==> {
                &&& resolved_of(entries, resolution_key(directives[i].target->0, directives[i].select)) matches Some(
                    fragment,
                )
                &&& valid_utf8(fragment.body)
            },
    ensures
        planned_by_key(directives, entries) is Ok,
    decreases directives.len(),
{
    if directives.len() > 0 {
        let front = directives.drop_last();
        assert forall|i: int| 0 <= i < front.len() && (#[trigger] front[i]).target is Some implies {
            &&& resolved_of(entries, resolution_key(front[i].target->0, front[i].select)) matches Some(fragment)
            &&& valid_utf8(fragment.body)
        } by {
        }
        lemma_resolved_keys_plan(front, entries);
    }
}

/// A plan that fails for the first `upto` directives fails, in the same
/// way, for all of them.
pub proof fn lemma_failed_prefix(directives: Seq<DirectiveView>, fragments: Seq<FragmentView>, upto: int)
    requires
        0 <= upto <= directives.len(),
        planned(directives.take(upto), fragments) is Err,
    ensures
        planned(directives, fragments) == planned(directives.take(upto), fragments),
    decreases directives.len(),
{
    if upto < directives.len() {
        assert(directives.drop_last().take(upto) =~= directives.take(upto));
        lemma_failed_prefix(directives.drop_last(), fragments, upto);
    } else {
        assert(directives.take(upto) =~= directives);
    }
}

/// A plan by key that fails for the first `upto` directives fails, in the
/// same way, for all of them.
pub proof fn lemma_failed_prefix_by_key(directives: Seq<DirectiveView>, entries: Seq<EntryView>, upto: int)
    requires
        0 <= upto <= directives.len(),
        planned_by_key(directives.take(upto), entries) is Err,
    ensures
        planned_by_key(directives, entries) == planned_by_key(directives.take(upto), entries),
    decreases directives.len(),
{
    if upto < directives.len() {
        assert(directives.drop_last().take(upto) =~= directives.take(upto));
        lemma_failed_prefix_by_key(directives.drop_last(), entries, upto);
    } else {
        assert(directives.take(upto) =~= directives);
    }
}

} // verus!
