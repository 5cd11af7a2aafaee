//! Reading the query of a request, and writing resolution keys.

use vstd::prelude::*;
use vstd::string::*;
use vstd::utf8::encode_utf8;
use crate::engine::Directive;
use crate::text::{join, same_text};
use percent_encoding::{utf8_percent_encode, NON_ALPHANUMERIC};

verus! {

/// The pairs of name and value that `form_urlencoded` reads out of a query,
/// in the order in which they stand there.
pub uninterp spec fn form_pairs_of(query: Seq<char>) -> Seq<(Seq<char>, Seq<char>)>;

/// Whether a byte is an ASCII letter or digit.
pub open spec fn is_alphanumeric(byte: u8) -> bool {
    ||| 0x30 <= byte <= 0x39
    ||| 0x41 <= byte <= 0x5a
    ||| 0x61 <= byte <= 0x7a
}

/// The upper-case hexadecimal digit of a value below sixteen.
pub open spec fn hex_digit(value: u8) -> char {
    if value < 10 {
        (0x30 + value) as u8 as char
    } else {
        (0x41 + value - 10) as u8 as char
    }
}

/// One byte, percent-encoded: a letter or digit stands for itself, any other
/// byte becomes `%` and its two hexadecimal digits.
pub open spec fn encoded_byte(byte: u8) -> Seq<char> {
    if is_alphanumeric(byte) {
        seq![byte as char]
    } else {
        seq!['%', hex_digit(byte / 16), hex_digit(byte % 16)]
    }
}

/// A text, percent-encoded: the encoding of each byte of its UTF-8 form.
pub open spec fn percent_encoded(text: Seq<char>) -> Seq<char> {
    encode_utf8(text).map_values(|byte: u8| encoded_byte(byte)).flatten()
}

/// The value that a name has in a list of pairs: that of the last pair with
/// the name, as in a map that was filled pair by pair.
pub open spec fn value_of(pairs: Seq<(Seq<char>, Seq<char>)>, name: Seq<char>) -> Option<Seq<char>>
    decreases pairs.len(),
{
    if pairs.len() == 0 {
        None
    } else if pairs.last().0 == name {
        Some(pairs.last().1)
    } else {
        value_of(pairs.drop_last(), name)
    }
}

/// The selector that a request asks to filter by: the value of the parameter
/// `name` in its query, unless the query, the parameter or the value is
/// missing or the value is empty.
pub open spec fn requested_selector(query: Option<Seq<char>>, name: Seq<char>) -> Option<Seq<char>> {
    match query {
        None => None,
        Some(q) => match value_of(form_pairs_of(q), name) {
            None => None,
            Some(v) => if v.len() == 0 {
                None
            } else {
                Some(v)
            },
        },
    }
}

/// The selector that the filter runs with for a requested selector: the
/// selector itself and all that descends from what it matches.
pub open spec fn effective_selector(selector: Seq<char>) -> Seq<char> {
    selector + ", "@ + selector + " *"@
}

/// The key under which a directive's fragment is resolved: its target, and,
/// where it names a selector, `?hx-select=` and the selector percent-encoded.
pub open spec fn resolution_key(target: Seq<char>, select: Option<Seq<char>>) -> Seq<char> {
    match select {
        None => target,
        Some(s) => target + "?hx-select="@ + percent_encoded(s),
    }
}

/// The value of the parameter `parent` in a query, `None` where the query
/// has no such parameter.
pub open spec fn parent_of(query: Seq<char>) -> Option<Seq<char>> {
    value_of(form_pairs_of(query), "parent"@)
}

/// Splits a query with `form_urlencoded::parse` into its pairs of name and
/// value, each decoded. The contract names the pairs.
#[verifier::external_body]
pub(crate) fn form_pairs(query: &str) -> (pairs: Vec<(String, String)>)
    ensures
        pairs.deep_view() == form_pairs_of(query@),
{
    form_urlencoded::parse(query.as_bytes()).into_owned().collect()
}

/// Percent-encodes a text with `percent_encoding::utf8_percent_encode` and
/// the set `NON_ALPHANUMERIC`: every byte of the text's UTF-8 form that is
/// no ASCII letter or digit becomes `%` and two upper-case hexadecimal
/// digits.
#[verifier::external_body]
pub(crate) fn percent_encode(text: &str) -> (encoded: String)
    ensures
        encoded@ == percent_encoded(text@),
{
    utf8_percent_encode(text, NON_ALPHANUMERIC).to_string()
}

/// The value of the last pair named `name`.
pub fn last_value(pairs: &Vec<(String, String)>, name: &str) -> (value: Option<String>)
    ensures
        value.deep_view() == value_of(pairs.deep_view(), name@),
{
    let mut at: usize = pairs.len();
    assert(pairs.deep_view().take(at as int) =~= pairs.deep_view());
    while at > 0
        invariant
            at <= pairs.len(),
            value_of(pairs.deep_view(), name@) == value_of(pairs.deep_view().take(at as int), name@),
        decreases at,
    {
        let ghost prefix = pairs.deep_view().take(at as int);
        at = at - 1;
        assert(prefix.drop_last() == pairs.deep_view().take(at as int));
        if same_text(pairs[at].0.as_str(), name) {
            return Some(pairs[at].1.clone());
        }
    }
    None
}

/// The selector that a request with this query asks to filter by, ready for
/// the filter.
pub fn selector_from_query(query: &Option<String>, name: &str) -> (selector: Option<String>)
    ensures
        selector.deep_view() == match requested_selector(query.deep_view(), name@) {
            Some(s) => Some(effective_selector(s)),
            None => None,
        },
{
    match query {
        None => None,
        Some(q) => {
            let pairs = form_pairs(q.as_str());
            match last_value(&pairs, name) {
                None => None,
                Some(v) => {
                    if v.as_str().unicode_len() == 0 {
                        None
                    } else {
                        let mut s = join(v.as_str(), ", ");
                        s.append(v.as_str());
                        s.append(" *");
                        Some(s)
                    }
                },
            }
        },
    }
}

/// The key of a directive that names a target: the target, with the
/// directive's selector appended as a percent-encoded query parameter.
pub fn get_query_string(directive: &Directive) -> (key: String)
    requires
        directive.target is Some,
    ensures
        key@ == resolution_key(directive.target.unwrap()@, directive.select.deep_view()),
{
    let target: &String = match &directive.target {
        Some(t) => t,
        None => { proof { assert(false); } unreached() },
    };
    let mut key = target.clone();
    match &directive.select {
        None => {},
        Some(s) => {
            key.append("?hx-select=");
            let encoded = percent_encode(s.as_str());
            key.append(encoded.as_str());
        },
    }
    key
}

/// The value of the parameter `parent` in a query, if the query has one.
pub fn parent_from_query(query: &str) -> (parent: Option<String>)
    ensures
        parent.deep_view() == parent_of(query@),
{
    let pairs = form_pairs(query);
    last_value(&pairs, "parent")
}

} // verus!
