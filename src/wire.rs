//! How values are written on the wire: decimal numbers in paths and JSON
//! objects of strings in bodies. The JSON itself is serde_json's.

use std::collections::BTreeMap;
use std::collections::HashMap;
use vstd::prelude::*;

verus! {

/// The decimal digit `d` (below ten).
pub open spec fn digit_char(d: nat) -> char {
    seq!['0', '1', '2', '3', '4', '5', '6', '7', '8', '9'][d as int]
}

/// The decimal digits of `n`, most significant first, with no leading zero.
pub open spec fn digits(n: nat) -> Seq<char>
    decreases n,
{
    if n < 10 {
        seq![digit_char(n)]
    } else {
        digits(n / 10).push(digit_char(n % 10))
    }
}

/// How an integer is written in decimal: a minus sign before the digits of a
/// negative number.
pub open spec fn decimal(n: int) -> Seq<char> {
    if n < 0 {
        seq!['-'] + digits((-n) as nat)
    } else {
        digits(n as nat)
    }
}

/// Relies on `i32`'s `Display` in the standard library (through `to_string`):
/// the decimal digits, after a minus sign for a negative number.
#[verifier::external_body]
pub(crate) fn decimal_text(n: i32) -> (r: String)
    ensures
        r@ == decimal(n as int),
{
    n.to_string()
}

/// The text of an optional string.
pub open spec fn text_view(t: Option<String>) -> Option<Seq<char>> {
    match t {
        Some(s) => Some(s@),
        None => None,
    }
}

/// Name-value pairs as text.
pub open spec fn members_view(members: Seq<(String, String)>) -> Seq<(Seq<char>, Seq<char>)> {
    members.map_values(|m: (String, String)| (m.0@, m.1@))
}

/// What serde_json writes for a JSON object whose members are the given
/// name-value pairs of strings (a repeated name keeps its last value), or
/// `None` where it reports an error.
pub uninterp spec fn json_object_text(members: Seq<(Seq<char>, Seq<char>)>) -> Option<Seq<char>>;

/// Relies on `serde_json::to_string` for a map from strings to strings: the
/// compact JSON text of that object.
#[verifier::external_body]
pub(crate) fn encode_object(members: &Vec<(String, String)>) -> (r: Option<String>)
    ensures
        text_view(r) == json_object_text(members_view(members@)),
{
    let map: BTreeMap<&str, &str> = members.iter().map(|m| (m.0.as_str(), m.1.as_str())).collect();
    serde_json::to_string(&map).ok()
}

/// The member `name` of `text`, where `text` is a JSON object whose members
/// are all strings and one of them is called `name`; `None` otherwise.
pub uninterp spec fn json_member(text: Seq<char>, name: Seq<char>) -> Option<Seq<char>>;

/// Relies on `serde_json::from_str` into a map from strings to strings, of
/// which the entry `name` is taken.
#[verifier::external_body]
pub(crate) fn decode_member(text: &str, name: &str) -> (r: Option<String>)
    ensures
        text_view(r) == json_member(text@, name@),
{
    serde_json::from_str::<HashMap<String, String>>(text).ok().and_then(|mut m| m.remove(name))
}

} // verus!
