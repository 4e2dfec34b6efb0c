//! Reading JSON settings files with `serde_json`: the parse and the accessors the
//! picker uses, each behind a trusted item whose result is named, and what the picker
//! reads out of a parsed value.
use vstd::prelude::*;

use crate::reloaded::without_leading_boms;
use crate::text::opt_text;

verus! {

/// `serde_json::Value`, carried through as an opaque value.
#[verifier::external_type_specification]
#[verifier::external_body]
pub struct ExJsonValue(serde_json::Value);

/// The value `serde_json::from_str` parses `text` into, or `None` where it rejects it.
pub uninterp spec fn parsed_json(text: Seq<char>) -> Option<serde_json::Value>;

/// The member `key` of a JSON object (`Value::get` with a string index); `None` for a
/// missing key or a value that is not an object.
pub uninterp spec fn json_get(v: serde_json::Value, key: Seq<char>) -> Option<serde_json::Value>;

/// The text of a JSON string (`Value::as_str`); `None` for any other value.
pub uninterp spec fn json_str(v: serde_json::Value) -> Option<Seq<char>>;

/// The flag of a JSON boolean (`Value::as_bool`); `None` for any other value.
pub uninterp spec fn json_bool(v: serde_json::Value) -> Option<bool>;

/// The elements of a JSON array (`Value::as_array`); `None` for any other value.
pub uninterp spec fn json_array(v: serde_json::Value) -> Option<Seq<serde_json::Value>>;

/// Calls `serde_json::from_str` for a `Value` and keeps the value where it parses.
#[verifier::external_body]
fn parse_json(text: &str) -> (r: Option<serde_json::Value>)
    ensures
        r == parsed_json(text@),
{
    serde_json::from_str::<serde_json::Value>(text).ok()
}

/// Calls `Value::get` with a string key.
#[verifier::external_body]
fn get_member<'a>(v: &'a serde_json::Value, key: &str) -> (r: Option<&'a serde_json::Value>)
    ensures
        match r {
            Some(m) => json_get(*v, key@) == Some(*m),
            None => json_get(*v, key@) is None,
        },
{
    v.get(key)
}

/// Calls `Value::as_str`.
#[verifier::external_body]
fn value_str(v: &serde_json::Value) -> (r: Option<&str>)
    ensures
        match r {
            Some(s) => json_str(*v) == Some(s@),
            None => json_str(*v) is None,
        },
{
    v.as_str()
}

/// Calls `Value::as_bool`.
#[verifier::external_body]
fn value_bool(v: &serde_json::Value) -> (r: Option<bool>)
    ensures
        r == json_bool(*v),
{
    v.as_bool()
}

/// Calls `Value::as_array`.
#[verifier::external_body]
fn value_array(v: &serde_json::Value) -> (r: Option<&Vec<serde_json::Value>>)
    ensures
        match r {
            Some(a) => json_array(*v) == Some(a@),
            None => json_array(*v) is None,
        },
{
    v.as_array()
}

/// The JSON value in the text of a settings file: Reloaded-II's files can start with
/// byte-order marks, which the parser rejects, so they are dropped first.
pub fn read_json(raw: &str) -> (r: Option<serde_json::Value>)
    ensures
        r == parsed_json(without_leading_boms(raw@)),
{
    parse_json(crate::reloaded::json_text(raw))
}

/// The text of the string member `key`, where `v` is an object holding one.
pub open spec fn member_str(v: serde_json::Value, key: Seq<char>) -> Option<Seq<char>> {
    match json_get(v, key) {
        Some(m) => json_str(m),
        None => None,
    }
}

/// The flag of the boolean member `key`, where `v` is an object holding one.
pub open spec fn member_bool(v: serde_json::Value, key: Seq<char>) -> Option<bool> {
    match json_get(v, key) {
        Some(m) => json_bool(m),
        None => None,
    }
}

/// The elements of the array member `key`, where `v` is an object holding one.
pub open spec fn member_array(v: serde_json::Value, key: Seq<char>) -> Option<Seq<serde_json::Value>> {
    match json_get(v, key) {
        Some(m) => json_array(m),
        None => None,
    }
}

/// The texts of the elements that are strings, in order; other elements are skipped.
pub open spec fn string_items(items: Seq<serde_json::Value>) -> Seq<Seq<char>>
    decreases items.len(),
{
    if items.len() == 0 {
        Seq::empty()
    } else {
        match json_str(items.last()) {
            Some(s) => string_items(items.drop_last()).push(s),
            None => string_items(items.drop_last()),
        }
    }
}

/// The string member `key` of `v`.
pub fn string_member(v: &serde_json::Value, key: &str) -> (r: Option<String>)
    ensures
        opt_text(r) == member_str(*v, key@),
{
    match get_member(v, key) {
        Some(m) => match value_str(m) {
            Some(s) => Some(s.to_owned()),
            None => None,
        },
        None => None,
    }
}

/// The boolean member `key` of `v`.
pub fn bool_member(v: &serde_json::Value, key: &str) -> (r: Option<bool>)
    ensures
        r == member_bool(*v, key@),
{
    match get_member(v, key) {
        Some(m) => value_bool(m),
        None => None,
    }
}

/// The array member `key` of `v`.
pub fn array_member<'a>(v: &'a serde_json::Value, key: &str) -> (r: Option<&'a Vec<serde_json::Value>>)
    ensures
        match r {
            Some(a) => member_array(*v, key@) == Some(a@),
            None => member_array(*v, key@) is None,
        },
{
    match get_member(v, key) {
        Some(m) => value_array(m),
        None => None,
    }
}

/// The texts of the string elements of `items`, in order.
pub fn strings_of(items: &Vec<serde_json::Value>) -> (r: Vec<String>)
    ensures
        r@.map_values(|s: String| s@) == string_items(items@),
{
    let mut out: Vec<String> = Vec::new();
    let mut k: usize = 0;
    while k < items.len()
        invariant
            k <= items.len(),
            out@.map_values(|s: String| s@) == string_items(items@.take(k as int)),
        decreases items.len() - k,
    {
        proof {
            assert(items@.take(k + 1).drop_last() =~= items@.take(k as int));
            assert(items@.take(k + 1).last() == items@[k as int]);
        }
        let ghost before = out@;
        match value_str(&items[k]) {
            Some(s) => {
                out.push(s.to_owned());
                proof {
                    assert(out@.map_values(|s: String| s@) =~= before.map_values(|s: String| s@).push(s@));
                }
            },
            None => {},
        }
        k = k + 1;
    }
    proof {
        assert(items@.take(items@.len() as int) =~= items@);
    }
    out
}

} // verus!
