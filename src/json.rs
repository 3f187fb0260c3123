//! Lookups into a JSON document, made by serde_json. The logic that builds
//! typed values out of these lookups is verified where it is used.
use vstd::prelude::*;

verus! {

/// The string at `field` of the JSON object in `body`, if `body` parses as
/// an object that holds a string there.
pub uninterp spec fn json_str_at(body: Seq<char>, field: Seq<char>) -> Option<Seq<char>>;

/// The unsigned integer at `field` of the JSON object in `body`.
pub uninterp spec fn json_u64_at(body: Seq<char>, field: Seq<char>) -> Option<u64>;

/// The boolean at `field` of the JSON object in `body`.
pub uninterp spec fn json_bool_at(body: Seq<char>, field: Seq<char>) -> Option<bool>;

/// The number of items of the array at `field` of the JSON object in `body`.
pub uninterp spec fn json_len_at(body: Seq<char>, field: Seq<char>) -> Option<usize>;

/// The string at `sub` of item `i` of the array at `field` of the JSON
/// object in `body`.
pub uninterp spec fn json_item_str_at(
    body: Seq<char>,
    field: Seq<char>,
    i: usize,
    sub: Seq<char>,
) -> Option<Seq<char>>;

/// Relies on `serde_json::from_str` into a `serde_json::Value`, then
/// `Value::get` and `Value::as_str`: the string at `field`, a function of the
/// two texts alone.
#[verifier::external_body]
pub(crate) fn json_str_field(body: &str, field: &str) -> (r: Option<String>)
    ensures
        match r {
            Some(s) => json_str_at(body@, field@) == Some(s@),
            None => json_str_at(body@, field@) is None,
        },
{
    let v = serde_json::from_str::<serde_json::Value>(body).ok()?;
    v.get(field)?.as_str().map(|s| s.to_string())
}

/// Relies on `serde_json::from_str` into a `serde_json::Value`, then
/// `Value::get` and `Value::as_u64`: the unsigned integer at `field`.
#[verifier::external_body]
pub(crate) fn json_u64_field(body: &str, field: &str) -> (r: Option<u64>)
    ensures
        r == json_u64_at(body@, field@),
{
    let v = serde_json::from_str::<serde_json::Value>(body).ok()?;
    v.get(field)?.as_u64()
}

/// Relies on `serde_json::from_str` into a `serde_json::Value`, then
/// `Value::get` and `Value::as_bool`: the boolean at `field`.
#[verifier::external_body]
pub(crate) fn json_bool_field(body: &str, field: &str) -> (r: Option<bool>)
    ensures
        r == json_bool_at(body@, field@),
{
    let v = serde_json::from_str::<serde_json::Value>(body).ok()?;
    v.get(field)?.as_bool()
}

/// Relies on `serde_json::from_str` into a `serde_json::Value`, then
/// `Value::get` and `Value::as_array`: the length of the array at `field`.
#[verifier::external_body]
pub(crate) fn json_array_len(body: &str, field: &str) -> (r: Option<usize>)
    ensures
        r == json_len_at(body@, field@),
{
    let v = serde_json::from_str::<serde_json::Value>(body).ok()?;
    v.get(field)?.as_array().map(|a| a.len())
}

/// Relies on `serde_json::from_str` into a `serde_json::Value`, then
/// `Value::get`, `Value::as_array`, indexing with `slice::get` and
/// `Value::as_str`: the string at `sub` of item `i` of the array at `field`.
#[verifier::external_body]
pub(crate) fn json_item_str_field(body: &str, field: &str, i: usize, sub: &str) -> (r: Option<
    String,
>)
    ensures
        match r {
            Some(s) => json_item_str_at(body@, field@, i, sub@) == Some(s@),
            None => json_item_str_at(body@, field@, i, sub@) is None,
        },
{
    let v = serde_json::from_str::<serde_json::Value>(body).ok()?;
    v.get(field)?.as_array()?.get(i)?.get(sub)?.as_str().map(|s| s.to_string())
}

/// The signed integer at `field` of the JSON object in `body`.
pub uninterp spec fn json_i64_at(body: Seq<char>, field: Seq<char>) -> Option<i64>;

/// The JSON text of the value at `field` of the JSON object in `body`, when
/// the field is present and not `null`.
pub uninterp spec fn json_sub_at(body: Seq<char>, field: Seq<char>) -> Option<Seq<char>>;

/// The JSON text of item `i` of the array at `field` of the JSON object in
/// `body`.
pub uninterp spec fn json_item_at(body: Seq<char>, field: Seq<char>, i: usize) -> Option<Seq<char>>;

/// Relies on `serde_json::from_str` into a `serde_json::Value`, then
/// `Value::get` and `Value::as_i64`: the signed integer at `field`.
#[verifier::external_body]
pub(crate) fn json_i64_field(body: &str, field: &str) -> (r: Option<i64>)
    ensures
        r == json_i64_at(body@, field@),
{
    let v = serde_json::from_str::<serde_json::Value>(body).ok()?;
    v.get(field)?.as_i64()
}

/// Relies on `serde_json::from_str` into a `serde_json::Value`, then
/// `Value::get` and `serde_json::to_string`: the JSON text of the value at
/// `field`, when it is present and not `null`.
#[verifier::external_body]
pub(crate) fn json_sub_text(body: &str, field: &str) -> (r: Option<String>)
    ensures
        match r {
            Some(t) => json_sub_at(body@, field@) == Some(t@),
            None => json_sub_at(body@, field@) is None,
        },
{
    let v = serde_json::from_str::<serde_json::Value>(body).ok()?;
    match v.get(field)? {
        serde_json::Value::Null => None,
        x => serde_json::to_string(x).ok(),
    }
}

/// Relies on `serde_json::from_str` into a `serde_json::Value`, then
/// `Value::get`, `Value::as_array`, `slice::get` and `serde_json::to_string`:
/// the JSON text of item `i` of the array at `field`.
#[verifier::external_body]
pub(crate) fn json_item_text(body: &str, field: &str, i: usize) -> (r: Option<String>)
    ensures
        match r {
            Some(t) => json_item_at(body@, field@, i) == Some(t@),
            None => json_item_at(body@, field@, i) is None,
        },
{
    let v = serde_json::from_str::<serde_json::Value>(body).ok()?;
    serde_json::to_string(v.get(field)?.as_array()?.get(i)?).ok()
}

/// The string that the JSON text `text` holds, if it is a string.
pub uninterp spec fn json_str_of(text: Seq<char>) -> Option<Seq<char>>;

/// Relies on `serde_json::from_str` into a `serde_json::Value`, then
/// `Value::as_str`: the string that a JSON text holds.
#[verifier::external_body]
pub(crate) fn json_str_value(text: &str) -> (r: Option<String>)
    ensures
        match r {
            Some(s) => json_str_of(text@) == Some(s@),
            None => json_str_of(text@) is None,
        },
{
    let v = serde_json::from_str::<serde_json::Value>(text).ok()?;
    v.as_str().map(|s| s.to_string())
}

} // verus!
