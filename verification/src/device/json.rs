//! JSON documents, read through `serde_json`.
//!
//! A document is held as a `serde_json::Value`, which is opaque here. What a
//! value holds is known only through the functions of this module; each states
//! its result in terms of a name for what `serde_json` finds in the value.

use vstd::prelude::*;

verus! {

/// `serde_json::Value`, a JSON document or a part of one.
#[verifier::external_type_specification]
#[verifier::external_body]
pub struct ExValue(serde_json::Value);

/// `serde_json::Error`, what the parser reports of a text that spells no
/// document.
#[verifier::external_type_specification]
#[verifier::external_body]
pub struct ExError(serde_json::Error);

/// The document that `text` spells, if it spells one.
pub uninterp spec fn json_of(text: Seq<char>) -> Option<serde_json::Value>;

/// Whether `v` is an object.
pub uninterp spec fn json_is_object(v: serde_json::Value) -> bool;

/// Whether `v` is `null`.
pub uninterp spec fn json_is_null(v: serde_json::Value) -> bool;

/// The member of the object `v` under `key`; nothing if `v` is no object or
/// has no such member.
pub uninterp spec fn json_member(v: serde_json::Value, key: Seq<char>) -> Option<
    serde_json::Value,
>;

/// The elements of the array `v`; nothing if `v` is no array.
pub uninterp spec fn json_elements(v: serde_json::Value) -> Option<Seq<serde_json::Value>>;

/// The characters of the string `v`; nothing if `v` is no string.
pub uninterp spec fn json_text(v: serde_json::Value) -> Option<Seq<char>>;

/// The truth value `v`; nothing if `v` is neither `true` nor `false`.
pub uninterp spec fn json_bool(v: serde_json::Value) -> Option<bool>;

/// The number `v` as an unsigned integer; nothing if `v` is no number, is
/// negative, or is held as a real number: one written with a fraction or an
/// exponent, an integer too large for 64 bits, or a negative zero.
pub uninterp spec fn json_u64(v: serde_json::Value) -> Option<u64>;

/// The number `v` as a signed integer; nothing if `v` is no number, does not
/// fit 64 bits with a sign, or is held as a real number: one written with a
/// fraction or an exponent, an integer too large for 64 bits, or a negative
/// zero.
pub uninterp spec fn json_i64(v: serde_json::Value) -> Option<i64>;

/// The number `v` in decimal notation, as `serde_json` prints it; nothing if
/// `v` is no number.
pub uninterp spec fn json_numeral(v: serde_json::Value) -> Option<Seq<char>>;

/// Calls `serde_json::from_str` for a `Value`. Equal texts give equal
/// documents, and a text that spells none gives the parser's error.
#[verifier::external_body]
pub(crate) fn parse(text: &str) -> (r: Result<serde_json::Value, serde_json::Error>)
    ensures
        r is Ok <==> json_of(text@) is Some,
        r matches Ok(v) ==> json_of(text@) == Some(v),
{
    serde_json::from_str::<serde_json::Value>(text)
}

/// Calls `Value::is_object`.
#[verifier::external_body]
pub(crate) fn is_object(v: &serde_json::Value) -> (r: bool)
    ensures
        r == json_is_object(*v),
{
    v.is_object()
}

/// Calls `Value::is_null`.
#[verifier::external_body]
pub(crate) fn is_null(v: &serde_json::Value) -> (r: bool)
    ensures
        r == json_is_null(*v),
{
    v.is_null()
}

/// Calls `Value::get` with a string key, which looks the key up in an object
/// and finds nothing in any other value.
#[verifier::external_body]
pub(crate) fn member<'a>(v: &'a serde_json::Value, key: &str) -> (r: Option<
    &'a serde_json::Value,
>)
    ensures
        r is Some <==> json_member(*v, key@) is Some,
        r matches Some(m) ==> json_member(*v, key@) == Some(*m),
{
    v.get(key)
}

/// Calls `Value::as_array`.
#[verifier::external_body]
pub(crate) fn elements(v: &serde_json::Value) -> (r: Option<&Vec<serde_json::Value>>)
    ensures
        r is Some <==> json_elements(*v) is Some,
        r matches Some(items) ==> json_elements(*v) == Some(items@),
{
    v.as_array()
}

/// Calls `Value::as_str`.
#[verifier::external_body]
pub(crate) fn text(v: &serde_json::Value) -> (r: Option<&str>)
    ensures
        r is Some <==> json_text(*v) is Some,
        r matches Some(s) ==> json_text(*v) == Some(s@),
{
    v.as_str()
}

/// Calls `Value::as_bool`.
#[verifier::external_body]
pub(crate) fn truth(v: &serde_json::Value) -> (r: Option<bool>)
    ensures
        r == json_bool(*v),
{
    v.as_bool()
}

/// Calls `Value::as_u64`.
#[verifier::external_body]
pub(crate) fn unsigned(v: &serde_json::Value) -> (r: Option<u64>)
    ensures
        r == json_u64(*v),
{
    v.as_u64()
}

/// Calls `Value::as_i64`.
#[verifier::external_body]
pub(crate) fn signed(v: &serde_json::Value) -> (r: Option<i64>)
    ensures
        r == json_i64(*v),
{
    v.as_i64()
}

/// Calls `Value::as_number` and prints the number with `to_string`.
#[verifier::external_body]
pub(crate) fn numeral(v: &serde_json::Value) -> (r: Option<String>)
    ensures
        r is Some <==> json_numeral(*v) is Some,
        r matches Some(t) ==> json_numeral(*v) == Some(t@),
{
    v.as_number().map(ToString::to_string)
}

} // verus!
