use vstd::prelude::*;
use vstd::utf8::{decode_utf8, valid_utf8};

verus! {

/// Whether `payload` is one JSON value, as serde_json reads it.
pub uninterp spec fn json_is_valid(payload: Seq<char>) -> bool;

/// The text that the JSON value `payload` holds at the JSON pointer
/// `pointer`, if `payload` is valid and holds a string there.
pub uninterp spec fn json_text_at(payload: Seq<char>, pointer: Seq<char>) -> Option<Seq<char>>;

/// The integer that the JSON value `payload` holds at the JSON pointer
/// `pointer`, if `payload` is valid and holds there a number that is an
/// integer of 64 bits.
pub uninterp spec fn json_int_at(payload: Seq<char>, pointer: Seq<char>) -> Option<i64>;

/// The text of an optional text: empty where there is none.
pub open spec fn text_or_empty(text: Option<Seq<char>>) -> Seq<char> {
    match text {
        Some(t) => t,
        None => Seq::empty(),
    }
}

/// An optional text as a value.
pub open spec fn option_text(text: Option<String>) -> Option<Seq<char>> {
    match text {
        Some(t) => Some(t@),
        None => None,
    }
}

/// `String::from_utf8` of std: the text that `bytes` encode, if they are
/// valid UTF-8.
#[verifier::external_body]
pub(crate) fn utf8_text(bytes: Vec<u8>) -> (r: Option<String>)
    ensures
        r is Some <==> valid_utf8(bytes@),
        r matches Some(s) ==> s@ == decode_utf8(bytes@),
{
    String::from_utf8(bytes).ok()
}

/// `serde_json::from_str` into a `Value`: whether `payload` parses.
#[verifier::external_body]
pub(crate) fn json_parses(payload: &str) -> (r: bool)
    ensures
        r == json_is_valid(payload@),
{
    serde_json::from_str::<serde_json::Value>(payload).is_ok()
}

/// `serde_json::from_str` into a `Value`, then `Value::pointer` and
/// `Value::as_str`: the string at `pointer`, if there is one.
#[verifier::external_body]
pub(crate) fn json_text(payload: &str, pointer: &str) -> (r: Option<String>)
    ensures
        option_text(r) == json_text_at(payload@, pointer@),
{
    let value = serde_json::from_str::<serde_json::Value>(payload).ok()?;
    value.pointer(pointer)?.as_str().map(|s| s.to_owned())
}

/// `serde_json::from_str` into a `Value`, then `Value::pointer` and
/// `Value::as_i64`: the integer at `pointer`, if there is one.
#[verifier::external_body]
pub(crate) fn json_int(payload: &str, pointer: &str) -> (r: Option<i64>)
    ensures
        r == json_int_at(payload@, pointer@),
{
    let value = serde_json::from_str::<serde_json::Value>(payload).ok()?;
    value.pointer(pointer)?.as_i64()
}

/// The string at `pointer`, or the empty text where there is none.
pub(crate) fn json_text_or_empty(payload: &str, pointer: &str) -> (r: String)
    ensures
        r@ == text_or_empty(json_text_at(payload@, pointer@)),
{
    match json_text(payload, pointer) {
        Some(t) => t,
        None => String::new(),
    }
}

/// The integer at `pointer`, or zero where there is none.
pub(crate) fn json_int_or_zero(payload: &str, pointer: &str) -> (r: i64)
    ensures
        r == (match json_int_at(payload@, pointer@) {
            Some(n) => n,
            None => 0i64,
        }),
{
    match json_int(payload, pointer) {
        Some(n) => n,
        None => 0,
    }
}

} // verus!
