//! JSON documents as `serde_json` reads them.
//!
//! A document is carried as an opaque `serde_json::Value`. Everything this
//! module says about one is said through the spec functions declared here,
//! each of which stands for what one `serde_json` call returns.

use serde_json::{Number, Value};
use vstd::prelude::*;

verus! {

/// `serde_json::Value`, carried without looking inside.
#[verifier::external_type_specification]
#[verifier::external_body]
pub struct ExValue(serde_json::Value);

/// `serde_json::Number`, carried without looking inside.
#[verifier::external_type_specification]
#[verifier::external_body]
pub struct ExNumber(serde_json::Number);

/// `Number::clone`, which `derive` wrote: the copy is the number itself.
pub assume_specification[ <serde_json::Number as Clone>::clone ](n: &Number) -> (copy: Number)
    ensures
        copy == *n,
;

/// What `serde_json::from_str` makes of a text: the document, or the
/// message of the error it reports.
pub uninterp spec fn json_document(text: Seq<char>) -> Result<Value, Seq<char>>;

/// What `Value::get` finds under a string key.
pub uninterp spec fn json_member(value: Value, key: Seq<char>) -> Option<Value>;

/// What `Value::pointer` finds under a JSON Pointer.
pub uninterp spec fn json_pointer(value: Value, pointer: Seq<char>) -> Option<Value>;

/// What `Value::as_array` returns: the elements, if the value is an array.
pub uninterp spec fn json_elements(value: Value) -> Option<Seq<Value>>;

/// What `Value::as_u64` returns.
pub uninterp spec fn json_u64(value: Value) -> Option<u64>;

/// What `Value::as_str` returns.
pub uninterp spec fn json_text(value: Value) -> Option<Seq<char>>;

/// What `Value::as_number` returns.
pub uninterp spec fn json_number(value: Value) -> Option<Number>;

/// The number written in fixed-point notation with one fractional digit,
/// as `format!("{:.1}", ..)` writes what `Number::as_f64` returns.
pub uninterp spec fn one_decimal(number: Number) -> Seq<char>;

/// Calls `serde_json::from_str::<Value>`. The contract claims that the
/// outcome depends on the text alone; an error is handed on as its message.
#[verifier::external_body]
pub(crate) fn parse_document(text: &str) -> (r: Result<Value, String>)
    ensures
        match r {
            Ok(value) => json_document(text@) == Ok::<Value, Seq<char>>(value),
            Err(message) => json_document(text@) == Err::<Value, Seq<char>>(message@),
        },
{
    serde_json::from_str::<Value>(text).map_err(|e| e.to_string())
}

/// Calls `Value::get` with a string key: the member of that name if the
/// value is an object that has one.
#[verifier::external_body]
pub(crate) fn member<'a>(value: &'a Value, key: &str) -> (r: Option<&'a Value>)
    ensures
        match r {
            Some(found) => json_member(*value, key@) == Some(*found),
            None => json_member(*value, key@) is None,
        },
{
    value.get(key)
}

/// Calls `Value::pointer`: the value that the JSON Pointer leads to.
#[verifier::external_body]
pub(crate) fn pointer<'a>(value: &'a Value, path: &str) -> (r: Option<&'a Value>)
    ensures
        match r {
            Some(found) => json_pointer(*value, path@) == Some(*found),
            None => json_pointer(*value, path@) is None,
        },
{
    value.pointer(path)
}

/// Calls `Value::as_array`: the elements if the value is an array.
#[verifier::external_body]
pub(crate) fn elements(value: &Value) -> (r: Option<&Vec<Value>>)
    ensures
        match r {
            Some(items) => json_elements(*value) == Some(items@),
            None => json_elements(*value) is None,
        },
{
    value.as_array()
}

/// Calls `Value::as_u64`: the number if the value is a non-negative integer
/// that fits.
#[verifier::external_body]
pub(crate) fn unsigned(value: &Value) -> (r: Option<u64>)
    ensures
        r == json_u64(*value),
{
    value.as_u64()
}

/// Calls `Value::as_str`: the text if the value is a string.
#[verifier::external_body]
pub(crate) fn text<'a>(value: &'a Value) -> (r: Option<&'a str>)
    ensures
        match r {
            Some(s) => json_text(*value) == Some(s@),
            None => json_text(*value) is None,
        },
{
    value.as_str()
}

/// Calls `Value::as_number`: the number if the value is one.
#[verifier::external_body]
pub(crate) fn number_of(value: &Value) -> (r: Option<&Number>)
    ensures
        match r {
            Some(n) => json_number(*value) == Some(*n),
            None => json_number(*value) is None,
        },
{
    value.as_number()
}

/// Formats what `Number::as_f64` returns with `{:.1}`.
#[verifier::external_body]
pub(crate) fn format_one_decimal(number: &Number) -> (r: String)
    ensures
        r@ == one_decimal(*number),
{
    format!("{:.1}", number.as_f64().unwrap_or_default())
}

/// The text found under `path`, or the empty text where nothing or
/// something other than a string is found there.
pub open spec fn text_at(value: Value, path: Seq<char>) -> Seq<char> {
    match json_pointer(value, path) {
        Some(found) => match json_text(found) {
            Some(s) => s,
            None => Seq::empty(),
        },
        None => Seq::empty(),
    }
}

/// Reads the string under a JSON Pointer, tolerating its absence.
pub fn text_or_empty(value: &Value, path: &str) -> (r: String)
    ensures
        r@ == text_at(*value, path@),
{
    match pointer(value, path) {
        Some(found) => match text(found) {
            Some(s) => String::from_str(s),
            None => String::new(),
        },
        None => String::new(),
    }
}

} // verus!
