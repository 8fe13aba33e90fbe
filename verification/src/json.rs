//! JSON documents as the decoders read them.
//!
//! Parsing and string escaping are done by `serde_json`. A parsed document
//! stays a `serde_json::Value`; what it holds is modelled by [`JsonValue`],
//! and the few accessors used by the decoders are related to that model by
//! contracts that are taken on trust.

use vstd::prelude::*;
use vstd::string::StringExecFns;

verus! {

/// `serde_json::Value`, a parsed document. The proofs do not look inside
/// it; what it holds is named by [`json_content`].
#[verifier::external_type_specification]
#[verifier::external_body]
pub struct ExValue(serde_json::Value);

/// `serde_json::Error`, the failure of a parse. The proofs do not look
/// inside it; its message is named by [`json_error_text`].
#[verifier::external_type_specification]
#[verifier::external_body]
pub struct ExError(serde_json::Error);

/// The mathematical content of a JSON document.
///
/// A number is kept only as far as the decoders read it: as an unsigned
/// 64-bit integer where it is written as a non-negative integer in that
/// range, and as `None` otherwise (negative, fractional or too large).
pub enum JsonValue {
    Null,
    Bool(bool),
    Number(Option<u64>),
    Text(Seq<char>),
    List(Seq<JsonValue>),
    Object(Map<Seq<char>, JsonValue>),
}

/// What a `serde_json::Value` holds. The accessors of `Value` that the
/// decoders call are all stated over this name.
pub uninterp spec fn json_content(v: serde_json::Value) -> JsonValue;

/// What `serde_json::from_str` makes of `text`: the content of the one
/// JSON document that `text` is, or the parser's message where it is none.
pub uninterp spec fn json_parse(text: Seq<char>) -> Result<JsonValue, Seq<char>>;

/// The message that a `serde_json::Error` shows.
pub uninterp spec fn json_error_text(e: serde_json::Error) -> Seq<char>;

/// `s` as `serde_json` writes a string: a JSON string literal, quotes and
/// escapes included.
pub uninterp spec fn json_quoted(s: Seq<char>) -> Seq<char>;

/// The member `key` of `j`, where `j` is an object that has one.
pub open spec fn member_of(j: JsonValue, key: Seq<char>) -> Option<JsonValue> {
    match j {
        JsonValue::Object(members) => if members.contains_key(key) {
            Some(members[key])
        } else {
            None
        },
        _ => None,
    }
}

/// The text of `j`, where `j` is a string.
pub open spec fn text_of(j: JsonValue) -> Option<Seq<char>> {
    match j {
        JsonValue::Text(s) => Some(s),
        _ => None,
    }
}

/// The value of `j`, where `j` is a non-negative integer below 2^64.
pub open spec fn unsigned_of(j: JsonValue) -> Option<u64> {
    match j {
        JsonValue::Number(n) => n,
        _ => None,
    }
}

/// The elements of `j`, where `j` is an array.
pub open spec fn items_of(j: JsonValue) -> Option<Seq<JsonValue>> {
    match j {
        JsonValue::List(items) => Some(items),
        _ => None,
    }
}

/// The contents of a run of parsed documents, one by one.
pub open spec fn contents(values: Seq<serde_json::Value>) -> Seq<JsonValue> {
    Seq::new(values.len(), |i: int| json_content(values[i]))
}

/// Calls `serde_json::from_str` for a `serde_json::Value`. Trusted: the
/// outcome is a function of the text alone, named [`json_parse`]; a parsed
/// value holds the content that `json_parse` names, and an error carries
/// the message that it names.
#[verifier::external_body]
pub(crate) fn parse(text: &str) -> (r: Result<serde_json::Value, serde_json::Error>)
    ensures
        match r {
            Ok(v) => json_parse(text@) == Ok::<JsonValue, Seq<char>>(json_content(v)),
            Err(e) => json_parse(text@) == Err::<JsonValue, Seq<char>>(json_error_text(e)),
        },
{
    serde_json::from_str::<serde_json::Value>(text)
}

/// Calls `serde_json::Value::get` with a string index. Trusted: it returns
/// the member stored under `key` when the value is an object that has such
/// a member, and `None` in every other case.
#[verifier::external_body]
pub(crate) fn member<'a>(v: &'a serde_json::Value, key: &str) -> (r: Option<&'a serde_json::Value>)
    ensures
        match r {
            Some(m) => member_of(json_content(*v), key@) == Some(json_content(*m)),
            None => member_of(json_content(*v), key@) is None,
        },
{
    v.get(key)
}

/// Calls `serde_json::Value::as_str`. Trusted: it returns the text when the
/// value is a string, and `None` otherwise.
#[verifier::external_body]
pub(crate) fn as_text<'a>(v: &'a serde_json::Value) -> (r: Option<&'a str>)
    ensures
        match r {
            Some(s) => text_of(json_content(*v)) == Some(s@),
            None => text_of(json_content(*v)) is None,
        },
{
    v.as_str()
}

/// Calls `serde_json::Value::as_u64`. Trusted: it returns the number when
/// the value is an integer that fits `u64`, and `None` otherwise.
#[verifier::external_body]
pub(crate) fn as_unsigned(v: &serde_json::Value) -> (r: Option<u64>)
    ensures
        r == unsigned_of(json_content(*v)),
{
    v.as_u64()
}

/// Calls `serde_json::Value::as_array`. Trusted: it returns the elements,
/// in order, when the value is an array, and `None` otherwise.
#[verifier::external_body]
pub(crate) fn as_items<'a>(v: &'a serde_json::Value) -> (r: Option<&'a Vec<serde_json::Value>>)
    ensures
        match r {
            Some(items) => items_of(json_content(*v)) == Some(contents(items@)),
            None => items_of(json_content(*v)) is None,
        },
{
    v.as_array()
}

/// Calls `serde_json::Value::is_null`. Trusted: it tells whether the value
/// is `null`.
#[verifier::external_body]
pub(crate) fn is_null(v: &serde_json::Value) -> (r: bool)
    ensures
        r == (json_content(*v) is Null),
{
    v.is_null()
}

/// Formats a `serde_json::Error` with its `Display` impl. Trusted: the text
/// is the error's message, named [`json_error_text`].
#[verifier::external_body]
pub(crate) fn error_text(e: &serde_json::Error) -> (r: String)
    ensures
        r@ == json_error_text(*e),
{
    e.to_string()
}

/// Formats a `serde_json::Value::String` with its `Display` impl, which
/// writes compact JSON. Trusted: the text is a function of the string alone,
/// named [`json_quoted`].
#[verifier::external_body]
pub(crate) fn quoted(s: &str) -> (r: String)
    ensures
        r@ == json_quoted(s@),
{
    serde_json::Value::from(s).to_string()
}

/// The text stored under `key`, where `j` is an object whose member `key`
/// is a string.
pub open spec fn text_member(j: JsonValue, key: Seq<char>) -> Option<Seq<char>> {
    match member_of(j, key) {
        Some(m) => text_of(m),
        None => None,
    }
}

/// The number stored under `key`, where `j` is an object whose member `key`
/// is a non-negative integer that fits 32 bits.
pub open spec fn u32_member(j: JsonValue, key: Seq<char>) -> Option<u32> {
    match member_of(j, key) {
        Some(m) => match unsigned_of(m) {
            Some(n) => if n <= u32::MAX {
                Some(n as u32)
            } else {
                None
            },
            None => None,
        },
        None => None,
    }
}

/// An optional text under `key`: no text where the member is missing or
/// `null`, the text where it is a string, and a mismatch (`None`) where it
/// is anything else.
pub open spec fn optional_text_member(j: JsonValue, key: Seq<char>) -> Option<Option<Seq<char>>> {
    match member_of(j, key) {
        None => Some(None),
        Some(m) => if m is Null {
            Some(None)
        } else {
            match text_of(m) {
                Some(s) => Some(Some(s)),
                None => None,
            }
        },
    }
}

/// Reads the string member `key` of `v`.
pub(crate) fn text_field(v: &serde_json::Value, key: &str) -> (r: Option<String>)
    ensures
        r.deep_view() == text_member(json_content(*v), key@),
{
    match member(v, key) {
        Some(m) => match as_text(m) {
            Some(s) => Some(String::from_str(s)),
            None => None,
        },
        None => None,
    }
}

/// Reads the 32-bit unsigned member `key` of `v`.
pub(crate) fn u32_field(v: &serde_json::Value, key: &str) -> (r: Option<u32>)
    ensures
        r == u32_member(json_content(*v), key@),
{
    match member(v, key) {
        Some(m) => match as_unsigned(m) {
            Some(n) => if n <= u32::MAX as u64 {
                Some(n as u32)
            } else {
                None
            },
            None => None,
        },
        None => None,
    }
}

/// Reads the optional string member `key` of `v`.
pub(crate) fn optional_text_field(v: &serde_json::Value, key: &str) -> (r: Option<Option<String>>)
    ensures
        r.deep_view() == optional_text_member(json_content(*v), key@),
{
    match member(v, key) {
        None => Some(None),
        Some(m) => if is_null(m) {
            Some(None)
        } else {
            match as_text(m) {
                Some(s) => Some(Some(String::from_str(s))),
                None => None,
            }
        },
    }
}

/// A value that can be read out of a JSON document.
pub trait FromJson: Sized + View {
    /// The value that a document holds, if it holds one.
    spec fn decoded(j: JsonValue) -> Option<Self::V>;

    /// Reads a value out of a parsed document.
    fn from_json(v: &serde_json::Value) -> (r: Option<Self>)
        ensures
            match r {
                Some(value) => Self::decoded(json_content(*v)) == Some(value@),
                None => Self::decoded(json_content(*v)) is None,
            },
    ;
}

/// The contents of a run of values, one by one.
pub open spec fn views<T: View>(values: Seq<T>) -> Seq<T::V> {
    Seq::new(values.len(), |i: int| values[i]@)
}

/// The values that a run of documents holds, where each holds one.
pub open spec fn all_decoded<T: FromJson>(documents: Seq<JsonValue>) -> Option<Seq<T::V>> {
    if forall|i: int| 0 <= i < documents.len() ==> (#[trigger] T::decoded(documents[i])) is Some {
        Some(Seq::new(documents.len(), |i: int| T::decoded(documents[i])->0))
    } else {
        None
    }
}

/// Reads a value out of each of `values`, in order; nothing where one of
/// them holds none.
pub fn read_all<T: FromJson>(values: &Vec<serde_json::Value>) -> (r: Option<Vec<T>>)
    ensures
        match r {
            Some(items) => all_decoded::<T>(contents(values@)) == Some(views(items@)),
            None => all_decoded::<T>(contents(values@)) is None,
        },
{
    let ghost documents = contents(values@);
    let mut items: Vec<T> = Vec::new();
    let mut i: usize = 0;
    while i < values.len()
        invariant
            i <= values@.len(),
            items@.len() == i,
            documents == contents(values@),
            forall|k: int| 0 <= k < i ==> #[trigger] T::decoded(documents[k]) == Some(items@[k]@),
        decreases values@.len() - i,
    {
        match T::from_json(&values[i]) {
            Some(item) => {
                items.push(item);
            },
            None => {
                assert(T::decoded(documents[i as int]) is None);
                return None;
            },
        }
        i += 1;
    }
    Some(items)
}

/// An optional text as JSON: `null`, or the string literal.
pub open spec fn optional_json(text: Option<Seq<char>>) -> Seq<char> {
    match text {
        None => "null"@,
        Some(s) => json_quoted(s),
    }
}

/// Writes an optional text as JSON.
pub(crate) fn optional_quoted(text: &Option<String>) -> (r: String)
    ensures
        r@ == optional_json(text.deep_view()),
{
    match text {
        None => String::from_str("null"),
        Some(s) => quoted(s.as_str()),
    }
}

} // verus!
