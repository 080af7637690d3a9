//! A mathematical model of JSON data, and the trusted surface of the
//! structured-decode capability the library reads response bodies with.
//!
//! Parsing is delegated to `serde_json`; the library only walks the parsed
//! document. Everything assumed of the parser is collected here: a name
//! for what a text parses to, a name for what a parsed value holds, and
//! the contracts of the few accessors the walk uses.

use vstd::prelude::*;

verus! {

/// The mathematical value of a parsed JSON document.
///
/// Only what the library reads is kept exactly: a number that the parser
/// reports as an unsigned 64-bit integer is an [`JsonData::UInt`], and
/// every other number collapses to [`JsonData::OtherNumber`].
#[verifier::ext_equal]
pub enum JsonData {
    /// The JSON value `null`.
    Null,
    /// A JSON boolean.
    Bool(bool),
    /// A JSON number that is an unsigned integer fitting 64 bits.
    UInt(u64),
    /// Any other JSON number.
    OtherNumber,
    /// A JSON string.
    Str(Seq<char>),
    /// A JSON array.
    Arr(Seq<JsonData>),
    /// A JSON object, keyed by its member names.
    Obj(Map<Seq<char>, JsonData>),
}

#[verifier::external_type_specification]
#[verifier::external_body]
pub struct ExValue(serde_json::Value);

/// What parsing a text as JSON yields — `None` when the text is not valid
/// JSON. A function of the text alone.
pub uninterp spec fn json_of(s: Seq<char>) -> Option<JsonData>;

/// The JSON data a parsed `serde_json::Value` holds.
pub uninterp spec fn value_data(v: serde_json::Value) -> JsonData;

/// Relies on `serde_json::from_str`: whether a text parses as JSON, and
/// what it parses to, depend on the text alone; the error's text is the
/// parser's own.
#[verifier::external_body]
pub(crate) fn parse_json(s: &str) -> (r: Result<serde_json::Value, String>)
    ensures
        r is Ok <==> json_of(s@) is Some,
        r matches Ok(v) ==> json_of(s@) == Some(value_data(v)),
{
    match serde_json::from_str::<serde_json::Value>(s) {
        Ok(v) => Ok(v),
        Err(e) => Err(e.to_string()),
    }
}

/// Relies on `serde_json::Value::get` with a string index: on an object it
/// looks the member up, on anything else it answers `None`.
#[verifier::external_body]
pub(crate) fn value_get<'a>(v: &'a serde_json::Value, key: &str) -> (r: Option<
    &'a serde_json::Value,
>)
    ensures
        match value_data(*v) {
            JsonData::Obj(m) => {
                &&& m.contains_key(key@) ==> (r matches Some(x) && value_data(*x) == m[key@])
                &&& !m.contains_key(key@) ==> r is None
            },
            _ => r is None,
        },
{
    v.get(key)
}

/// Relies on `serde_json::Value::is_null`: true exactly on `null`.
pub assume_specification[ serde_json::Value::is_null ](v: &serde_json::Value) -> (r: bool)
    ensures
        r == (value_data(*v) is Null),
;

/// Relies on `serde_json::Value::as_bool`: the boolean a JSON boolean
/// holds, and nothing for any other value.
pub assume_specification[ serde_json::Value::as_bool ](v: &serde_json::Value) -> (r: Option<bool>)
    ensures
        r == (match value_data(*v) {
            JsonData::Bool(b) => Some(b),
            _ => None::<bool>,
        }),
;

/// Relies on `serde_json::Value::as_u64`: the integer of a JSON number
/// the parser holds as an unsigned 64-bit integer, and nothing for any
/// other value.
pub assume_specification[ serde_json::Value::as_u64 ](v: &serde_json::Value) -> (r: Option<u64>)
    ensures
        r == (match value_data(*v) {
            JsonData::UInt(n) => Some(n),
            _ => None::<u64>,
        }),
;

/// Relies on `serde_json::Value::as_str`: the characters a JSON string
/// holds, and nothing for any other value.
pub assume_specification<'a>[ serde_json::Value::as_str ](v: &'a serde_json::Value) -> (r: Option<
    &'a str,
>)
    ensures
        match value_data(*v) {
            JsonData::Str(s) => r matches Some(rs) && rs@ == s,
            _ => r is None,
        },
;

/// Relies on `serde_json::Value::as_array`: the elements a JSON array
/// holds, in order, and nothing for any other value.
pub assume_specification<'a>[ serde_json::Value::as_array ](v: &'a serde_json::Value) -> (r: Option<
    &'a Vec<serde_json::Value>,
>)
    ensures
        match value_data(*v) {
            JsonData::Arr(a) => r matches Some(arr) && arr@.len() == a.len() && (forall|i: int|
                0 <= i < a.len() ==> #[trigger] value_data(arr@[i]) == a[i]),
            _ => r is None,
        },
;

} // verus!
