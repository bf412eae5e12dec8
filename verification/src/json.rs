//! A mathematical model of the JSON documents the remote service sends, and
//! the trusted bridge to `serde_json` that parses and probes them.
//!
//! Every response body is parsed once into a `serde_json::Value`; the value is
//! opaque here, so its abstract content is named by [`json_model`], and the
//! content of a body text by [`json_doc`].  The probing functions below relate
//! what they return to that abstract content, and the verified decoders in the
//! rest of the crate work against it.

use vstd::prelude::*;

verus! {

/// The abstract content of a JSON document.
///
/// Numbers are modelled only as far as the decoders read them: a number that
/// the parser can represent as a `u64` carries that value, any other number
/// (negative, fractional, or too large) carries none.
pub enum Jv {
    Null,
    Bool(bool),
    Num(Option<u64>),
    Str(Seq<char>),
    Arr(Seq<Jv>),
    Obj(Map<Seq<char>, Jv>),
}

#[verifier::external_type_specification]
#[verifier::external_body]
pub struct ExValue(serde_json::Value);

/// The abstract content of a parsed `serde_json::Value`.
pub uninterp spec fn json_model(v: serde_json::Value) -> Jv;

/// The abstract content of a body text: `Some` exactly when the text is a
/// well-formed JSON document, in which case parsing it yields a value with
/// that content.
pub uninterp spec fn json_doc(s: Seq<char>) -> Option<Jv>;

/// Relies on `serde_json::from_str::<Value>`: parsing is a function of the
/// text alone, succeeds exactly on well-formed documents, and the error is
/// converted to its description.
#[verifier::external_body]
pub(crate) fn parse_json(s: &str) -> (r: Result<serde_json::Value, String>)
    ensures
        match r {
            Ok(v) => json_doc(s@) == Some(json_model(v)),
            Err(_) => json_doc(s@) is None,
        },
{
    serde_json::from_str(s).map_err(|e| e.to_string())
}

/// Relies on `serde_json::Value::get` with a string key: the result is `Some`
/// exactly when the value is an object whose map holds the key, and is then
/// the entry for that key.
#[verifier::external_body]
pub(crate) fn json_get<'a>(v: &'a serde_json::Value, key: &str) -> (r: Option<
    &'a serde_json::Value,
>)
    ensures
        match r {
            Some(f) => json_model(*v) matches Jv::Obj(m) && m.contains_key(key@) && json_model(*f)
                == m[key@],
            None => !(json_model(*v) matches Jv::Obj(m) && m.contains_key(key@)),
        },
{
    v.get(key)
}

/// Relies on `serde_json::Value::as_str`: `Some` exactly for a JSON string,
/// holding its characters.
#[verifier::external_body]
pub(crate) fn json_as_str<'a>(v: &'a serde_json::Value) -> (r: Option<&'a str>)
    ensures
        match r {
            Some(s) => json_model(*v) == Jv::Str(s@),
            None => !(json_model(*v) is Str),
        },
{
    v.as_str()
}

/// Relies on `serde_json::Value::as_u64`: `Some` exactly for a JSON number
/// that is an integer representable as `u64`.
#[verifier::external_body]
pub(crate) fn json_as_u64(v: &serde_json::Value) -> (r: Option<u64>)
    ensures
        match r {
            Some(n) => json_model(*v) == Jv::Num(Some(n)),
            None => !(json_model(*v) matches Jv::Num(o) && o is Some),
        },
{
    v.as_u64()
}

/// Relies on `serde_json::Value::is_null`.
#[verifier::external_body]
pub(crate) fn json_is_null(v: &serde_json::Value) -> (r: bool)
    ensures
        r == (json_model(*v) is Null),
{
    v.is_null()
}

/// A required string field of an object: supplied exactly when the key is
/// present and holds a JSON string.
pub open spec fn req_str_field(m: Map<Seq<char>, Jv>, name: Seq<char>) -> Option<Seq<char>> {
    if m.contains_key(name) && m[name] is Str {
        Some(m[name]->Str_0)
    } else {
        None
    }
}

/// An optional string field of an object: the outer `None` means the shape
/// does not match (the field is present but is neither a string nor null).
pub open spec fn opt_str_field(m: Map<Seq<char>, Jv>, name: Seq<char>) -> Option<
    Option<Seq<char>>,
> {
    if !m.contains_key(name) {
        Some(None)
    } else {
        match m[name] {
            Jv::Str(s) => Some(Some(s)),
            Jv::Null => Some(None),
            _ => None,
        }
    }
}

/// An optional unsigned-integer field of an object: the outer `None` means
/// the shape does not match.
pub open spec fn opt_u64_field(m: Map<Seq<char>, Jv>, name: Seq<char>) -> Option<Option<u64>> {
    if !m.contains_key(name) {
        Some(None)
    } else {
        match m[name] {
            Jv::Num(Some(n)) => Some(Some(n)),
            Jv::Null => Some(None),
            _ => None,
        }
    }
}

/// The value of a required string field, read off a parsed object.
pub(crate) fn get_req_str_field(v: &serde_json::Value, name: &str) -> (r: Option<String>)
    ensures
        match json_model(*v) {
            Jv::Obj(m) => match r {
                Some(s) => req_str_field(m, name@) == Some(s@),
                None => req_str_field(m, name@) is None,
            },
            _ => r is None,
        },
{
    match json_get(v, name) {
        Some(f) => match json_as_str(f) {
            Some(s) => Some(s.to_owned()),
            None => None,
        },
        None => None,
    }
}

/// The value of an optional string field; `Err` when the field is present but
/// ill-typed, which fails the surrounding shape.
pub(crate) fn get_opt_str_field(v: &serde_json::Value, name: &str) -> (r: Result<
    Option<String>,
    (),
>)
    ensures
        match json_model(*v) {
            Jv::Obj(m) => match r {
                Ok(o) => opt_str_field(m, name@) == Some(o.deep_view()),
                Err(_) => opt_str_field(m, name@) is None,
            },
            _ => true,
        },
{
    match json_get(v, name) {
        None => Ok(None),
        Some(f) => {
            if json_is_null(f) {
                Ok(None)
            } else {
                match json_as_str(f) {
                    Some(s) => Ok(Some(s.to_owned())),
                    None => Err(()),
                }
            }
        },
    }
}

/// The value of an optional unsigned-integer field; `Err` when the field is
/// present but ill-typed.
pub(crate) fn get_opt_u64_field(v: &serde_json::Value, name: &str) -> (r: Result<Option<u64>, ()>)
    ensures
        match json_model(*v) {
            Jv::Obj(m) => match r {
                Ok(o) => opt_u64_field(m, name@) == Some(o),
                Err(_) => opt_u64_field(m, name@) is None,
            },
            _ => true,
        },
{
    match json_get(v, name) {
        None => Ok(None),
        Some(f) => {
            if json_is_null(f) {
                Ok(None)
            } else {
                match json_as_u64(f) {
                    Some(n) => Ok(Some(n)),
                    None => Err(()),
                }
            }
        },
    }
}

/// Relies on `serde_json::Value::as_array`: `Some` exactly for a JSON array,
/// whose elements carry the array's contents in order.
#[verifier::external_body]
pub(crate) fn json_as_array<'a>(v: &'a serde_json::Value) -> (r: Option<
    &'a Vec<serde_json::Value>,
>)
    ensures
        match r {
            Some(a) => json_model(*v) matches Jv::Arr(s) && s.len() == a@.len() && (forall|i: int|
                0 <= i < a@.len() ==> s[i] == json_model(a@[i])),
            None => !(json_model(*v) is Arr),
        },
{
    v.as_array()
}

} // verus!
