//! A plain-value model of a parsed JSON document, and the one trusted step
//! that produces it.
//!
//! Everything downstream of `parse_json` — envelope unwrapping, field lookup,
//! field decoding — works on `Json` values and is verified. Only the text →
//! tree step itself is delegated to an outside parser.

use crate::decode::{parse_u32, spec_parse_u32, str_eq};
use crate::error::{Field, LTAError};
use vstd::prelude::*;

verus! {

/// A JSON value as this library sees it.
///
/// Numbers are narrowed to what the decoders can use: a non-negative integer
/// that fits `u64` is held exactly, any other number (negative, fractional,
/// or out of range) becomes `OtherNum` and is rejected by every decoder that
/// meets it.
#[derive(Debug, PartialEq)]
pub enum Json {
    Null,
    Bool(bool),
    UInt(u64),
    OtherNum,
    Str(String),
    Arr(Vec<Json>),
    Obj(Vec<(String, Json)>),
}

#[verifier::external_type_specification]
#[verifier::external_body]
pub struct ExValue(serde_json::Value);

/// The tree a text parses to, or nothing when the text is not JSON. The
/// outcome depends on the text alone.
pub uninterp spec fn json_parse(s: Seq<char>) -> Option<Json>;

/// Relies on `serde_json::from_str::<Value>`: whether a text parses as JSON,
/// and the tree it parses to, are a function of the text alone.
#[verifier::external_body]
pub fn parse_json(s: &str) -> (r: Option<Json>)
    ensures
        r == json_parse(s@),
{
    serde_json::from_str::<serde_json::Value>(s).ok().map(json_tree)
}

/// Part of the parse step: rebuilds the parsed `serde_json` tree as this
/// library's own `Json`, variant by variant. Relies on
/// `serde_json::Number::as_u64` to tell integers that fit `u64` from every
/// other number.
#[verifier::external_body]
fn json_tree(v: serde_json::Value) -> Json {
    match v {
        serde_json::Value::Null => Json::Null,
        serde_json::Value::Bool(b) => Json::Bool(b),
        serde_json::Value::Number(n) => match n.as_u64() {
            Some(u) => Json::UInt(u),
            None => Json::OtherNum,
        },
        serde_json::Value::String(s) => Json::Str(s),
        serde_json::Value::Array(a) => Json::Arr(a.into_iter().map(json_tree).collect()),
        serde_json::Value::Object(m) => Json::Obj(
            m.into_iter().map(|(k, x)| (k, json_tree(x))).collect(),
        ),
    }
}

/// The value under `key` in an object's field list: the first binding whose
/// key reads as `key`.
pub open spec fn spec_obj_get(fields: Seq<(String, Json)>, key: Seq<char>) -> Option<Json>
    decreases fields.len(),
{
    if fields.len() == 0 {
        None
    } else if fields[0].0@ == key {
        Some(fields[0].1)
    } else {
        spec_obj_get(fields.drop_first(), key)
    }
}

/// Looks a key up in an object's field list.
pub fn obj_get<'a>(fields: &'a Vec<(String, Json)>, key: &str) -> (r: Option<&'a Json>)
    ensures
        match r {
            Some(j) => spec_obj_get(fields@, key@) == Some(*j),
            None => spec_obj_get(fields@, key@).is_none(),
        },
{
    let n = fields.len();
    let mut i: usize = 0;
    proof {
        assert(fields@.skip(0) =~= fields@);
    }
    while i < n
        invariant
            0 <= i <= n,
            n == fields@.len(),
            spec_obj_get(fields@, key@) == spec_obj_get(fields@.skip(i as int), key@),
        decreases n - i,
    {
        proof {
            assert(fields@.skip(i as int)[0] == fields@[i as int]);
            assert(fields@.skip(i as int).drop_first() =~= fields@.skip(i as int + 1));
        }
        if str_eq(fields[i].0.as_str(), key) {
            return Some(&fields[i].1);
        }
        i = i + 1;
    }
    proof {
        assert(fields@.skip(n as int).len() == 0);
    }
    None
}

/// The record sequence inside a list envelope: the array under the fixed
/// `value` key of the outer object.
pub open spec fn spec_value_items(j: Json) -> Result<Seq<Json>, LTAError> {
    match j {
        Json::Obj(fields) => match spec_obj_get(fields@, "value"@) {
            Some(Json::Arr(items)) => Ok(items@),
            Some(_) => Err(LTAError::WrongShape(Field::Envelope)),
            None => Err(LTAError::MissingField(Field::Envelope)),
        },
        _ => Err(LTAError::WrongShape(Field::Envelope)),
    }
}

/// Unwraps a list envelope, yielding the records under its `value` key.
pub fn value_items<'a>(j: &'a Json) -> (r: Result<&'a Vec<Json>, LTAError>)
    ensures
        r matches Ok(v) ==> spec_value_items(*j) == Ok::<Seq<Json>, LTAError>(v@),
        r matches Err(e) ==> spec_value_items(*j) == Err::<Seq<Json>, LTAError>(e),
{
    match j {
        Json::Obj(fields) => match obj_get(fields, "value") {
            Some(inner) => match inner {
                Json::Arr(items) => Ok(items),
                _ => Err(LTAError::WrongShape(Field::Envelope)),
            },
            None => Err(LTAError::MissingField(Field::Envelope)),
        },
        _ => Err(LTAError::WrongShape(Field::Envelope)),
    }
}

/// A mandatory string field: the string under `key`, a `MissingField` error
/// when the key is absent, a `WrongShape` error when the value is not a
/// string.
pub open spec fn spec_str_field(fields: Seq<(String, Json)>, key: Seq<char>, f: Field) -> Result<
    String,
    LTAError,
> {
    match spec_obj_get(fields, key) {
        Some(Json::Str(s)) => Ok(s),
        Some(_) => Err(LTAError::WrongShape(f)),
        None => Err(LTAError::MissingField(f)),
    }
}

/// Reads a mandatory string field, per `spec_str_field`.
pub fn str_field(fields: &Vec<(String, Json)>, key: &str, f: Field) -> (r: Result<
    String,
    LTAError,
>)
    ensures
        r == spec_str_field(fields@, key@, f),
{
    match obj_get(fields, key) {
        Some(inner) => match inner {
            Json::Str(s) => Ok(s.clone()),
            _ => Err(LTAError::WrongShape(f)),
        },
        None => Err(LTAError::MissingField(f)),
    }
}

/// An optional string field: absent or null reads as nothing; a present
/// value must be a string.
pub open spec fn spec_opt_str_field(
    fields: Seq<(String, Json)>,
    key: Seq<char>,
    f: Field,
) -> Result<Option<String>, LTAError> {
    match spec_obj_get(fields, key) {
        Some(Json::Str(s)) => Ok(Some(s)),
        Some(Json::Null) => Ok(None),
        Some(_) => Err(LTAError::WrongShape(f)),
        None => Ok(None),
    }
}

/// Reads an optional string field, per `spec_opt_str_field`.
pub fn opt_str_field(fields: &Vec<(String, Json)>, key: &str, f: Field) -> (r: Result<
    Option<String>,
    LTAError,
>)
    ensures
        r == spec_opt_str_field(fields@, key@, f),
{
    match obj_get(fields, key) {
        Some(inner) => match inner {
            Json::Str(s) => Ok(Some(s.clone())),
            Json::Null => Ok(None),
            _ => Err(LTAError::WrongShape(f)),
        },
        None => Ok(None),
    }
}

/// A mandatory numeric field transmitted as a decimal string: the parsed
/// value, or an `InvalidField` error carrying the offending raw string.
pub open spec fn spec_u32_str_field(
    fields: Seq<(String, Json)>,
    key: Seq<char>,
    f: Field,
) -> Result<u32, LTAError> {
    match spec_obj_get(fields, key) {
        Some(Json::Str(s)) => match spec_parse_u32(s@) {
            Some(v) => Ok(v),
            None => Err(LTAError::InvalidField(f, s)),
        },
        Some(_) => Err(LTAError::WrongShape(f)),
        None => Err(LTAError::MissingField(f)),
    }
}

/// Reads a string-encoded numeric field, per `spec_u32_str_field`: a value
/// that is not a decimal number in range fails with an error naming the field
/// and the raw value, never a silently coerced default.
pub fn u32_str_field(fields: &Vec<(String, Json)>, key: &str, f: Field) -> (r: Result<
    u32,
    LTAError,
>)
    ensures
        r == spec_u32_str_field(fields@, key@, f),
{
    match obj_get(fields, key) {
        Some(inner) => match inner {
            Json::Str(s) => match parse_u32(s.as_str()) {
                Some(v) => Ok(v),
                None => Err(LTAError::InvalidField(f, s.clone())),
            },
            _ => Err(LTAError::WrongShape(f)),
        },
        None => Err(LTAError::MissingField(f)),
    }
}

/// A mandatory numeric field transmitted as a JSON number: the value when it
/// is an integer that fits `u32`, a `WrongShape` error otherwise.
pub open spec fn spec_u32_num_field(
    fields: Seq<(String, Json)>,
    key: Seq<char>,
    f: Field,
) -> Result<u32, LTAError> {
    match spec_obj_get(fields, key) {
        Some(Json::UInt(u)) => if u <= u32::MAX {
            Ok(u as u32)
        } else {
            Err(LTAError::WrongShape(f))
        },
        Some(_) => Err(LTAError::WrongShape(f)),
        None => Err(LTAError::MissingField(f)),
    }
}

/// Reads a number-encoded numeric field, per `spec_u32_num_field`.
pub fn u32_num_field(fields: &Vec<(String, Json)>, key: &str, f: Field) -> (r: Result<
    u32,
    LTAError,
>)
    ensures
        r == spec_u32_num_field(fields@, key@, f),
{
    match obj_get(fields, key) {
        Some(inner) => match inner {
            Json::UInt(u) => {
                let u = *u;
                if u <= u32::MAX as u64 {
                    Ok(u as u32)
                } else {
                    Err(LTAError::WrongShape(f))
                }
            },
            _ => Err(LTAError::WrongShape(f)),
        },
        None => Err(LTAError::MissingField(f)),
    }
}

} // verus!
