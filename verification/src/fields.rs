//! Reading one named field of a JSON object through the scalar codec.
//! Records decode field by field with these; a record decode fails
//! atomically when any required field is malformed or missing.

use vstd::prelude::*;

use crate::codec::{
    decode_bool_json, decode_text_json, decode_timestamp_json, decode_u16_json, decode_u64_json,
    jv_dec_bool, jv_dec_text, jv_dec_timestamp, jv_dec_u16, jv_dec_u64, malformed, Timestamp,
};
use crate::date::{decode_date_json, jv_dec_date, Date};
use crate::error::MispError;
use crate::json::{jv_get, jv_of_fields, obj_lookup, Jv, JsonValue};
use crate::uid::{decode_uuid_json, jv_dec_uuid, Uuid};

verus! {

pub open spec fn spec_get_u64(fs: Seq<(Seq<char>, Jv)>, key: Seq<char>) -> Option<u64> {
    match jv_get(fs, key) {
        Some(v) => jv_dec_u64(v),
        None => None,
    }
}

pub open spec fn spec_get_u16(fs: Seq<(Seq<char>, Jv)>, key: Seq<char>) -> Option<u16> {
    match jv_get(fs, key) {
        Some(v) => jv_dec_u16(v),
        None => None,
    }
}

pub open spec fn spec_get_bool(fs: Seq<(Seq<char>, Jv)>, key: Seq<char>) -> Option<bool> {
    match jv_get(fs, key) {
        Some(v) => jv_dec_bool(v),
        None => None,
    }
}

pub open spec fn spec_get_text(fs: Seq<(Seq<char>, Jv)>, key: Seq<char>) -> Option<Seq<char>> {
    match jv_get(fs, key) {
        Some(v) => jv_dec_text(v),
        None => None,
    }
}

pub open spec fn spec_get_timestamp(fs: Seq<(Seq<char>, Jv)>, key: Seq<char>) -> Option<
    Timestamp,
> {
    match jv_get(fs, key) {
        Some(v) => jv_dec_timestamp(v),
        None => None,
    }
}

pub open spec fn spec_get_date(fs: Seq<(Seq<char>, Jv)>, key: Seq<char>) -> Option<Date> {
    match jv_get(fs, key) {
        Some(v) => jv_dec_date(v),
        None => None,
    }
}

pub open spec fn spec_get_uuid(fs: Seq<(Seq<char>, Jv)>, key: Seq<char>) -> Option<Uuid> {
    match jv_get(fs, key) {
        Some(v) => jv_dec_uuid(v),
        None => None,
    }
}

/// An optional text field: absent or JSON null mean "no value"; a string is
/// the value; anything else is malformed.
pub open spec fn spec_get_opt_text(fs: Seq<(Seq<char>, Jv)>, key: Seq<char>) -> Option<
    Option<Seq<char>>,
> {
    match jv_get(fs, key) {
        Some(v) => match v {
            Jv::Null => Some(None),
            Jv::Text(s) => Some(Some(s)),
            _ => None,
        },
        None => Some(None),
    }
}

/// An optional timestamp field: absent or JSON null mean "no value".
pub open spec fn spec_get_opt_timestamp(fs: Seq<(Seq<char>, Jv)>, key: Seq<char>) -> Option<
    Option<Timestamp>,
> {
    match jv_get(fs, key) {
        Some(v) => match v {
            Jv::Null => Some(None),
            _ => match jv_dec_timestamp(v) {
                Some(t) => Some(Some(t)),
                None => None,
            },
        },
        None => Some(None),
    }
}

/// A field kept as raw JSON: it must be present, but any shape is accepted.
pub open spec fn spec_get_raw(fs: Seq<(Seq<char>, Jv)>, key: Seq<char>) -> Option<Jv> {
    jv_get(fs, key)
}

// ---------------------------------------------------------------------------
// Executable getters.
// ---------------------------------------------------------------------------
pub fn get_u64_field(fields: &Vec<(String, JsonValue)>, key: &str) -> (r: Result<u64, MispError>)
    ensures
        spec_get_u64(jv_of_fields(fields@), key@) matches Some(n) ==> (r matches Ok(m) && m == n),
        spec_get_u64(jv_of_fields(fields@), key@) is None ==> (r matches Err(e)
            && e is MalformedValue),
{
    match obj_lookup(fields, key) {
        Some(v) => decode_u64_json(v),
        None => Err(malformed(key, "a required field")),
    }
}

pub fn get_u16_field(fields: &Vec<(String, JsonValue)>, key: &str) -> (r: Result<u16, MispError>)
    ensures
        spec_get_u16(jv_of_fields(fields@), key@) matches Some(n) ==> (r matches Ok(m) && m == n),
        spec_get_u16(jv_of_fields(fields@), key@) is None ==> (r matches Err(e)
            && e is MalformedValue),
{
    match obj_lookup(fields, key) {
        Some(v) => decode_u16_json(v),
        None => Err(malformed(key, "a required field")),
    }
}

pub fn get_bool_field(fields: &Vec<(String, JsonValue)>, key: &str) -> (r: Result<bool, MispError>)
    ensures
        spec_get_bool(jv_of_fields(fields@), key@) matches Some(b) ==> (r matches Ok(c) && c == b),
        spec_get_bool(jv_of_fields(fields@), key@) is None ==> (r matches Err(e)
            && e is MalformedValue),
{
    match obj_lookup(fields, key) {
        Some(v) => decode_bool_json(v),
        None => Err(malformed(key, "a required field")),
    }
}

pub fn get_text_field(fields: &Vec<(String, JsonValue)>, key: &str) -> (r: Result<
    String,
    MispError,
>)
    ensures
        spec_get_text(jv_of_fields(fields@), key@) matches Some(s) ==> (r matches Ok(t) && t@
            == s),
        spec_get_text(jv_of_fields(fields@), key@) is None ==> (r matches Err(e)
            && e is MalformedValue),
{
    match obj_lookup(fields, key) {
        Some(v) => decode_text_json(v),
        None => Err(malformed(key, "a required field")),
    }
}

pub fn get_timestamp_field(fields: &Vec<(String, JsonValue)>, key: &str) -> (r: Result<
    Timestamp,
    MispError,
>)
    ensures
        spec_get_timestamp(jv_of_fields(fields@), key@) matches Some(t) ==> (r matches Ok(u) && u
            == t),
        spec_get_timestamp(jv_of_fields(fields@), key@) is None ==> (r matches Err(e)
            && e is MalformedValue),
{
    match obj_lookup(fields, key) {
        Some(v) => decode_timestamp_json(v),
        None => Err(malformed(key, "a required field")),
    }
}

pub fn get_date_field(fields: &Vec<(String, JsonValue)>, key: &str) -> (r: Result<Date, MispError>)
    ensures
        spec_get_date(jv_of_fields(fields@), key@) matches Some(d) ==> (r matches Ok(c) && c == d
            && c.valid()),
        spec_get_date(jv_of_fields(fields@), key@) is None ==> (r matches Err(e)
            && e is MalformedValue),
{
    match obj_lookup(fields, key) {
        Some(v) => decode_date_json(v),
        None => Err(malformed(key, "a required field")),
    }
}

pub fn get_uuid_field(fields: &Vec<(String, JsonValue)>, key: &str) -> (r: Result<Uuid, MispError>)
    ensures
        spec_get_uuid(jv_of_fields(fields@), key@) matches Some(u) ==> (r matches Ok(w) && w == u),
        spec_get_uuid(jv_of_fields(fields@), key@) is None ==> (r matches Err(e)
            && e is MalformedValue),
{
    match obj_lookup(fields, key) {
        Some(v) => decode_uuid_json(v),
        None => Err(malformed(key, "a required field")),
    }
}

pub fn get_opt_text_field(fields: &Vec<(String, JsonValue)>, key: &str) -> (r: Result<
    Option<String>,
    MispError,
>)
    ensures
        spec_get_opt_text(jv_of_fields(fields@), key@) matches Some(o) ==> (r matches Ok(p) && (
        match p {
            Some(t) => o matches Some(s) && t@ == s,
            None => o is None,
        })),
        spec_get_opt_text(jv_of_fields(fields@), key@) is None ==> (r matches Err(e)
            && e is MalformedValue),
{
    match obj_lookup(fields, key) {
        Some(v) => match v {
            JsonValue::Null => Ok(None),
            JsonValue::Text(s) => Ok(Some(s.clone())),
            _ => Err(malformed(key, "a string or null")),
        },
        None => Ok(None),
    }
}

pub fn get_opt_timestamp_field(fields: &Vec<(String, JsonValue)>, key: &str) -> (r: Result<
    Option<Timestamp>,
    MispError,
>)
    ensures
        spec_get_opt_timestamp(jv_of_fields(fields@), key@) matches Some(o) ==> (r matches Ok(p)
            && p == o),
        spec_get_opt_timestamp(jv_of_fields(fields@), key@) is None ==> (r matches Err(e)
            && e is MalformedValue),
{
    match obj_lookup(fields, key) {
        Some(v) => match v {
            JsonValue::Null => Ok(None),
            other => {
                let t = decode_timestamp_json(other)?;
                Ok(Some(t))
            },
        },
        None => Ok(None),
    }
}

pub fn get_raw_field(fields: &Vec<(String, JsonValue)>, key: &str) -> (r: Result<
    JsonValue,
    MispError,
>)
    ensures
        spec_get_raw(jv_of_fields(fields@), key@) matches Some(x) ==> (r matches Ok(y) && y@ == x),
        spec_get_raw(jv_of_fields(fields@), key@) is None ==> (r matches Err(e)
            && e is MalformedValue),
{
    match obj_lookup(fields, key) {
        Some(v) => Ok(v.clone()),
        None => Err(malformed(key, "a required field")),
    }
}

} // verus!
