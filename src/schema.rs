//! Reads the service's quota response into canonical windows. Two response
//! shapes are known and tried in order: the nested one, whose `limits`
//! object holds the `5h` and `weekly` windows, and the flattened one, with
//! `5h` and `weekly` at the top level.

use vstd::prelude::*;
use crate::json::{field, get_field, json_of, parse_json, Json};
use crate::usage::{UtcInstant, WindowUsage};

verus! {

/// The response matched no known shape.
#[derive(Debug, Clone, Copy, PartialEq, Eq, Structural)]
pub enum SchemaError {
    UnrecognizedSchema,
}

/// The five-hour window and the weekly window, each possibly absent.
pub type Windows = (Option<WindowUsage>, Option<WindowUsage>);

/// The instant that chrono reads from an RFC-3339 timestamp, as Unix
/// seconds and nanoseconds, or `None` when the text is not one.
pub uninterp spec fn rfc3339_instant(s: Seq<char>) -> Option<(i64, u32)>;

/// Relies on chrono::DateTime::parse_from_rfc3339, then the instant's Unix
/// seconds and sub-second nanoseconds.
#[verifier::external_body]
fn parse_rfc3339(s: &str) -> (r: Option<(i64, u32)>)
    ensures
        r == rfc3339_instant(s@),
{
    match chrono::DateTime::parse_from_rfc3339(s) {
        Ok(dt) => Some((dt.timestamp(), dt.timestamp_subsec_nanos())),
        Err(_) => None,
    }
}

pub open spec fn instant_of(s: Seq<char>) -> Option<UtcInstant> {
    match rfc3339_instant(s) {
        Some((secs, nanos)) => Some(UtcInstant { secs, nanos }),
        None => None,
    }
}

/// An optional `u32` member: absent or null is `None`; anything but a
/// non-negative integer that fits is malformed.
pub open spec fn u32_member(v: Option<Json>) -> Result<Option<u32>, SchemaError> {
    match v {
        None => Ok(None),
        Some(Json::Null) => Ok(None),
        Some(Json::Number(Some(n))) => if n <= u32::MAX as u64 {
            Ok(Some(n as u32))
        } else {
            Err(SchemaError::UnrecognizedSchema)
        },
        _ => Err(SchemaError::UnrecognizedSchema),
    }
}

/// An optional string member: absent or null is `None`.
pub open spec fn str_member(v: Option<Json>) -> Result<Option<Seq<char>>, SchemaError> {
    match v {
        None => Ok(None),
        Some(Json::Null) => Ok(None),
        Some(Json::Str(s)) => Ok(Some(s@)),
        _ => Err(SchemaError::UnrecognizedSchema),
    }
}

pub open spec fn count_or_zero(c: Option<u32>) -> u32 {
    match c {
        Some(n) => n,
        None => 0,
    }
}

/// The reset time: `resets_at` when present, else `reset_at`; a text that
/// is not RFC-3339 gives no reset time.
pub open spec fn reset_of(resets_at: Option<Seq<char>>, reset_at: Option<Seq<char>>) -> Option<
    UtcInstant,
> {
    let chosen = match resets_at {
        Some(s) => Some(s),
        None => reset_at,
    };
    match chosen {
        Some(s) => instant_of(s),
        None => None,
    }
}

/// One window object of the wire format.
pub open spec fn window_usage(v: Json) -> Result<WindowUsage, SchemaError> {
    match v {
        Json::Object(fs) => {
            let used = u32_member(field(fs@, "used_minutes"@));
            let limit = u32_member(field(fs@, "limit_minutes"@));
            let r1 = str_member(field(fs@, "resets_at"@));
            let r2 = str_member(field(fs@, "reset_at"@));
            if used is Ok && limit is Ok && r1 is Ok && r2 is Ok {
                Ok(
                    WindowUsage {
                        used_minutes: count_or_zero(used->Ok_0),
                        limit_minutes: count_or_zero(limit->Ok_0),
                        reset_at: reset_of(r1->Ok_0, r2->Ok_0),
                    },
                )
            } else {
                Err(SchemaError::UnrecognizedSchema)
            }
        },
        _ => Err(SchemaError::UnrecognizedSchema),
    }
}

/// An optional window member: absent or null is `None`.
pub open spec fn window_member(v: Option<Json>) -> Result<Option<WindowUsage>, SchemaError> {
    match v {
        None => Ok(None),
        Some(Json::Null) => Ok(None),
        Some(w) => match window_usage(w) {
            Ok(x) => Ok(Some(x)),
            Err(e) => Err(e),
        },
    }
}

/// The `5h` and `weekly` members of an object.
pub open spec fn windows_in(fs: Seq<(String, Json)>) -> Result<Windows, SchemaError> {
    let a = window_member(field(fs, "5h"@));
    let b = window_member(field(fs, "weekly"@));
    if a is Ok && b is Ok {
        Ok((a->Ok_0, b->Ok_0))
    } else {
        Err(SchemaError::UnrecognizedSchema)
    }
}

/// The nested shape: a `limits` object, and a `plan` that is a string if present.
pub open spec fn nested_shape(fs: Seq<(String, Json)>) -> Result<Windows, SchemaError> {
    match field(fs, "limits"@) {
        Some(Json::Object(lfs)) => if str_member(field(fs, "plan"@)) is Ok {
            windows_in(lfs@)
        } else {
            Err(SchemaError::UnrecognizedSchema)
        },
        _ => Err(SchemaError::UnrecognizedSchema),
    }
}

/// The flattened shape: at least one of `5h` and `weekly` at the top level.
pub open spec fn flattened_shape(fs: Seq<(String, Json)>) -> Result<Windows, SchemaError> {
    if field(fs, "5h"@) is None && field(fs, "weekly"@) is None {
        Err(SchemaError::UnrecognizedSchema)
    } else {
        windows_in(fs)
    }
}

/// A document read under the first shape that it matches.
pub open spec fn normalized(doc: Json) -> Result<Windows, SchemaError> {
    match doc {
        Json::Object(fs) => match nested_shape(fs@) {
            Ok(w) => Ok(w),
            Err(_) => flattened_shape(fs@),
        },
        _ => Err(SchemaError::UnrecognizedSchema),
    }
}

/// A response body: not JSON at all is an unrecognized schema too.
pub open spec fn normalized_body(body: Seq<char>) -> Result<Windows, SchemaError> {
    match json_of(body) {
        Some(doc) => normalized(doc),
        None => Err(SchemaError::UnrecognizedSchema),
    }
}

fn u32_field(fs: &Vec<(String, Json)>, key: &str) -> (r: Result<Option<u32>, SchemaError>)
    ensures
        r == u32_member(field(fs@, key@)),
{
    match get_field(fs, key) {
        None => Ok(None),
        Some(Json::Null) => Ok(None),
        Some(Json::Number(Some(n))) => if *n <= u32::MAX as u64 {
            Ok(Some(*n as u32))
        } else {
            Err(SchemaError::UnrecognizedSchema)
        },
        Some(_) => Err(SchemaError::UnrecognizedSchema),
    }
}

fn str_field<'a>(fs: &'a Vec<(String, Json)>, key: &str) -> (r: Result<Option<&'a str>, SchemaError>)
    ensures
        match r {
            Ok(Some(s)) => str_member(field(fs@, key@)) == Ok::<_, SchemaError>(Some(s@)),
            Ok(None) => str_member(field(fs@, key@)) == Ok::<_, SchemaError>(None::<Seq<char>>),
            Err(e) => str_member(field(fs@, key@)) == Err::<Option<Seq<char>>, _>(e),
        },
{
    match get_field(fs, key) {
        None => Ok(None),
        Some(Json::Null) => Ok(None),
        Some(Json::Str(s)) => Ok(Some(s.as_str())),
        Some(_) => Err(SchemaError::UnrecognizedSchema),
    }
}

fn reset_time(resets_at: Option<&str>, reset_at: Option<&str>) -> (r: Option<UtcInstant>)
    ensures
        r == reset_of(
            match resets_at {
                Some(s) => Some(s@),
                None => None,
            },
            match reset_at {
                Some(s) => Some(s@),
                None => None,
            },
        ),
{
    let chosen = match resets_at {
        Some(s) => Some(s),
        None => reset_at,
    };
    match chosen {
        Some(s) => match parse_rfc3339(s) {
            Some((secs, nanos)) => Some(UtcInstant { secs, nanos }),
            None => None,
        },
        None => None,
    }
}

/// Reads one window object.
pub fn window_from(v: &Json) -> (r: Result<WindowUsage, SchemaError>)
    ensures
        r == window_usage(*v),
{
    match v {
        Json::Object(fs) => {
            let used = u32_field(fs, "used_minutes");
            let limit = u32_field(fs, "limit_minutes");
            let r1 = str_field(fs, "resets_at");
            let r2 = str_field(fs, "reset_at");
            match (used, limit, r1, r2) {
                (Ok(u), Ok(l), Ok(a), Ok(b)) => Ok(
                    WindowUsage {
                        used_minutes: match u {
                            Some(n) => n,
                            None => 0,
                        },
                        limit_minutes: match l {
                            Some(n) => n,
                            None => 0,
                        },
                        reset_at: reset_time(a, b),
                    },
                ),
                _ => Err(SchemaError::UnrecognizedSchema),
            }
        },
        _ => Err(SchemaError::UnrecognizedSchema),
    }
}

fn window_field(fs: &Vec<(String, Json)>, key: &str) -> (r: Result<Option<WindowUsage>, SchemaError>)
    ensures
        r == window_member(field(fs@, key@)),
{
    match get_field(fs, key) {
        None => Ok(None),
        Some(Json::Null) => Ok(None),
        Some(w) => match window_from(w) {
            Ok(x) => Ok(Some(x)),
            Err(e) => Err(e),
        },
    }
}

fn windows_from(fs: &Vec<(String, Json)>) -> (r: Result<Windows, SchemaError>)
    ensures
        r == windows_in(fs@),
{
    let a = window_field(fs, "5h");
    let b = window_field(fs, "weekly");
    match (a, b) {
        (Ok(x), Ok(y)) => Ok((x, y)),
        _ => Err(SchemaError::UnrecognizedSchema),
    }
}

fn nested_from(fs: &Vec<(String, Json)>) -> (r: Result<Windows, SchemaError>)
    ensures
        r == nested_shape(fs@),
{
    match get_field(fs, "limits") {
        Some(Json::Object(lfs)) => match str_field(fs, "plan") {
            Ok(_) => windows_from(lfs),
            Err(e) => Err(e),
        },
        _ => Err(SchemaError::UnrecognizedSchema),
    }
}

fn flattened_from(fs: &Vec<(String, Json)>) -> (r: Result<Windows, SchemaError>)
    ensures
        r == flattened_shape(fs@),
{
    if get_field(fs, "5h").is_none() && get_field(fs, "weekly").is_none() {
        Err(SchemaError::UnrecognizedSchema)
    } else {
        windows_from(fs)
    }
}

/// Reads a parsed response under the nested shape, else the flattened one.
pub fn normalize_limits(doc: &Json) -> (r: Result<Windows, SchemaError>)
    ensures
        r == normalized(*doc),
{
    match doc {
        Json::Object(fs) => match nested_from(fs) {
            Ok(w) => Ok(w),
            Err(_) => flattened_from(fs),
        },
        _ => Err(SchemaError::UnrecognizedSchema),
    }
}

/// Reads a response body into the five-hour and weekly windows.
pub fn parse_usage_limits(body: &str) -> (r: Result<Windows, SchemaError>)
    ensures
        r == normalized_body(body@),
{
    match parse_json(body) {
        Some(doc) => normalize_limits(&doc),
        None => Err(SchemaError::UnrecognizedSchema),
    }
}

/// The nested and the flattened shape, holding the same window members,
/// are both accepted and read to the same windows.
pub proof fn lemma_shapes_agree(nested: Json, flat: Json, limits: Json)
    requires
        nested matches Json::Object(nfs) && field(nfs@, "limits"@) == Some(limits) && str_member(
            field(nfs@, "plan"@),
        ) is Ok,
        limits matches Json::Object(lfs) && windows_in(lfs@) is Ok,
        flat matches Json::Object(ffs) && field(ffs@, "limits"@) is None && (field(ffs@, "5h"@) is Some
            || field(ffs@, "weekly"@) is Some),
        limits matches Json::Object(lfs) && flat matches Json::Object(ffs) && field(lfs@, "5h"@)
            == field(ffs@, "5h"@) && field(lfs@, "weekly"@) == field(ffs@, "weekly"@),
    ensures
        normalized(nested) is Ok,
        normalized(nested) == normalized(flat),
{
}

/// A response that is not an object, or an object with none of the keys
/// `limits`, `5h` and `weekly`, is an unrecognized schema.
pub proof fn lemma_unrecognized(doc: Json)
    requires
        doc matches Json::Object(fs) ==> field(fs@, "limits"@) is None && field(fs@, "5h"@) is None
            && field(fs@, "weekly"@) is None,
    ensures
        normalized(doc) == Err::<Windows, _>(SchemaError::UnrecognizedSchema),
{
}

} // verus!
