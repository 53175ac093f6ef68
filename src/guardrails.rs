//! The seconds-granularity usage report of the lightweight guardrails probe.

use vstd::prelude::*;
use crate::json::{field, get_field, json_of, parse_json, Json};
use crate::query::is_success_status;
use crate::schema::SchemaError;

verus! {

/// Usage within one window, in seconds; each count may be unknown.
#[derive(Debug, Clone, Copy, PartialEq, Eq, Structural)]
pub struct GuardrailUsageWindow {
    /// Seconds used within this window, if known.
    pub used_seconds: Option<u64>,
    /// Total seconds available for this window, if known.
    pub limit_seconds: Option<u64>,
    /// Seconds until this window resets, if known.
    pub resets_in_seconds: Option<u64>,
}

/// Usage across the five-hour and the weekly window.
#[derive(Debug, Clone, Copy, PartialEq, Eq, Structural)]
pub struct GuardrailUsage {
    pub five_hour: Option<GuardrailUsageWindow>,
    pub weekly: Option<GuardrailUsageWindow>,
}

/// An optional `u64` member: absent or null is `None`.
pub open spec fn u64_member(v: Option<Json>) -> Result<Option<u64>, SchemaError> {
    match v {
        None => Ok(None),
        Some(Json::Null) => Ok(None),
        Some(Json::Number(Some(n))) => Ok(Some(n)),
        _ => Err(SchemaError::UnrecognizedSchema),
    }
}

pub open spec fn guardrail_window(v: Json) -> Result<GuardrailUsageWindow, SchemaError> {
    match v {
        Json::Object(fs) => {
            let used = u64_member(field(fs@, "used_seconds"@));
            let limit = u64_member(field(fs@, "limit_seconds"@));
            let resets = u64_member(field(fs@, "resets_in_seconds"@));
            if used is Ok && limit is Ok && resets is Ok {
                Ok(
                    GuardrailUsageWindow {
                        used_seconds: used->Ok_0,
                        limit_seconds: limit->Ok_0,
                        resets_in_seconds: resets->Ok_0,
                    },
                )
            } else {
                Err(SchemaError::UnrecognizedSchema)
            }
        },
        _ => Err(SchemaError::UnrecognizedSchema),
    }
}

pub open spec fn guardrail_window_member(v: Option<Json>) -> Result<
    Option<GuardrailUsageWindow>,
    SchemaError,
> {
    match v {
        None => Ok(None),
        Some(Json::Null) => Ok(None),
        Some(w) => match guardrail_window(w) {
            Ok(x) => Ok(Some(x)),
            Err(e) => Err(e),
        },
    }
}

/// A parsed report: an object whose `five_hour` and `weekly` members are
/// each absent, null or a window.
pub open spec fn guardrail_usage_of(doc: Json) -> Result<GuardrailUsage, SchemaError> {
    match doc {
        Json::Object(fs) => {
            let a = guardrail_window_member(field(fs@, "five_hour"@));
            let b = guardrail_window_member(field(fs@, "weekly"@));
            if a is Ok && b is Ok {
                Ok(GuardrailUsage { five_hour: a->Ok_0, weekly: b->Ok_0 })
            } else {
                Err(SchemaError::UnrecognizedSchema)
            }
        },
        _ => Err(SchemaError::UnrecognizedSchema),
    }
}

fn u64_field(fs: &Vec<(String, Json)>, key: &str) -> (r: Result<Option<u64>, SchemaError>)
    ensures
        r == u64_member(field(fs@, key@)),
{
    match get_field(fs, key) {
        None => Ok(None),
        Some(Json::Null) => Ok(None),
        Some(Json::Number(Some(n))) => Ok(Some(*n)),
        Some(_) => Err(SchemaError::UnrecognizedSchema),
    }
}

fn guardrail_window_field(fs: &Vec<(String, Json)>, key: &str) -> (r: Result<
    Option<GuardrailUsageWindow>,
    SchemaError,
>)
    ensures
        r == guardrail_window_member(field(fs@, key@)),
{
    match get_field(fs, key) {
        None => Ok(None),
        Some(Json::Null) => Ok(None),
        Some(Json::Object(wfs)) => {
            let used = u64_field(wfs, "used_seconds");
            let limit = u64_field(wfs, "limit_seconds");
            let resets = u64_field(wfs, "resets_in_seconds");
            match (used, limit, resets) {
                (Ok(u), Ok(l), Ok(s)) => Ok(
                    Some(
                        GuardrailUsageWindow {
                            used_seconds: u,
                            limit_seconds: l,
                            resets_in_seconds: s,
                        },
                    ),
                ),
                _ => Err(SchemaError::UnrecognizedSchema),
            }
        },
        Some(_) => Err(SchemaError::UnrecognizedSchema),
    }
}

/// Reads a parsed guardrails report.
pub fn guardrail_usage_from(doc: &Json) -> (r: Result<GuardrailUsage, SchemaError>)
    ensures
        r == guardrail_usage_of(*doc),
{
    match doc {
        Json::Object(fs) => {
            let a = guardrail_window_field(fs, "five_hour");
            let b = guardrail_window_field(fs, "weekly");
            match (a, b) {
                (Ok(x), Ok(y)) => Ok(GuardrailUsage { five_hour: x, weekly: y }),
                _ => Err(SchemaError::UnrecognizedSchema),
            }
        },
        _ => Err(SchemaError::UnrecognizedSchema),
    }
}

/// Reads a guardrails response body; a body that is not JSON is an
/// unrecognized schema.
pub fn parse_guardrail_usage(body: &str) -> (r: Result<GuardrailUsage, SchemaError>)
    ensures
        r == match json_of(body@) {
            Some(doc) => guardrail_usage_of(doc),
            None => Err(SchemaError::UnrecognizedSchema),
        },
{
    match parse_json(body) {
        Some(doc) => guardrail_usage_from(&doc),
        None => Err(SchemaError::UnrecognizedSchema),
    }
}

/// The report that a guardrails response carries: `None` when the status is
/// not a success or the body reads under no known shape, so that callers
/// fall back to a placeholder.
pub fn guardrail_usage_from_response(status: u16, body: &str) -> (r: Option<GuardrailUsage>)
    ensures
        r == if is_success_status(status) {
            match json_of(body@) {
                Some(doc) => match guardrail_usage_of(doc) {
                    Ok(u) => Some(u),
                    Err(_) => None,
                },
                None => None,
            }
        } else {
            None
        },
{
    if 200 <= status && status <= 299 {
        match parse_guardrail_usage(body) {
            Ok(u) => Some(u),
            Err(_) => None,
        }
    } else {
        None
    }
}

} // verus!
