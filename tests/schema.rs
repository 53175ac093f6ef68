use codex_usage::guardrails::{
    guardrail_usage_from_response, parse_guardrail_usage, GuardrailUsage, GuardrailUsageWindow,
};
use codex_usage::json::{get_field, parse_json, Json};
use codex_usage::schema::{parse_usage_limits, window_from, SchemaError};
use codex_usage::usage::{UtcInstant, WindowUsage};

fn w(used: u32, limit: u32, reset_at: Option<i64>) -> WindowUsage {
    WindowUsage {
        used_minutes: used,
        limit_minutes: limit,
        reset_at: reset_at.map(|secs| UtcInstant { secs, nanos: 0 }),
    }
}

#[test]
fn nested_shape_is_read() {
    let body = r#"{"plan":"plus","limits":{"5h":{"used_minutes":30,"limit_minutes":300,"resets_at":"2025-01-01T00:00:00Z"},"weekly":{"used_minutes":100,"limit_minutes":2000}}}"#;
    let r = parse_usage_limits(body).unwrap();
    assert_eq!(r, (Some(w(30, 300, Some(1_735_689_600))), Some(w(100, 2000, None))));
}

#[test]
fn flattened_shape_is_read() {
    let body = r#"{"5h":{"used_minutes":30,"limit_minutes":300,"resets_at":"2025-01-01T00:00:00Z"},"weekly":{"used_minutes":100,"limit_minutes":2000}}"#;
    let r = parse_usage_limits(body).unwrap();
    assert_eq!(r, (Some(w(30, 300, Some(1_735_689_600))), Some(w(100, 2000, None))));
}

#[test]
fn both_shapes_give_the_same_windows() {
    let inner = r#"{"5h":{"used_minutes":7,"reset_at":"2024-06-01T12:30:00+02:00"},"weekly":null}"#;
    let nested = format!(r#"{{"limits":{inner}}}"#);
    let a = parse_usage_limits(&nested).unwrap();
    let b = parse_usage_limits(inner).unwrap();
    assert_eq!(a, b);
    assert_eq!(a, (Some(w(7, 0, Some(1_717_237_800))), None));
}

#[test]
fn missing_keys_are_unrecognized() {
    assert_eq!(parse_usage_limits("{}"), Err(SchemaError::UnrecognizedSchema));
    assert_eq!(parse_usage_limits(r#"{"plan":"plus"}"#), Err(SchemaError::UnrecognizedSchema));
    assert_eq!(parse_usage_limits(r#"{"other":{"5h":{}}}"#), Err(SchemaError::UnrecognizedSchema));
}

#[test]
fn malformed_bodies_are_unrecognized() {
    assert_eq!(parse_usage_limits(""), Err(SchemaError::UnrecognizedSchema));
    assert_eq!(parse_usage_limits("<html>"), Err(SchemaError::UnrecognizedSchema));
    assert_eq!(parse_usage_limits("[1,2]"), Err(SchemaError::UnrecognizedSchema));
    assert_eq!(parse_usage_limits("42"), Err(SchemaError::UnrecognizedSchema));
    assert_eq!(
        parse_usage_limits(r#"{"5h":{"used_minutes":"many"}}"#),
        Err(SchemaError::UnrecognizedSchema)
    );
    assert_eq!(
        parse_usage_limits(r#"{"5h":{"used_minutes":-1}}"#),
        Err(SchemaError::UnrecognizedSchema)
    );
    assert_eq!(
        parse_usage_limits(r#"{"5h":{"used_minutes":4294967296}}"#),
        Err(SchemaError::UnrecognizedSchema)
    );
    assert_eq!(parse_usage_limits(r#"{"5h":3}"#), Err(SchemaError::UnrecognizedSchema));
}

#[test]
fn malformed_nested_falls_back_to_flattened() {
    let body = r#"{"limits":{"5h":"bad"},"weekly":{"used_minutes":1}}"#;
    assert_eq!(parse_usage_limits(body), Ok((None, Some(w(1, 0, None)))));
}

#[test]
fn absent_counts_are_zero() {
    assert_eq!(parse_usage_limits(r#"{"5h":{}}"#), Ok((Some(w(0, 0, None)), None)));
    assert_eq!(
        parse_usage_limits(r#"{"5h":{"used_minutes":null,"limit_minutes":null}}"#),
        Ok((Some(w(0, 0, None)), None))
    );
    assert_eq!(
        parse_usage_limits(r#"{"5h":{"used_minutes":4294967295}}"#),
        Ok((Some(w(4_294_967_295, 0, None)), None))
    );
}

#[test]
fn resets_at_is_preferred_and_bad_times_are_dropped() {
    let both = r#"{"5h":{"resets_at":"2025-01-01T00:00:00Z","reset_at":"2026-01-01T00:00:00Z"}}"#;
    assert_eq!(parse_usage_limits(both), Ok((Some(w(0, 0, Some(1_735_689_600))), None)));
    let bad = r#"{"5h":{"resets_at":"soon","reset_at":"2026-01-01T00:00:00Z"}}"#;
    assert_eq!(parse_usage_limits(bad), Ok((Some(w(0, 0, None)), None)));
    let fallback = r#"{"5h":{"reset_at":"2025-01-01T01:00:00+01:00"}}"#;
    assert_eq!(parse_usage_limits(fallback), Ok((Some(w(0, 0, Some(1_735_689_600))), None)));
    let nanos = r#"{"5h":{"resets_at":"2025-01-01T00:00:00.25Z"}}"#;
    let r = parse_usage_limits(nanos).unwrap();
    assert_eq!(
        r.0.unwrap().reset_at,
        Some(UtcInstant { secs: 1_735_689_600, nanos: 250_000_000 })
    );
}

#[test]
fn json_model_is_filled() {
    let doc = parse_json(r#"{"b":[true,null,1.5,-3,7],"a":"x"}"#).unwrap();
    match &doc {
        Json::Object(fs) => {
            assert_eq!(fs.len(), 2);
            assert_eq!(get_field(fs, "a"), Some(&Json::Str("x".to_string())));
            match get_field(fs, "b") {
                Some(Json::Array(items)) => {
                    assert_eq!(items.len(), 5);
                    assert!(matches!(items[0], Json::Bool(true)));
                    assert!(matches!(items[1], Json::Null));
                    assert!(matches!(items[2], Json::Number(None)));
                    assert!(matches!(items[3], Json::Number(None)));
                    assert!(matches!(items[4], Json::Number(Some(7))));
                }
                _ => panic!("array expected"),
            }
            assert!(get_field(fs, "c").is_none());
        }
        _ => panic!("object expected"),
    }
    assert!(parse_json("{").is_none());
}

#[test]
fn window_from_reads_a_window_object() {
    let doc = parse_json(r#"{"used_minutes":5,"limit_minutes":9}"#).unwrap();
    assert_eq!(window_from(&doc), Ok(w(5, 9, None)));
    assert_eq!(window_from(&Json::Null), Err(SchemaError::UnrecognizedSchema));
}

#[test]
fn guardrail_report_is_read() {
    let body = r#"{"five_hour":{"used_seconds":600,"limit_seconds":18000,"resets_in_seconds":3661},"weekly":null}"#;
    let expected = GuardrailUsage {
        five_hour: Some(GuardrailUsageWindow {
            used_seconds: Some(600),
            limit_seconds: Some(18_000),
            resets_in_seconds: Some(3_661),
        }),
        weekly: None,
    };
    assert_eq!(parse_guardrail_usage(body), Ok(expected));
    assert_eq!(guardrail_usage_from_response(200, body), Some(expected));
    assert_eq!(guardrail_usage_from_response(404, body), None);
    assert_eq!(
        parse_guardrail_usage("{}"),
        Ok(GuardrailUsage { five_hour: None, weekly: None })
    );
    assert_eq!(parse_guardrail_usage("null"), Err(SchemaError::UnrecognizedSchema));
    assert_eq!(guardrail_usage_from_response(200, "oops"), None);
}
