use codex_usage::present::{remaining_minutes, render_usage, seconds_until};
use codex_usage::query::{
    candidate_url, needs_probe, usage_from_fetch, AuthMode, CandidateResponse, Probe, ProbeAction,
    CANDIDATE_COUNT,
};
use codex_usage::report::{usage_report, AuthStatus};
use codex_usage::guardrails::{GuardrailUsage, GuardrailUsageWindow};
use codex_usage::usage::{UsageError, UsageInfo, UsageSource, UtcInstant, WindowUsage};

const A: &str = "https://chat.openai.com/backend-api/user_limits";
const B: &str = "https://chat.openai.com/backend-api/usage/limits";

fn ok(body: &str) -> CandidateResponse {
    CandidateResponse::Http { status: 200, body: body.to_string() }
}

#[test]
fn candidates_are_in_declared_order() {
    assert_eq!(CANDIDATE_COUNT, 2);
    assert_eq!(candidate_url(0), A);
    assert_eq!(candidate_url(1), B);
    assert_eq!(Probe::new().action(), ProbeAction::Get(A.to_string()));
}

#[test]
fn first_success_wins_after_a_failure() {
    let mut p = Probe::new();
    let a = p.record(&CandidateResponse::Http { status: 500, body: "oops".to_string() });
    assert_eq!(a, ProbeAction::Get(B.to_string()));
    let body = r#"{"5h":{"used_minutes":12,"limit_minutes":300}}"#;
    let b = p.record(&ok(body));
    let five = WindowUsage { used_minutes: 12, limit_minutes: 300, reset_at: None };
    assert_eq!(b, ProbeAction::Done(Ok((Some(five), None))));
}

#[test]
fn first_success_stops_the_pass() {
    let mut p = Probe::new();
    let a = p.record(&ok(r#"{"weekly":{"used_minutes":1}}"#));
    let week = WindowUsage { used_minutes: 1, limit_minutes: 0, reset_at: None };
    assert_eq!(a, ProbeAction::Done(Ok((None, Some(week)))));
    assert_eq!(p, Probe::new());
}

#[test]
fn all_failing_gives_the_last_error() {
    let mut p = Probe::new();
    let a = p.record(&CandidateResponse::Transport("connection refused".to_string()));
    assert_eq!(a, ProbeAction::Get(B.to_string()));
    let b = p.record(&ok("<html></html>"));
    assert_eq!(b, ProbeAction::Done(Err("unexpected response schema".to_string())));

    let mut p = Probe::new();
    p.record(&ok("{}"));
    let b = p.record(&CandidateResponse::Http { status: 404, body: String::new() });
    assert_eq!(b, ProbeAction::Done(Err(format!("{B} returned status 404"))));
    assert_eq!(p.action(), ProbeAction::Done(Err(format!("{B} returned status 404"))));
}

#[test]
fn failure_renders_generic_line() {
    let mut p = Probe::new();
    p.record(&CandidateResponse::Transport("timed out".to_string()));
    let last = match p.record(&CandidateResponse::Http { status: 503, body: String::new() }) {
        ProbeAction::Done(Err(e)) => e,
        other => panic!("unexpected {other:?}"),
    };
    let result = usage_from_fetch(Some("plus".to_string()), AuthMode::ChatGpt, Err(last));
    match &result {
        Err(UsageError::Message(m)) => {
            assert_eq!(m, &format!("could not fetch ChatGPT usage: {B} returned status 503"));
        }
        other => panic!("unexpected {other:?}"),
    }
    let lines = render_usage(&result, 0);
    assert_eq!(lines, vec!["Usage information is currently unavailable.".to_string()]);
    for l in &lines {
        assert!(!l.contains("503"));
    }
    assert_eq!(
        render_usage(&Err(UsageError::UnsupportedForAuthMode), 0),
        vec!["Usage information is currently unavailable.".to_string()]
    );
    assert_eq!(
        render_usage(&Err(UsageError::NotLoggedIn), 0),
        vec!["Usage information is currently unavailable.".to_string()]
    );
}

#[test]
fn api_key_accounts_are_not_probed() {
    assert!(!needs_probe(AuthMode::ApiKey));
    assert!(needs_probe(AuthMode::ChatGpt));
    let r = usage_from_fetch(None, AuthMode::ApiKey, Ok((None, None)));
    assert_eq!(r, Err(UsageError::UnsupportedForAuthMode));
}

#[test]
fn success_keeps_plan_and_windows() {
    let five = WindowUsage { used_minutes: 3, limit_minutes: 4, reset_at: None };
    let r = usage_from_fetch(Some("pro".to_string()), AuthMode::ChatGpt, Ok((Some(five), None)));
    assert_eq!(
        r,
        Ok(UsageInfo {
            plan: Some("pro".to_string()),
            five_hour: Some(five),
            weekly: None,
            source: UsageSource::ChatGptWeb,
        })
    );
}

#[test]
fn error_texts() {
    assert_eq!(UsageError::NotLoggedIn.message(), "not logged in");
    assert_eq!(
        UsageError::UnsupportedForAuthMode.message(),
        "API key usage endpoint not implemented"
    );
    assert_eq!(UsageError::Message("x".to_string()).message(), "x");
    assert_eq!(UsageSource::default(), UsageSource::Unknown);
}

#[test]
fn remaining_saturates_at_zero() {
    let w = WindowUsage { used_minutes: 120, limit_minutes: 60, reset_at: None };
    assert_eq!(remaining_minutes(&w), 0);
    let info = UsageInfo { plan: None, five_hour: Some(w), weekly: None, source: UsageSource::ChatGptWeb };
    let lines = render_usage(&Ok(info), 0);
    assert_eq!(
        lines,
        vec![
            "Plan: unknown".to_string(),
            "5-hour window: 120 / 60 min used, 0 min remaining, reset time unknown".to_string(),
            "Weekly window: unavailable".to_string(),
        ]
    );
}

#[test]
fn windows_render_with_reset_countdown() {
    let now = 1_000_000;
    let five = WindowUsage {
        used_minutes: 30,
        limit_minutes: 300,
        reset_at: Some(UtcInstant { secs: now + 3_661, nanos: 0 }),
    };
    let weekly = WindowUsage {
        used_minutes: 1,
        limit_minutes: 10,
        reset_at: Some(UtcInstant { secs: now - 5, nanos: 0 }),
    };
    let info = UsageInfo {
        plan: Some("plus".to_string()),
        five_hour: Some(five),
        weekly: Some(weekly),
        source: UsageSource::ChatGptWeb,
    };
    assert_eq!(
        render_usage(&Ok(info), now),
        vec![
            "Plan: plus".to_string(),
            "5-hour window: 30 / 300 min used, 270 min remaining, resets in 1 hour 1 minute".to_string(),
            "Weekly window: 1 / 10 min used, 9 min remaining, resets in less than a minute".to_string(),
        ]
    );
    assert_eq!(seconds_until(&UtcInstant { secs: i64::MAX, nanos: 0 }, i64::MIN), u64::MAX);
    assert_eq!(seconds_until(&UtcInstant { secs: 5, nanos: 0 }, 10), 0);
}

#[test]
fn report_for_guardrail_usage() {
    let usage = GuardrailUsage {
        five_hour: Some(GuardrailUsageWindow {
            used_seconds: Some(3_725),
            limit_seconds: None,
            resets_in_seconds: Some(3_661),
        }),
        weekly: Some(GuardrailUsageWindow {
            used_seconds: Some(200_000),
            limit_seconds: None,
            resets_in_seconds: None,
        }),
    };
    let lines = usage_report(&AuthStatus::ChatGpt(Some("plus".to_string()), Some(usage)));
    let expected: Vec<String> = vec![
        "Plan: plus",
        "ChatGPT guardrail usage:",
        "",
        "5-hour window:",
        "  \u{2022} Used: 62 min 5 sec (remaining: 237 min)",
        "  \u{2022} Limit: 300 min",
        "  \u{2022} Resets: in 1 hour 1 minute",
        "",
        "Weekly window:",
        "  \u{2022} Used: 55 h 33 min (remaining: 0 h)",
        "  \u{2022} Limit: 35 h",
        "  \u{2022} Resets: in unknown",
    ]
    .into_iter()
    .map(String::from)
    .collect();
    assert_eq!(lines, expected);
}

#[test]
fn report_for_other_states() {
    assert_eq!(
        usage_report(&AuthStatus::NotLoggedIn),
        vec![
            "Not logged in. Usage information requires authentication.".to_string(),
            "Run: codex login".to_string(),
        ]
    );
    assert_eq!(
        usage_report(&AuthStatus::ApiKey(None)),
        vec![
            "Plan: unknown".to_string(),
            "Usage information is not available for API key auth.".to_string(),
            "Visit your OpenAI dashboard for usage details.".to_string(),
        ]
    );
    let note = "Note: Guardrail usage and reset times will appear here when supported.".to_string();
    assert_eq!(
        usage_report(&AuthStatus::ChatGpt(None, None)),
        vec![
            "Plan: unknown".to_string(),
            "Usage information is currently unavailable.".to_string(),
            note.clone(),
        ]
    );
    assert_eq!(
        usage_report(&AuthStatus::ChatGpt(
            Some("pro".to_string()),
            Some(GuardrailUsage { five_hour: None, weekly: None })
        )),
        vec![
            "Plan: pro".to_string(),
            "ChatGPT guardrail usage:".to_string(),
            String::new(),
            "5-hour window: unavailable".to_string(),
            String::new(),
            "Weekly window: unavailable".to_string(),
            "Usage information is currently unavailable.".to_string(),
            note,
        ]
    );
    assert_eq!(
        usage_report(&AuthStatus::Unreadable),
        vec![
            "Unable to determine authentication status.".to_string(),
            "Usage information is currently unavailable.".to_string(),
        ]
    );
}

#[test]
fn report_marks_an_absent_window() {
    let window = GuardrailUsageWindow {
        used_seconds: Some(120),
        limit_seconds: Some(600),
        resets_in_seconds: Some(60),
    };
    let only_weekly = GuardrailUsage { five_hour: None, weekly: Some(window) };
    let expected: Vec<String> = vec![
        "Plan: plus",
        "ChatGPT guardrail usage:",
        "",
        "5-hour window: unavailable",
        "",
        "Weekly window:",
        "  \u{2022} Used: 0 h 2 min (remaining: 0 h)",
        "  \u{2022} Limit: 0 h",
        "  \u{2022} Resets: in 1 minute",
    ]
    .into_iter()
    .map(String::from)
    .collect();
    assert_eq!(
        usage_report(&AuthStatus::ChatGpt(Some("plus".to_string()), Some(only_weekly))),
        expected
    );
    let only_five = GuardrailUsage { five_hour: Some(window), weekly: None };
    let lines = usage_report(&AuthStatus::ChatGpt(None, Some(only_five)));
    assert_eq!(lines[0], "Plan: unknown");
    assert_eq!(lines[3], "5-hour window:");
    assert_eq!(lines.last().unwrap(), "Weekly window: unavailable");
    assert_eq!(lines.len(), 9);
}
