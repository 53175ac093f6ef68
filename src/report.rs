//! The text of the `usage` command, from the sign-in state and the
//! guardrails report of a web-session account.

use vstd::prelude::*;
use crate::duration::{duration_phrase, format_reset_duration};
use crate::guardrails::{GuardrailUsage, GuardrailUsageWindow};
use crate::present::{lines_view, plan_name, saturating_diff, unavailable_line};
use crate::text::{dec, push_decimal};

verus! {

/// Length of the five-hour window, assumed when the report gives no limit.
pub const FIVE_HOUR_SECS: u64 = 18_000;

/// Length of the weekly allowance, assumed when the report gives no limit.
pub const WEEKLY_SECS: u64 = 126_000;

/// What the command knows when it renders.
#[derive(Debug, Clone, PartialEq, Eq)]
pub enum AuthStatus {
    /// No credentials are stored.
    NotLoggedIn,
    /// The stored credentials could not be read.
    Unreadable,
    /// An API-key account with its plan label.
    ApiKey(Option<String>),
    /// A web-session account with its plan label and, when the probe
    /// answered, its guardrails report.
    ChatGpt(Option<String>, Option<GuardrailUsage>),
}

pub open spec fn or_default(v: Option<u64>, d: u64) -> u64 {
    match v {
        Some(x) => x,
        None => d,
    }
}

pub open spec fn reset_phrase(resets_in: Option<u64>) -> Seq<char> {
    match resets_in {
        Some(s) => duration_phrase(s as nat),
        None => "unknown"@,
    }
}

pub open spec fn note_line() -> Seq<char> {
    "Note: Guardrail usage and reset times will appear here when supported."@
}

/// The five-hour block: minutes and seconds, then a blank line.
pub open spec fn five_hour_lines(w: GuardrailUsageWindow) -> Seq<Seq<char>> {
    let used = or_default(w.used_seconds, 0) as nat;
    let limit = or_default(w.limit_seconds, FIVE_HOUR_SECS) as nat;
    let rem = saturating_diff(limit as int, used as int);
    seq![
        "5-hour window:"@,
        "  \u{2022} Used: "@ + dec(used / 60) + " min "@ + dec(used % 60) + " sec (remaining: "@ + dec(
            rem / 60,
        ) + " min)"@,
        "  \u{2022} Limit: "@ + dec(limit / 60) + " min"@,
        "  \u{2022} Resets: in "@ + reset_phrase(w.resets_in_seconds),
        Seq::empty(),
    ]
}

/// The weekly block: hours and minutes.
pub open spec fn weekly_lines(w: GuardrailUsageWindow) -> Seq<Seq<char>> {
    let used = or_default(w.used_seconds, 0) as nat;
    let limit = or_default(w.limit_seconds, WEEKLY_SECS) as nat;
    let rem = saturating_diff(limit as int, used as int);
    seq![
        "Weekly window:"@,
        "  \u{2022} Used: "@ + dec(used / 3600) + " h "@ + dec((used % 3600) / 60) + " min (remaining: "@
            + dec(rem / 3600) + " h)"@,
        "  \u{2022} Limit: "@ + dec(limit / 3600) + " h"@,
        "  \u{2022} Resets: in "@ + reset_phrase(w.resets_in_seconds),
    ]
}

/// A window's block, or an explicit "unavailable" line when it is absent.
pub open spec fn opt_block(w: Option<GuardrailUsageWindow>, weekly: bool) -> Seq<Seq<char>> {
    match w {
        Some(w) => if weekly {
            weekly_lines(w)
        } else {
            five_hour_lines(w)
        },
        None => if weekly {
            seq!["Weekly window: unavailable"@]
        } else {
            seq!["5-hour window: unavailable"@, Seq::empty()]
        },
    }
}

/// The lines of the command's output.
pub open spec fn report_lines(status: AuthStatus) -> Seq<Seq<char>> {
    match status {
        AuthStatus::NotLoggedIn => seq![
            "Not logged in. Usage information requires authentication."@,
            "Run: codex login"@,
        ],
        AuthStatus::Unreadable => seq![
            "Unable to determine authentication status."@,
            unavailable_line(),
        ],
        AuthStatus::ApiKey(plan) => seq![
            "Plan: "@ + plan_name(plan),
            "Usage information is not available for API key auth."@,
            "Visit your OpenAI dashboard for usage details."@,
        ],
        AuthStatus::ChatGpt(plan, None) => seq![
            "Plan: "@ + plan_name(plan),
            unavailable_line(),
            note_line(),
        ],
        AuthStatus::ChatGpt(plan, Some(u)) => seq![
            "Plan: "@ + plan_name(plan),
            "ChatGPT guardrail usage:"@,
            Seq::empty(),
        ] + opt_block(u.five_hour, false) + opt_block(u.weekly, true) + (if u.five_hour is None
            && u.weekly is None {
            seq![unavailable_line(), note_line()]
        } else {
            Seq::empty()
        }),
    }
}

fn reset_string(resets_in: Option<u64>) -> (r: String)
    ensures
        r@ == reset_phrase(resets_in),
{
    match resets_in {
        Some(s) => format_reset_duration(s),
        None => String::from_str("unknown"),
    }
}

fn plan_line(plan: &Option<String>) -> (r: String)
    ensures
        r@ == "Plan: "@ + plan_name(*plan),
{
    let mut s = String::from_str("Plan: ");
    match plan {
        Some(p) => s.append(p.as_str()),
        None => s.append("unknown"),
    }
    s
}

fn push_five_hour(lines: &mut Vec<String>, w: &GuardrailUsageWindow)
    ensures
        lines_view(final(lines)@) == lines_view(old(lines)@) + five_hour_lines(*w),
{
    let used = match w.used_seconds {
        Some(x) => x,
        None => 0,
    };
    let limit = match w.limit_seconds {
        Some(x) => x,
        None => FIVE_HOUR_SECS,
    };
    let rem = limit.saturating_sub(used);
    lines.push(String::from_str("5-hour window:"));
    let mut s = String::from_str("  \u{2022} Used: ");
    push_decimal(&mut s, used / 60);
    s.append(" min ");
    push_decimal(&mut s, used % 60);
    s.append(" sec (remaining: ");
    push_decimal(&mut s, rem / 60);
    s.append(" min)");
    lines.push(s);
    let mut s = String::from_str("  \u{2022} Limit: ");
    push_decimal(&mut s, limit / 60);
    s.append(" min");
    lines.push(s);
    let mut s = String::from_str("  \u{2022} Resets: in ");
    s.append(reset_string(w.resets_in_seconds).as_str());
    lines.push(s);
    lines.push(String::new());
    assert(lines_view(lines@) =~= lines_view(old(lines)@) + five_hour_lines(*w));
}

fn push_weekly(lines: &mut Vec<String>, w: &GuardrailUsageWindow)
    ensures
        lines_view(final(lines)@) == lines_view(old(lines)@) + weekly_lines(*w),
{
    let used = match w.used_seconds {
        Some(x) => x,
        None => 0,
    };
    let limit = match w.limit_seconds {
        Some(x) => x,
        None => WEEKLY_SECS,
    };
    let rem = limit.saturating_sub(used);
    lines.push(String::from_str("Weekly window:"));
    let mut s = String::from_str("  \u{2022} Used: ");
    push_decimal(&mut s, used / 3600);
    s.append(" h ");
    push_decimal(&mut s, (used % 3600) / 60);
    s.append(" min (remaining: ");
    push_decimal(&mut s, rem / 3600);
    s.append(" h)");
    lines.push(s);
    let mut s = String::from_str("  \u{2022} Limit: ");
    push_decimal(&mut s, limit / 3600);
    s.append(" h");
    lines.push(s);
    let mut s = String::from_str("  \u{2022} Resets: in ");
    s.append(reset_string(w.resets_in_seconds).as_str());
    lines.push(s);
    assert(lines_view(lines@) =~= lines_view(old(lines)@) + weekly_lines(*w));
}

/// The lines that the `usage` command prints for `status`.
pub fn usage_report(status: &AuthStatus) -> (r: Vec<String>)
    ensures
        lines_view(r@) == report_lines(*status),
{
    let mut lines: Vec<String> = Vec::new();
    match status {
        AuthStatus::NotLoggedIn => {
            lines.push(
                String::from_str("Not logged in. Usage information requires authentication."),
            );
            lines.push(String::from_str("Run: codex login"));
        },
        AuthStatus::Unreadable => {
            lines.push(String::from_str("Unable to determine authentication status."));
            lines.push(String::from_str("Usage information is currently unavailable."));
        },
        AuthStatus::ApiKey(plan) => {
            lines.push(plan_line(plan));
            lines.push(String::from_str("Usage information is not available for API key auth."));
            lines.push(String::from_str("Visit your OpenAI dashboard for usage details."));
        },
        AuthStatus::ChatGpt(plan, None) => {
            lines.push(plan_line(plan));
            lines.push(String::from_str("Usage information is currently unavailable."));
            lines.push(
                String::from_str(
                    "Note: Guardrail usage and reset times will appear here when supported.",
                ),
            );
        },
        AuthStatus::ChatGpt(plan, Some(u)) => {
            lines.push(plan_line(plan));
            lines.push(String::from_str("ChatGPT guardrail usage:"));
            lines.push(String::new());
            assert(lines_view(lines@) =~= seq!["Plan: "@ + plan_name(*plan), "ChatGPT guardrail usage:"@, Seq::empty()]);
            let ghost head = lines_view(lines@);
            match &u.five_hour {
                Some(w) => push_five_hour(&mut lines, w),
                None => {
                    lines.push(String::from_str("5-hour window: unavailable"));
                    lines.push(String::new());
                },
            }
            assert(lines_view(lines@) =~= head + opt_block(u.five_hour, false));
            let ghost mid = lines_view(lines@);
            match &u.weekly {
                Some(w) => push_weekly(&mut lines, w),
                None => {
                    lines.push(String::from_str("Weekly window: unavailable"));
                },
            }
            assert(lines_view(lines@) =~= mid + opt_block(u.weekly, true));
            let ghost tail = lines_view(lines@);
            if u.five_hour.is_none() && u.weekly.is_none() {
                lines.push(String::from_str("Usage information is currently unavailable."));
                lines.push(
                    String::from_str(
                        "Note: Guardrail usage and reset times will appear here when supported.",
                    ),
                );
            }
            assert(lines_view(lines@) =~= tail + (if u.five_hour is None && u.weekly is None {
                seq![unavailable_line(), note_line()]
            } else {
                Seq::<Seq<char>>::empty()
            }));
        },
    }
    assert(lines_view(lines@) =~= report_lines(*status));
    lines
}

/// Whenever a plan is known to the command, or unknown, its line comes first.
pub proof fn lemma_plan_first(status: AuthStatus)
    requires
        status is ApiKey || status is ChatGpt,
    ensures
        report_lines(status).len() > 0,
        report_lines(status)[0] == "Plan: "@ + plan_name(
            match status {
                AuthStatus::ApiKey(p) => p,
                AuthStatus::ChatGpt(p, _) => p,
                _ => None,
            },
        ),
{
}

/// A window that the guardrails report leaves out still gets its own line,
/// marked unavailable.
pub proof fn lemma_absent_window_shown(plan: Option<String>, u: GuardrailUsage)
    ensures
        u.five_hour is None ==> report_lines(AuthStatus::ChatGpt(plan, Some(u))).contains(
            "5-hour window: unavailable"@,
        ),
        u.weekly is None ==> report_lines(AuthStatus::ChatGpt(plan, Some(u))).contains(
            "Weekly window: unavailable"@,
        ),
{
    let lines = report_lines(AuthStatus::ChatGpt(plan, Some(u)));
    let a = opt_block(u.five_hour, false);
    if u.five_hour is None {
        assert(lines[3] == "5-hour window: unavailable"@);
    }
    if u.weekly is None {
        assert(lines[3 + a.len() as int] == "Weekly window: unavailable"@);
    }
}

} // verus!
