//! Renders a query's result as terminal lines. Any failure becomes one
//! generic line: error details are for logs, never for the user.

use vstd::prelude::*;
use crate::duration::{duration_phrase, format_reset_duration};
use crate::text::{dec, push_decimal};
use crate::usage::{UsageError, UsageInfo, UtcInstant, WindowUsage};

verus! {

pub open spec fn lines_view(v: Seq<String>) -> Seq<Seq<char>> {
    v.map_values(|s: String| s@)
}

pub open spec fn unavailable_line() -> Seq<char> {
    "Usage information is currently unavailable."@
}

/// The plan label, or "unknown".
pub open spec fn plan_name(plan: Option<String>) -> Seq<char> {
    match plan {
        Some(p) => p@,
        None => "unknown"@,
    }
}

/// `a - b`, or zero when `b` exceeds `a`.
pub open spec fn saturating_diff(a: int, b: int) -> nat {
    if b <= a {
        (a - b) as nat
    } else {
        0
    }
}

/// Minutes left in a window; never negative.
pub open spec fn remaining(w: WindowUsage) -> nat {
    saturating_diff(w.limit_minutes as int, w.used_minutes as int)
}

/// Seconds from `now` until `reset`; zero once it has passed.
pub open spec fn countdown(reset: UtcInstant, now: i64) -> nat {
    saturating_diff(reset.secs as int, now as int)
}

pub open spec fn reset_text(reset: Option<UtcInstant>, now: i64) -> Seq<char> {
    match reset {
        Some(t) => "resets in "@ + duration_phrase(countdown(t, now)),
        None => "reset time unknown"@,
    }
}

/// The line of one window: "used / limit", what remains, and the reset;
/// an absent window is marked unavailable.
pub open spec fn window_line(label: Seq<char>, w: Option<WindowUsage>, now: i64) -> Seq<char> {
    match w {
        None => label + ": unavailable"@,
        Some(w) => label + ": "@ + dec(w.used_minutes as nat) + " / "@ + dec(w.limit_minutes as nat)
            + " min used, "@ + dec(remaining(w)) + " min remaining, "@ + reset_text(w.reset_at, now),
    }
}

/// The lines for a query's result, `now` being the current Unix time.
pub open spec fn usage_lines(result: Result<UsageInfo, UsageError>, now: i64) -> Seq<Seq<char>> {
    match result {
        Ok(info) => seq![
            "Plan: "@ + plan_name(info.plan),
            window_line("5-hour window"@, info.five_hour, now),
            window_line("Weekly window"@, info.weekly, now),
        ],
        Err(_) => seq![unavailable_line()],
    }
}

/// Minutes left in a window, saturating at zero.
pub fn remaining_minutes(w: &WindowUsage) -> (r: u32)
    ensures
        r == remaining(*w),
{
    w.limit_minutes.saturating_sub(w.used_minutes)
}

/// Seconds until `reset`, zero once it has passed.
pub fn seconds_until(reset: &UtcInstant, now_secs: i64) -> (r: u64)
    ensures
        r == countdown(*reset, now_secs),
{
    if reset.secs > now_secs {
        (reset.secs as i128 - now_secs as i128) as u64
    } else {
        0
    }
}

fn render_window(label: &str, w: &Option<WindowUsage>, now_secs: i64) -> (r: String)
    ensures
        r@ == window_line(label@, *w, now_secs),
{
    let mut s = String::from_str(label);
    match w {
        None => {
            s.append(": unavailable");
        },
        Some(w) => {
            s.append(": ");
            push_decimal(&mut s, w.used_minutes as u64);
            s.append(" / ");
            push_decimal(&mut s, w.limit_minutes as u64);
            s.append(" min used, ");
            push_decimal(&mut s, remaining_minutes(w) as u64);
            s.append(" min remaining, ");
            match &w.reset_at {
                Some(t) => {
                    s.append("resets in ");
                    let phrase = format_reset_duration(seconds_until(t, now_secs));
                    s.append(phrase.as_str());
                },
                None => {
                    s.append("reset time unknown");
                },
            }
        },
    }
    assert(s@ =~= window_line(label@, *w, now_secs));
    s
}

/// Renders a query's result: the plan first, then one line per window.
pub fn render_usage(result: &Result<UsageInfo, UsageError>, now_secs: i64) -> (r: Vec<String>)
    ensures
        lines_view(r@) == usage_lines(*result, now_secs),
{
    let mut lines: Vec<String> = Vec::new();
    match result {
        Ok(info) => {
            let mut plan = String::from_str("Plan: ");
            match &info.plan {
                Some(p) => plan.append(p.as_str()),
                None => plan.append("unknown"),
            }
            lines.push(plan);
            lines.push(render_window("5-hour window", &info.five_hour, now_secs));
            lines.push(render_window("Weekly window", &info.weekly, now_secs));
        },
        Err(_) => {
            lines.push(String::from_str("Usage information is currently unavailable."));
        },
    }
    assert(lines_view(lines@) =~= usage_lines(*result, now_secs));
    lines
}

/// Every failure, whatever its kind or text, renders as the one generic line.
pub proof fn lemma_failure_is_generic(e: UsageError, now: i64)
    ensures
        usage_lines(Err(e), now) == seq![unavailable_line()],
{
}

/// Remaining quota saturates: a window used beyond its limit shows zero
/// minutes remaining, never a negative number.
pub proof fn lemma_remaining_saturates(label: Seq<char>, w: WindowUsage, now: i64)
    requires
        w.used_minutes >= w.limit_minutes,
    ensures
        remaining(w) == 0,
        window_line(label, Some(w), now) == label + ": "@ + dec(w.used_minutes as nat) + " / "@
            + dec(w.limit_minutes as nat) + " min used, "@ + seq!['0'] + " min remaining, "@
            + reset_text(w.reset_at, now),
{
}

} // verus!
