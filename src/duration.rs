//! Compact human phrases for a number of seconds ("2 days 3 hours").

use vstd::prelude::*;
use crate::text::{dec, lemma_dec_nonempty, push_decimal};

verus! {

pub const SECS_PER_DAY: u64 = 86_400;
pub const SECS_PER_HOUR: u64 = 3_600;
pub const SECS_PER_MINUTE: u64 = 60;

/// "`n` `unit`", with the unit in plural form unless `n` is exactly one.
pub open spec fn unit_phrase(n: nat, unit: Seq<char>) -> Seq<char> {
    dec(n) + " "@ + unit + (if n == 1 { Seq::empty() } else { seq!['s'] })
}

/// Adds `part` to a space-separated phrase.
pub open spec fn join_part(acc: Seq<char>, part: Seq<char>) -> Seq<char> {
    if acc.len() == 0 {
        part
    } else {
        acc + " "@ + part
    }
}

/// Whole days, hours within the day, minutes within the hour.
pub open spec fn days_of(secs: nat) -> nat {
    secs / 86_400
}

pub open spec fn hours_of(secs: nat) -> nat {
    (secs % 86_400) / 3_600
}

pub open spec fn minutes_of(secs: nat) -> nat {
    (secs % 3_600) / 60
}

/// The non-zero units, coarsest first, separated by spaces; minutes are
/// left out whenever there is at least one day.
pub open spec fn units_phrase(secs: nat) -> Seq<char> {
    let d = days_of(secs);
    let h = hours_of(secs);
    let m = minutes_of(secs);
    let a = if d > 0 { unit_phrase(d, "day"@) } else { Seq::empty() };
    let b = if h > 0 { join_part(a, unit_phrase(h, "hour"@)) } else { a };
    if m > 0 && d == 0 { join_part(b, unit_phrase(m, "minute"@)) } else { b }
}

/// The phrase for a duration of `secs` seconds; seconds beyond the last
/// whole minute are dropped.
pub open spec fn duration_phrase(secs: nat) -> Seq<char> {
    if days_of(secs) == 0 && hours_of(secs) == 0 && minutes_of(secs) == 0 {
        "less than a minute"@
    } else {
        units_phrase(secs)
    }
}

fn push_unit(acc: &mut String, n: u64, unit: &str)
    ensures
        final(acc)@ == join_part(old(acc)@, unit_phrase(n as nat, unit@)),
{
    let mut part = String::new();
    push_decimal(&mut part, n);
    part.append(" ");
    part.append(unit);
    if n != 1 {
        proof {
            reveal_strlit("s");
        }
        part.append("s");
    }
    if acc.as_str().is_empty() {
        *acc = part;
    } else {
        acc.append(" ");
        acc.append(part.as_str());
    }
    assert(final(acc)@ =~= join_part(old(acc)@, unit_phrase(n as nat, unit@)));
}

/// Formats a duration such as "3 hours 5 minutes": days, hours and minutes
/// that are not zero, coarsest first, minutes only below one day, and
/// "less than a minute" when none is shown.
pub fn format_reset_duration(total_secs: u64) -> (r: String)
    ensures
        r@ == duration_phrase(total_secs as nat),
{
    let days = total_secs / SECS_PER_DAY;
    let hours = (total_secs % SECS_PER_DAY) / SECS_PER_HOUR;
    let minutes = (total_secs % SECS_PER_HOUR) / SECS_PER_MINUTE;
    if days == 0 && hours == 0 && minutes == 0 {
        return String::from_str("less than a minute");
    }
    let mut out = String::new();
    if days > 0 {
        push_unit(&mut out, days, "day");
        assert(out@ =~= unit_phrase(days as nat, "day"@));
    }
    if hours > 0 {
        push_unit(&mut out, hours, "hour");
    }
    if minutes > 0 && days == 0 {
        push_unit(&mut out, minutes, "minute");
    }
    out
}

/// Every duration has a non-empty phrase, and zero seconds read
/// "less than a minute".
pub proof fn lemma_duration_phrase_nonempty(secs: nat)
    ensures
        duration_phrase(secs).len() > 0,
        duration_phrase(0) == "less than a minute"@,
{
    reveal_strlit("less than a minute");
    reveal_strlit(" ");
    let d = days_of(secs);
    let h = hours_of(secs);
    let m = minutes_of(secs);
    lemma_dec_nonempty(d);
    lemma_dec_nonempty(h);
    lemma_dec_nonempty(m);
}

} // verus!
