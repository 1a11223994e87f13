//! Spans of time in words.

use vstd::prelude::*;
use crate::text::{decimal, join_by, joined_by, leading, owned, push_decimal, views_of};

verus! {

/// Seconds in a year of 365 days.
pub const YEAR: u64 = 31_536_000;

/// Seconds in a month of 30 days.
pub const MONTH: u64 = 2_592_000;

/// Seconds in a day.
pub const DAY: u64 = 86_400;

/// Seconds in an hour.
pub const HOUR: u64 = 3_600;

/// Seconds in a minute.
pub const MINUTE: u64 = 60;

/// `count` of `unit`, as in "1 day" and "3 days".
pub open spec fn counted(count: nat, unit: Seq<char>) -> Seq<char> {
    decimal(count) + " "@ + unit + if count > 1 {
        "s"@
    } else {
        Seq::empty()
    }
}

/// `parts` with `counted(count, unit)` behind it, where `count` is not zero.
pub open spec fn with_unit(parts: Seq<Seq<char>>, count: nat, unit: Seq<char>) -> Seq<Seq<char>> {
    if count > 0 {
        parts.push(counted(count, unit))
    } else {
        parts
    }
}

/// `parts` with `counted(count, unit)` behind it, where `count` is not zero
/// and `parts` holds fewer than two.
pub open spec fn with_small_unit(parts: Seq<Seq<char>>, count: nat, unit: Seq<char>) -> Seq<
    Seq<char>,
> {
    if parts.len() < 2 {
        with_unit(parts, count, unit)
    } else {
        parts
    }
}

/// The units of a span of `seconds`, largest first, each with its count:
/// years, months, days and hours where there are any, then minutes and
/// seconds as long as fewer than two units stand before them.
pub open spec fn duration_parts(seconds: nat) -> Seq<Seq<char>> {
    let years = seconds / (YEAR as nat);
    let below_year = seconds % (YEAR as nat);
    let months = below_year / (MONTH as nat);
    let below_month = below_year % (MONTH as nat);
    let days = below_month / (DAY as nat);
    let below_day = below_month % (DAY as nat);
    let hours = below_day / (HOUR as nat);
    let below_hour = below_day % (HOUR as nat);
    let minutes = below_hour / (MINUTE as nat);
    let below_minute = below_hour % (MINUTE as nat);
    with_small_unit(
        with_small_unit(
            with_unit(
                with_unit(
                    with_unit(with_unit(Seq::empty(), years, "year"@), months, "month"@),
                    days,
                    "day"@,
                ),
                hours,
                "hour"@,
            ),
            minutes,
            "minute"@,
        ),
        below_minute,
        "second"@,
    )
}

/// A span of `seconds` in words, cut to its `index` largest units. A span of
/// nothing is "0 seconds"; a negative span has no words.
pub open spec fn duration_text(seconds: int, index: nat) -> Seq<char> {
    if seconds == 0 {
        "0 seconds"@
    } else if seconds < 0 {
        Seq::empty()
    } else {
        joined_by(leading(duration_parts(seconds as nat), index), " and "@)
    }
}

fn push_unit(parts: &mut Vec<String>, count: u64, unit: &str)
    ensures
        views_of(final(parts)@) == with_unit(views_of(old(parts)@), count as nat, unit@),
{
    if count > 0 {
        let mut part = String::new();
        push_decimal(&mut part, count as u128);
        part.append(" ");
        part.append(unit);
        if count > 1 {
            part.append("s");
        }
        parts.push(part);
    }
}

fn push_small_unit(parts: &mut Vec<String>, count: u64, unit: &str)
    ensures
        views_of(final(parts)@) == with_small_unit(views_of(old(parts)@), count as nat, unit@),
{
    if parts.len() < 2 {
        push_unit(parts, count, unit);
    }
}

/// A span of `seconds` in words, cut to its `index` largest units:
/// "2 hours and 5 minutes" for 7500 seconds and an `index` of 2.
pub fn convert_seconds(seconds: i64, index: usize) -> (r: String)
    ensures
        r@ == duration_text(seconds as int, index as nat),
{
    if seconds == 0 {
        return owned("0 seconds");
    }
    if seconds < 0 {
        return String::new();
    }
    let total: u64 = seconds as u64;
    let years = total / YEAR;
    let below_year = total % YEAR;
    let months = below_year / MONTH;
    let below_month = below_year % MONTH;
    let days = below_month / DAY;
    let below_day = below_month % DAY;
    let hours = below_day / HOUR;
    let below_hour = below_day % HOUR;
    let minutes = below_hour / MINUTE;
    let below_minute = below_hour % MINUTE;
    let mut parts: Vec<String> = Vec::new();
    assert(views_of(parts@) =~= Seq::<Seq<char>>::empty());
    push_unit(&mut parts, years, "year");
    push_unit(&mut parts, months, "month");
    push_unit(&mut parts, days, "day");
    push_unit(&mut parts, hours, "hour");
    push_small_unit(&mut parts, minutes, "minute");
    push_small_unit(&mut parts, below_minute, "second");
    join_by(&parts, index, " and ")
}

} // verus!
