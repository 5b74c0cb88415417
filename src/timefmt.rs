//! Arrival times as shown on a notification: `YYYY-MM-DD hh:mm AM/PM`, UTC.
use vstd::prelude::*;

use chrono::{Datelike, Timelike};

use crate::text::{chars_of, padded, push_char, push_chars, push_padded};

verus! {

/// A UTC calendar date and time of day, to the minute.
#[derive(Debug, Clone, Copy, PartialEq, Eq, Structural)]
pub struct CivilTime {
    pub year: i32,
    pub month: u32,
    pub day: u32,
    pub hour: u32,
    pub minute: u32,
}

/// Seconds in a day.
pub const SECS_PER_DAY: i64 = 86400;

/// The proleptic Gregorian date `(year, month, day)` of the day `days` after
/// 1 January 1970.
pub uninterp spec fn utc_date_of(days: int) -> (int, int, int);

/// A timestamp read as a signed number of seconds, as a two's complement
/// conversion gives it.
pub open spec fn as_signed(t: u64) -> int {
    if t <= i64::MAX {
        t as int
    } else {
        t - 0x1_0000_0000_0000_0000int
    }
}

/// The day number, counted from 1 January of year 1 as day 1, of the first
/// day a date can have: 1 January of year -262143.
pub const FIRST_DAY_FROM_CE: i64 = -95746129;

/// The day number of the last day a date can have: 31 December of year
/// 262142.
pub const LAST_DAY_FROM_CE: i64 = 95745399;

/// The day number of 1 January 1970.
pub const EPOCH_DAY_FROM_CE: i64 = 719163;

/// Whether `secs` seconds after the epoch fall on a day that has a date.
pub open spec fn has_date(secs: int) -> bool {
    FIRST_DAY_FROM_CE <= secs / 86400 + EPOCH_DAY_FROM_CE <= LAST_DAY_FROM_CE
}

/// Whether `c` is the UTC date and time, to the minute, of `secs` seconds
/// after the epoch.
pub open spec fn civil_at(c: CivilTime, secs: int) -> bool {
    &&& c.hour == (secs % 86400) / 3600
    &&& c.minute == (secs % 3600) / 60
    &&& (c.year as int, c.month as int, c.day as int) == utc_date_of(secs / 86400)
}

impl CivilTime {
    /// The fields lie in their ranges.
    pub open spec fn wf(&self) -> bool {
        &&& 1 <= self.month <= 12
        &&& 1 <= self.day <= 31
        &&& self.hour < 24
        &&& self.minute < 60
    }
}

/// Relies on chrono's `DateTime::from_timestamp(secs, 0)`, which reads `secs`
/// as UTC: there is a result exactly when the day falls in years -262143 to
/// 262142; the time of day is `secs` modulo a day, the date depends on the
/// day number alone, and months and days lie in their ranges.
#[verifier::external_body]
fn utc_civil_time(secs: u64) -> (r: Option<CivilTime>)
    ensures
        r is Some == has_date(as_signed(secs)),
        r matches Some(c) ==> {
            &&& c.wf()
            &&& c.hour == (as_signed(secs) % 86400) / 3600
            &&& c.minute == (as_signed(secs) % 3600) / 60
            &&& (c.year as int, c.month as int, c.day as int) == utc_date_of(as_signed(secs) / 86400)
        },
{
    match chrono::DateTime::from_timestamp(secs as i64, 0) {
        Some(t) => Some(CivilTime {
            year: t.year(),
            month: t.month(),
            day: t.day(),
            hour: t.hour(),
            minute: t.minute(),
        }),
        None => None,
    }
}

/// The hour on a twelve-hour clock face.
pub open spec fn hour12(hour: u32) -> nat {
    if hour % 12 == 0 {
        12
    } else {
        (hour % 12) as nat
    }
}

/// A year in at least four digits; outside 0..=9999 with its sign.
pub open spec fn year_text(year: i32) -> Seq<char> {
    if 0 <= year <= 9999 {
        padded(year as nat, 4)
    } else if year > 9999 {
        seq!['+'] + padded(year as nat, 4)
    } else {
        seq!['-'] + padded((-year) as nat, 4)
    }
}

/// `YYYY-MM-DD hh:mm AM` or `... PM`.
pub open spec fn clock_text(c: CivilTime) -> Seq<char> {
    year_text(c.year) + seq!['-'] + padded(c.month as nat, 2) + seq!['-'] + padded(c.day as nat, 2)
        + seq![' '] + padded(hour12(c.hour), 2) + seq![':'] + padded(c.minute as nat, 2)
        + seq![' '] + (if c.hour >= 12 { seq!['P', 'M'] } else { seq!['A', 'M'] })
}

/// The text shown for a message time that cannot be read as a date.
pub open spec fn unknown_time_text() -> Seq<char> {
    seq!['n', 'o', 'w']
}

/// `year` in at least four digits, signed outside 0..=9999.
fn year_string(s: &mut String, year: i32)
    ensures
        final(s)@ == old(s)@ + year_text(year),
{
    if 0 <= year && year <= 9999 {
        push_padded(s, year as u64, 4);
    } else if year > 9999 {
        push_char(s, '+');
        push_padded(s, year as u64, 4);
        assert(final(s)@ == old(s)@ + (seq!['+'] + padded(year as nat, 4)));
    } else {
        push_char(s, '-');
        let magnitude: u64 = (0i64 - year as i64) as u64;
        push_padded(s, magnitude, 4);
        assert(final(s)@ == old(s)@ + (seq!['-'] + padded((-year) as nat, 4)));
    }
}

/// `c` as `YYYY-MM-DD hh:mm AM/PM`.
pub fn format_civil(c: &CivilTime) -> (r: String)
    requires
        c.wf(),
    ensures
        r@ == clock_text(*c),
{
    let mut r = String::new();
    year_string(&mut r, c.year);
    push_char(&mut r, '-');
    push_padded(&mut r, c.month as u64, 2);
    push_char(&mut r, '-');
    push_padded(&mut r, c.day as u64, 2);
    push_char(&mut r, ' ');
    let h = c.hour % 12;
    let h12: u32 = if h == 0 { 12 } else { h };
    push_padded(&mut r, h12 as u64, 2);
    push_char(&mut r, ':');
    push_padded(&mut r, c.minute as u64, 2);
    push_char(&mut r, ' ');
    if c.hour >= 12 {
        push_char(&mut r, 'P');
    } else {
        push_char(&mut r, 'A');
    }
    push_char(&mut r, 'M');
    proof {
        let tail = if c.hour >= 12 { seq!['P', 'M'] } else { seq!['A', 'M'] };
        assert(r@ =~= clock_text(*c));
    }
    r
}

/// The arrival time of a message for display: its UTC date and time, or
/// `now` where the timestamp has no date.
pub fn format_arrival(time: u64) -> (r: String)
    ensures
        has_date(as_signed(time)) ==> exists|c: CivilTime|
            c.wf() && civil_at(c, as_signed(time)) && r@ == clock_text(c),
        !has_date(as_signed(time)) ==> r@ == unknown_time_text(),
{
    match utc_civil_time(time) {
        Some(c) => format_civil(&c),
        None => {
            let mut r = String::new();
            push_chars(&mut r, chars_of("now").as_slice());
            proof {
                reveal_strlit("now");
            }
            r
        },
    }
}

} // verus!
