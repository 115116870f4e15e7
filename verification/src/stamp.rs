//! Local wall-clock timestamps as plain field values, with fixed-format
//! rendering. Conversion from the system clock or from an epoch second
//! count goes through chrono, which alone knows the machine's time zone;
//! everything downstream of those two calls works on the plain fields and
//! is verified.

use vstd::prelude::*;
use crate::render::{pad2_chars, pad4_chars, append_pad2, append_pad4};
use chrono::{Datelike, Timelike};

verus! {

/// A local calendar timestamp, second precision. Field ranges are the
/// usual calendar ones; the year is kept to four digits so that every
/// rendering is fixed-width.
#[derive(Clone, Copy, PartialEq, Eq, Structural, Debug)]
pub struct LocalStamp {
    pub year: u64,
    pub month: u64,
    pub day: u64,
    pub hour: u64,
    pub minute: u64,
    pub second: u64,
}

/// `v` forced into `[lo, hi]`.
pub open spec fn clamp_spec(v: int, lo: int, hi: int) -> int {
    if v < lo {
        lo
    } else if v > hi {
        hi
    } else {
        v
    }
}

impl LocalStamp {
    /// The calendar field ranges every constructed stamp satisfies.
    pub open spec fn wf(self) -> bool {
        self.year <= 9999 && 1 <= self.month <= 12 && 1 <= self.day <= 31 && self.hour <= 23
            && self.minute <= 59 && self.second <= 59
    }

    /// Builds a stamp from raw calendar parts, forcing each field into its
    /// calendar range.
    pub fn from_parts(year: i64, month: u64, day: u64, hour: u64, minute: u64, second: u64) -> (st:
        LocalStamp)
        ensures
            st.wf(),
            st.year == clamp_spec(year as int, 0, 9999),
            st.month == clamp_spec(month as int, 1, 12),
            st.day == clamp_spec(day as int, 1, 31),
            st.hour == clamp_spec(hour as int, 0, 23),
            st.minute == clamp_spec(minute as int, 0, 59),
            st.second == clamp_spec(second as int, 0, 59),
    {
        LocalStamp {
            year: clamp_i64(year, 0, 9999),
            month: clamp_u64(month, 1, 12),
            day: clamp_u64(day, 1, 31),
            hour: clamp_u64(hour, 0, 23),
            minute: clamp_u64(minute, 0, 59),
            second: clamp_u64(second, 0, 59),
        }
    }

    /// The display rendering, `YYYY-MM-DD HH:MM`.
    pub fn render_minute(&self) -> (r: String)
        requires
            self.wf(),
        ensures
            r@ == stamp_minute_chars(*self),
    {
        proof {
            reveal_strlit("-");
            reveal_strlit(" ");
            reveal_strlit(":");
        }
        let mut s = String::new();
        append_pad4(&mut s, self.year);
        s.append("-");
        append_pad2(&mut s, self.month);
        s.append("-");
        append_pad2(&mut s, self.day);
        s.append(" ");
        append_pad2(&mut s, self.hour);
        s.append(":");
        append_pad2(&mut s, self.minute);
        assert(s@ =~= stamp_minute_chars(*self));
        s
    }

    /// The filename rendering, `YYYY-MM-DD-HH-MM-SS`.
    pub fn render_compact(&self) -> (r: String)
        requires
            self.wf(),
        ensures
            r@ == stamp_compact_chars(*self),
    {
        proof {
            reveal_strlit("-");
        }
        let mut s = String::new();
        append_pad4(&mut s, self.year);
        s.append("-");
        append_pad2(&mut s, self.month);
        s.append("-");
        append_pad2(&mut s, self.day);
        s.append("-");
        append_pad2(&mut s, self.hour);
        s.append("-");
        append_pad2(&mut s, self.minute);
        s.append("-");
        append_pad2(&mut s, self.second);
        assert(s@ =~= stamp_compact_chars(*self));
        s
    }
}

/// The characters of the display rendering, `YYYY-MM-DD HH:MM`.
pub open spec fn stamp_minute_chars(st: LocalStamp) -> Seq<char> {
    pad4_chars(st.year as nat) + seq!['-'] + pad2_chars(st.month as nat) + seq!['-'] + pad2_chars(
        st.day as nat,
    ) + seq![' '] + pad2_chars(st.hour as nat) + seq![':'] + pad2_chars(st.minute as nat)
}

/// The characters of the filename rendering, `YYYY-MM-DD-HH-MM-SS`.
pub open spec fn stamp_compact_chars(st: LocalStamp) -> Seq<char> {
    pad4_chars(st.year as nat) + seq!['-'] + pad2_chars(st.month as nat) + seq!['-'] + pad2_chars(
        st.day as nat,
    ) + seq!['-'] + pad2_chars(st.hour as nat) + seq!['-'] + pad2_chars(st.minute as nat)
        + seq!['-'] + pad2_chars(st.second as nat)
}

/// `v` forced into `[lo, hi]`.
fn clamp_u64(v: u64, lo: u64, hi: u64) -> (r: u64)
    requires
        lo <= hi,
    ensures
        r == clamp_spec(v as int, lo as int, hi as int),
{
    if v < lo {
        lo
    } else if v > hi {
        hi
    } else {
        v
    }
}

/// `v` forced into `[lo, hi]`, as an unsigned value.
fn clamp_i64(v: i64, lo: i64, hi: i64) -> (r: u64)
    requires
        0 <= lo <= hi,
    ensures
        r == clamp_spec(v as int, lo as int, hi as int),
{
    if v < lo {
        lo as u64
    } else if v > hi {
        hi as u64
    } else {
        v as u64
    }
}

/// The newest epoch second count accepted by the chrono conversion: far
/// beyond any real file time, yet well inside chrono's calendar range.
pub const MAX_UNIX_SECS: i64 = 4_000_000_000_000;

/// Relies on chrono's `Local::now` and the documented `Datelike` /
/// `Timelike` accessor ranges: month 1..=12, day 1..=31, hour 0..=23,
/// minute 0..=59, second 0..=59. The year depends on the system clock and
/// is not constrained here.
#[verifier::external_body]
fn now_parts() -> (r: (i64, u64, u64, u64, u64, u64))
    ensures
        1 <= r.1 <= 12,
        1 <= r.2 <= 31,
        r.3 <= 23,
        r.4 <= 59,
        r.5 <= 59,
{
    let now = chrono::Local::now();
    (
        now.year() as i64,
        now.month() as u64,
        now.day() as u64,
        now.hour() as u64,
        now.minute() as u64,
        now.second() as u64,
    )
}

/// Relies on chrono's `DateTime::from_timestamp`, which is `Some` for any
/// second count within its calendar range (about 262,000 years, far above
/// the bound required here), on `with_timezone` into `Local`, and on the
/// documented `Datelike` / `Timelike` accessor ranges.
#[verifier::external_body]
fn local_parts_of_unix(secs: i64) -> (r: (i64, u64, u64, u64, u64, u64))
    requires
        0 <= secs <= MAX_UNIX_SECS,
    ensures
        1 <= r.1 <= 12,
        1 <= r.2 <= 31,
        r.3 <= 23,
        r.4 <= 59,
        r.5 <= 59,
{
    let dt = chrono::DateTime::from_timestamp(secs, 0).unwrap().with_timezone(&chrono::Local);
    (
        dt.year() as i64,
        dt.month() as u64,
        dt.day() as u64,
        dt.hour() as u64,
        dt.minute() as u64,
        dt.second() as u64,
    )
}

/// The current local wall-clock time.
pub fn local_now() -> (st: LocalStamp)
    ensures
        st.wf(),
{
    let p = now_parts();
    LocalStamp::from_parts(p.0, p.1, p.2, p.3, p.4, p.5)
}

/// The local calendar time of an epoch second count; counts outside the
/// accepted window are clamped to it first.
pub fn stamp_of_unix(secs: i64) -> (st: LocalStamp)
    ensures
        st.wf(),
{
    let clamped: i64 = if secs < 0 {
        0
    } else if secs > MAX_UNIX_SECS {
        MAX_UNIX_SECS
    } else {
        secs
    };
    let p = local_parts_of_unix(clamped);
    LocalStamp::from_parts(p.0, p.1, p.2, p.3, p.4, p.5)
}

} // verus!
