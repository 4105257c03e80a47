use vstd::prelude::*;

use chrono::{Datelike, Timelike};

use crate::numbers::u64_dec_str;
use crate::text::chars_to_string;

verus! {

/// A calendar date, held as plain year, month and day numbers.
#[derive(Clone, Copy, Debug, PartialEq, Eq, Structural)]
pub struct ZBDate {
    pub year: i32,
    pub month: u32,
    pub day: u32,
}

impl ZBDate {
    /// The ranges that a formatted date must lie in.
    pub open spec fn wf(&self) -> bool {
        &&& 0 <= self.year <= 9999
        &&& 1 <= self.month <= 12
        &&& 1 <= self.day <= 31
    }
}

/// A wall-clock timestamp with millisecond precision, held as plain
/// numbers.
#[derive(Clone, Copy, Debug, PartialEq, Eq, Structural)]
pub struct ZBDateTime {
    pub date: ZBDate,
    pub hour: u32,
    pub minute: u32,
    pub second: u32,
    pub millisecond: u32,
}

/// An offset-aware timestamp: its instant in UTC, and the offset the wire
/// carried.
#[derive(Clone, Copy, Debug, PartialEq, Eq, Structural)]
pub struct ZBTimestamp {
    pub utc: ZBDateTime,
    pub offset_seconds: i32,
}

/// What chrono's NaiveDate parser makes of a text under the `%m/%d/%Y`
/// pattern: the date, or nothing when the text does not match.
pub uninterp spec fn mdy_date_of(s: Seq<char>) -> Option<ZBDate>;

/// Relies on chrono::NaiveDate::parse_from_str with the fixed pattern
/// `%m/%d/%Y`: the outcome depends on the text alone.
#[verifier::external_body]
pub fn parse_mdy_date(s: &str) -> (r: Option<ZBDate>)
    ensures
        r == mdy_date_of(s@),
{
    chrono::NaiveDate::parse_from_str(s, "%m/%d/%Y").ok().map(
        |d| ZBDate { year: d.year(), month: d.month(), day: d.day() },
    )
}

/// What chrono's NaiveDateTime parser makes of a text under the
/// `%Y-%m-%d %H:%M:%S.%3f` pattern.
pub uninterp spec fn datetime_text_of(s: Seq<char>) -> Option<ZBDateTime>;

/// Relies on chrono::NaiveDateTime::parse_from_str with the fixed pattern
/// `%Y-%m-%d %H:%M:%S.%3f`: the outcome depends on the text alone.
#[verifier::external_body]
pub fn parse_datetime_text(s: &str) -> (r: Option<ZBDateTime>)
    ensures
        r == datetime_text_of(s@),
{
    chrono::NaiveDateTime::parse_from_str(s, "%Y-%m-%d %H:%M:%S.%3f").ok().map(
        |t| ZBDateTime {
            date: ZBDate { year: t.year(), month: t.month(), day: t.day() },
            hour: t.hour(),
            minute: t.minute(),
            second: t.second(),
            millisecond: t.and_utc().timestamp_subsec_millis(),
        },
    )
}

/// What chrono's RFC 3339 parser makes of a text: the instant in UTC and
/// the offset, or nothing when the text does not conform.
pub uninterp spec fn rfc3339_of(s: Seq<char>) -> Option<ZBTimestamp>;

/// Relies on chrono::DateTime::parse_from_rfc3339: the outcome depends on
/// the text alone.
#[verifier::external_body]
pub fn parse_rfc3339(s: &str) -> (r: Option<ZBTimestamp>)
    ensures
        r == rfc3339_of(s@),
{
    chrono::DateTime::parse_from_rfc3339(s).ok().map(
        |dt| {
            let t = dt.naive_utc();
            ZBTimestamp {
                utc: ZBDateTime {
                    date: ZBDate { year: t.year(), month: t.month(), day: t.day() },
                    hour: t.hour(),
                    minute: t.minute(),
                    second: t.second(),
                    millisecond: t.and_utc().timestamp_subsec_millis(),
                },
                offset_seconds: dt.offset().local_minus_utc(),
            }
        },
    )
}

/// Relies on chrono::Utc::now: whatever instant comes back, its date lies
/// in the calendar and formatting ranges.
#[verifier::external_body]
pub fn today_utc() -> (r: ZBDate)
    ensures
        r.wf(),
{
    let d = chrono::Utc::now().naive_local().date();
    let year = if d.year() < 0 {
        0
    } else if d.year() > 9999 {
        9999
    } else {
        d.year()
    };
    ZBDate { year, month: d.month(), day: d.day() }
}

/// A digit string padded on the left with zeroes up to the given width.
pub open spec fn zero_pad(s: Seq<char>, w: int) -> Seq<char> {
    if s.len() >= w {
        s
    } else {
        Seq::new((w - s.len()) as nat, |i: int| '0') + s
    }
}

/// A date in the `YYYY-MM-DD` form that the usage endpoint takes.
pub open spec fn iso_date_of(d: ZBDate) -> Seq<char> {
    zero_pad(u64_dec_str(d.year as int), 4) + seq!['-'] + zero_pad(u64_dec_str(d.month as int), 2)
        + seq!['-'] + zero_pad(u64_dec_str(d.day as int), 2)
}

fn push_padded(out: &mut Vec<char>, n: u64, w: usize)
    ensures
        final(out)@ == old(out)@ + zero_pad(u64_dec_str(n as int), w as int),
{
    let digits = crate::numbers::fmt_u64(n);
    let mut pad: usize = 0;
    let needed: usize = if digits.len() >= w {
        0
    } else {
        w - digits.len()
    };
    while pad < needed
        invariant
            0 <= pad <= needed,
            out@ == old(out)@ + Seq::new(pad as nat, |i: int| '0'),
        decreases needed - pad,
    {
        out.push('0');
        pad += 1;
        proof {
            assert(out@ =~= old(out)@ + Seq::new(pad as nat, |i: int| '0'));
        }
    }
    crate::text::push_chars(out, &digits);
    proof {
        if needed == 0 {
            assert(Seq::new(0nat, |i: int| '0') =~= Seq::<char>::empty());
            assert(final(out)@ =~= old(out)@ + zero_pad(u64_dec_str(n as int), w as int));
        } else {
            assert(final(out)@ =~= old(out)@ + zero_pad(u64_dec_str(n as int), w as int));
        }
    }
}

/// Formats a date as `YYYY-MM-DD`.
pub fn format_date_iso(d: &ZBDate) -> (r: String)
    requires
        d.wf(),
    ensures
        r@ == iso_date_of(*d),
{
    let mut out: Vec<char> = Vec::new();
    push_padded(&mut out, d.year as u64, 4);
    out.push('-');
    push_padded(&mut out, d.month as u64, 2);
    out.push('-');
    push_padded(&mut out, d.day as u64, 2);
    proof {
        assert(out@ =~= iso_date_of(*d));
    }
    chars_to_string(&out)
}

} // verus!
