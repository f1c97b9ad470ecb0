//! Naive (zone-less) date-times, read from and written to text by chrono.

use chrono::{Datelike, Timelike};
use vstd::prelude::*;

verus! {

/// A date and a time of day with no time zone attached.
///
/// `nano` counts nanoseconds; a value of a billion or more marks a leap
/// second, which only the second 59 can carry.
#[derive(Clone, Copy, Debug, PartialEq, Eq)]
pub struct NaiveStamp {
    pub year: i32,
    pub month: u32,
    pub day: u32,
    pub hour: u32,
    pub minute: u32,
    pub second: u32,
    pub nano: u32,
}

pub open spec fn is_leap_year(y: int) -> bool {
    (y % 4 == 0 && y % 100 != 0) || y % 400 == 0
}

pub open spec fn days_in_month(y: int, m: int) -> int {
    if m == 2 {
        if is_leap_year(y) { 29 } else { 28 }
    } else if m == 4 || m == 6 || m == 9 || m == 11 {
        30
    } else {
        31
    }
}

impl NaiveStamp {
    pub open spec fn view(&self) -> (int, int, int, int, int, int, int) {
        (
            self.year as int,
            self.month as int,
            self.day as int,
            self.hour as int,
            self.minute as int,
            self.second as int,
            self.nano as int,
        )
    }

    /// A date of the proleptic Gregorian calendar within chrono's range of
    /// years, and a valid time of day.
    pub open spec fn wf(&self) -> bool {
        &&& -262143 <= self.year <= 262142
        &&& 1 <= self.month <= 12
        &&& 1 <= self.day <= days_in_month(self.year as int, self.month as int)
        &&& self.hour < 24
        &&& self.minute < 60
        &&& self.second < 60
        &&& self.nano < 2_000_000_000
        &&& (self.nano >= 1_000_000_000 ==> self.second == 59)
    }
}

/// The pattern in which schedule records write their date-times.
pub open spec fn record_time_rule() -> Seq<char> {
    "%Y-%m-%d %H:%M:%S"@
}

/// The pattern of the compact calendar form, `YYYYMMDDTHHMMSS`.
pub open spec fn compact_rule() -> Seq<char> {
    "%Y%m%dT%H%M%S"@
}

/// What chrono reads from a text in the pattern of schedule records.
pub uninterp spec fn parsed_naive(s: Seq<char>) -> Option<(int, int, int, int, int, int, int)>;

/// What chrono writes for a date-time in the compact calendar pattern.
pub uninterp spec fn compact_text(t: (int, int, int, int, int, int, int)) -> Seq<char>;

pub open spec fn digit(n: int) -> char {
    seq!['0', '1', '2', '3', '4', '5', '6', '7', '8', '9'][n]
}

/// `n` in two decimal digits, for `0 <= n < 100`.
pub open spec fn pad2(n: int) -> Seq<char> {
    seq![digit(n / 10), digit(n % 10)]
}

/// `n` in four decimal digits, for `0 <= n < 10000`.
pub open spec fn pad4(n: int) -> Seq<char> {
    pad2(n / 100) + pad2(n % 100)
}

/// `YYYYMMDDTHHMMSS` for a year of four digits and no leap second.
pub open spec fn compact_digits(t: (int, int, int, int, int, int, int)) -> Seq<char> {
    pad4(t.0) + pad2(t.1) + pad2(t.2) + seq!['T'] + pad2(t.3) + pad2(t.4) + pad2(t.5)
}

/// Relies on chrono::NaiveDateTime::parse_from_str: a parsed value is a valid
/// date-time, and the outcome depends on the text alone.
#[verifier::external_body]
fn parse_naive(s: &str, rule: &str) -> (r: Option<NaiveStamp>)
    requires
        rule@ == record_time_rule(),
    ensures
        r is None <==> parsed_naive(s@) is None,
        r matches Some(t) ==> t.wf() && parsed_naive(s@) == Some(t@),
{
    match chrono::NaiveDateTime::parse_from_str(s, rule) {
        Ok(t) => Some(NaiveStamp {
            year: t.year(),
            month: t.month(),
            day: t.day(),
            hour: t.hour(),
            minute: t.minute(),
            second: t.second(),
            nano: t.nanosecond(),
        }),
        Err(_) => None,
    }
}

/// Relies on chrono::NaiveDateTime::format with `%Y%m%dT%H%M%S`: `%Y` is the
/// year zero-padded to four digits for years 0 to 9999, the other fields are
/// zero-padded to two digits.
#[verifier::external_body]
fn format_naive(t: &NaiveStamp, rule: &str) -> (r: String)
    requires
        t.wf(),
        rule@ == compact_rule(),
    ensures
        r@ == compact_text(t@),
        0 <= t.year <= 9999 && t.nano < 1_000_000_000 ==> r@ == compact_digits(t@),
{
    chrono::NaiveDate::from_ymd_opt(t.year, t.month, t.day)
        .and_then(|d| d.and_hms_nano_opt(t.hour, t.minute, t.second, t.nano))
        .map(|dt| dt.format(rule).to_string())
        .unwrap_or_default()
}

/// Relies on chrono::Utc::now: the current instant in UTC, a valid date-time.
#[verifier::external_body]
pub(crate) fn utc_now() -> (r: NaiveStamp)
    ensures
        r.wf(),
{
    let t = chrono::Utc::now().naive_utc();
    NaiveStamp {
        year: t.year(),
        month: t.month(),
        day: t.day(),
        hour: t.hour(),
        minute: t.minute(),
        second: t.second(),
        nano: t.nanosecond(),
    }
}

/// The compact calendar form of a text in the pattern of schedule records,
/// if it reads as one.
pub open spec fn compact_of(s: Seq<char>) -> Option<Seq<char>> {
    match parsed_naive(s) {
        Some(t) => Some(compact_text(t)),
        None => None,
    }
}

/// Reads a naive date-time written `YYYY-MM-DD HH:MM:SS`.
pub fn parse_record_time(s: &str) -> (r: Option<NaiveStamp>)
    ensures
        r is None <==> parsed_naive(s@) is None,
        r matches Some(t) ==> t.wf() && parsed_naive(s@) == Some(t@),
{
    parse_naive(s, "%Y-%m-%d %H:%M:%S")
}

/// Writes a date-time in the compact calendar form `YYYYMMDDTHHMMSS`.
pub fn to_compact(t: &NaiveStamp) -> (r: String)
    requires
        t.wf(),
    ensures
        r@ == compact_text(t@),
        0 <= t.year <= 9999 && t.nano < 1_000_000_000 ==> r@ == compact_digits(t@),
{
    format_naive(t, "%Y%m%dT%H%M%S")
}

/// Re-renders an already read date-time, if any, in the compact form.
pub fn render_time(parsed: Option<NaiveStamp>) -> (r: Option<String>)
    requires
        parsed matches Some(t) ==> t.wf(),
    ensures
        match parsed {
            None => r is None,
            Some(t) => r matches Some(s) && s@ == compact_text(t@) && (0 <= t.year <= 9999
                && t.nano < 1_000_000_000 ==> s@ == compact_digits(t@)),
        },
{
    match parsed {
        Some(t) => Some(to_compact(&t)),
        None => None,
    }
}

/// Reads `YYYY-MM-DD HH:MM:SS` and writes it back as `YYYYMMDDTHHMMSS`.
pub fn naive_to_compact(s: &str) -> (r: Option<String>)
    ensures
        opt_string_view(r) == compact_of(s@),
{
    render_time(parse_record_time(s))
}

pub open spec fn opt_string_view(o: Option<String>) -> Option<Seq<char>> {
    match o {
        Some(s) => Some(s@),
        None => None,
    }
}

} // verus!
