//! The range of days that a weekly feed covers.

use vstd::prelude::*;
use vstd::string::*;

verus! {

/// A day of the proleptic Gregorian calendar, counted so that
/// January 1st of year 1 is day 1.
#[derive(Clone, Copy, Debug, PartialEq, Eq)]
pub struct CalendarDay {
    pub days_from_ce: i32,
}

/// First and last day of the window around `today`, as day numbers.
pub open spec fn window_bounds(today: int) -> (int, int) {
    (today - 7, today + 7)
}

/// The days one week before and one week after `today`.
pub fn window(today: CalendarDay) -> (r: (CalendarDay, CalendarDay))
    requires
        i32::MIN + 7 <= today.days_from_ce <= i32::MAX - 7,
    ensures
        (r.0.days_from_ce as int, r.1.days_from_ce as int) == window_bounds(
            today.days_from_ce as int,
        ),
{
    (
        CalendarDay { days_from_ce: today.days_from_ce - 7 },
        CalendarDay { days_from_ce: today.days_from_ce + 7 },
    )
}

/// The window spans fourteen days and holds `today` strictly inside.
pub proof fn window_spans_two_weeks(today: int)
    ensures
        window_bounds(today).1 - window_bounds(today).0 == 14,
        window_bounds(today).0 < today < window_bounds(today).1,
{
}

/// What chrono writes for a day number: `YYYY-MM-DD`, or nothing for a day
/// outside its range.
pub uninterp spec fn ce_date_text(days: int) -> Option<Seq<char>>;

/// Relies on chrono::NaiveDate::from_num_days_from_ce_opt, and on the
/// `Display` of `NaiveDate`, which writes `%Y-%m-%d`.
#[verifier::external_body]
fn date_text(days: i32) -> (r: Option<String>)
    ensures
        match r {
            Some(s) => ce_date_text(days as int) == Some(s@),
            None => ce_date_text(days as int) is None,
        },
{
    chrono::NaiveDate::from_num_days_from_ce_opt(days).map(|d| d.to_string())
}

/// The address of the planning service's schedule for a token between two
/// dates.
pub open spec fn planning_url(token: Seq<char>, start: Seq<char>, end: Seq<char>) -> Seq<char> {
    "https://intra.epitech.eu/auth-"@ + token + "/planning/load?format=json&start="@ + start
        + "&end="@ + end
}

/// The schedule query of a token for the window around `today`: `None` when
/// a bound of the window lies outside the dates that can be written.
pub fn planning_query(token: &str, today: CalendarDay) -> (r: Option<String>)
    requires
        i32::MIN + 7 <= today.days_from_ce <= i32::MAX - 7,
    ensures
        match (
            ce_date_text(today.days_from_ce - 7),
            ce_date_text(today.days_from_ce + 7),
        ) {
            (Some(a), Some(b)) => r matches Some(u) && u@ == planning_url(token@, a, b),
            _ => r is None,
        },
{
    let (start, end) = window(today);
    match (date_text(start.days_from_ce), date_text(end.days_from_ce)) {
        (Some(a), Some(b)) => Some(query_url(token, a.as_str(), b.as_str())),
        _ => None,
    }
}

/// The address of the schedule of `token` between two written dates.
pub fn query_url(token: &str, start: &str, end: &str) -> (r: String)
    ensures
        r@ == planning_url(token@, start@, end@),
{
    let mut url = String::from_str("https://intra.epitech.eu/auth-");
    url.append(token);
    url.append("/planning/load?format=json&start=");
    url.append(start);
    url.append("&end=");
    url.append(end);
    url
}

} // verus!
