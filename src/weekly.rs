//! The decisions of the weekly feed request: which reply each outcome gets.

use crate::calendar::{assemble, assembled, document_text, first_error, serialize};
use crate::record::RawRecord;
use crate::token::{check_autologin, is_token};
use vstd::prelude::*;
use vstd::string::*;

verus! {

/// What fetching the schedule gave.
#[derive(Clone, Debug, PartialEq, Eq)]
pub enum FetchOutcome {
    /// The records of the schedule, in order.
    Records(Vec<RawRecord>),
    /// The planning service reported that it has no data.
    Empty,
    /// The fetch failed, with the reason that it gave.
    Failure(String),
}

/// A reply to a feed request.
#[derive(Clone, Debug, PartialEq, Eq)]
pub struct WeeklyResponse {
    pub status: u16,
    pub content_type: Option<String>,
    pub body: String,
}

pub open spec fn plain_reply(r: WeeklyResponse, status: u16, body: Seq<char>) -> bool {
    r.status == status && r.content_type is None && r.body@ == body
}

fn plain(status: u16, body: String) -> (r: WeeklyResponse)
    ensures
        plain_reply(r, status, body@),
{
    WeeklyResponse { status, content_type: None, body }
}

/// The reply to a request whose token is absent or malformed; `None` when the
/// token may be used.
pub fn token_rejection(token: Option<&str>) -> (r: Option<WeeklyResponse>)
    ensures
        match token {
            None => r matches Some(resp) && plain_reply(resp, 400, "no autologin provided"@),
            Some(t) => if is_token(t@) {
                r is None
            } else {
                r matches Some(resp) && plain_reply(resp, 400, "invalid autologin provided"@)
            },
        },
{
    match token {
        None => Some(plain(400, String::from_str("no autologin provided"))),
        Some(t) => {
            if check_autologin(t) {
                None
            } else {
                Some(plain(400, String::from_str("invalid autologin provided")))
            }
        },
    }
}

/// The reply to a request once the schedule has been fetched.
pub fn weekly(fetched: FetchOutcome) -> (r: WeeklyResponse)
    ensures
        match fetched {
            FetchOutcome::Empty => plain_reply(r, 200, Seq::empty()),
            FetchOutcome::Failure(m) => plain_reply(r, 500, m@),
            FetchOutcome::Records(rs) => match first_error(rs@) {
                Some(e) => plain_reply(r, 500, e.message_spec()),
                None => {
                    &&& r.status == 200
                    &&& r.content_type matches Some(c) && c@ == "text/calendar; charset=utf-8"@
                    &&& exists|doc| assembled(rs@, doc) && r.body@ == document_text(doc)
                },
            },
        },
{
    match fetched {
        FetchOutcome::Empty => plain(200, String::new()),
        FetchOutcome::Failure(m) => plain(500, m),
        FetchOutcome::Records(rs) => match assemble(&rs) {
            Err(e) => plain(500, e.message()),
            Ok(doc) => {
                let body = serialize(&doc);
                WeeklyResponse {
                    status: 200,
                    content_type: Some(String::from_str("text/calendar; charset=utf-8")),
                    body,
                }
            },
        },
    }
}

} // verus!
