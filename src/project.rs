//! Projection of one raw record into a calendar event.

use crate::fields::{
    construct_intra_url, get_location, get_registration, get_time, get_title, location_of,
    registration_of, time_of, url_of,
};
use crate::record::{RawRecord, RegistrationStatus, TimeField};
use crate::stamp::{opt_string_view, to_compact, utc_now};
use vstd::prelude::*;
use vstd::string::*;

verus! {

/// Why a record could not become an event.
#[derive(Clone, Copy, Debug, PartialEq, Eq)]
pub enum ProjectionError {
    AmbiguousRegistration,
    MissingTitle,
    MissingStart,
    MissingEnd,
    MissingReference,
}

impl ProjectionError {
    pub open spec fn message_spec(self) -> Seq<char> {
        match self {
            ProjectionError::AmbiguousRegistration => "could not get registration status of an event"@,
            ProjectionError::MissingTitle => "could not get title of an event"@,
            ProjectionError::MissingStart => "could not get start time of an event"@,
            ProjectionError::MissingEnd => "could not get end time of an event"@,
            ProjectionError::MissingReference => "could not construct url of an event"@,
        }
    }

    /// The diagnostic text of the error, naming the field at fault.
    pub fn message(&self) -> (r: String)
        ensures
            r@ == self.message_spec(),
    {
        match self {
            ProjectionError::AmbiguousRegistration => String::from_str(
                "could not get registration status of an event",
            ),
            ProjectionError::MissingTitle => String::from_str("could not get title of an event"),
            ProjectionError::MissingStart => String::from_str(
                "could not get start time of an event",
            ),
            ProjectionError::MissingEnd => String::from_str("could not get end time of an event"),
            ProjectionError::MissingReference => String::from_str(
                "could not construct url of an event",
            ),
        }
    }
}

/// One event of the calendar.
#[derive(Clone, Debug, PartialEq, Eq)]
pub struct CalendarEvent {
    pub uid: String,
    pub created: String,
    pub title: String,
    pub start: String,
    pub end: String,
    pub location: String,
    pub url: String,
    pub description: Option<String>,
}

/// The failure that projecting `r` ends in, if any.
pub open spec fn projection_error(r: RawRecord) -> Option<ProjectionError> {
    let status = registration_of(r.event_registered);
    if status == RegistrationStatus::Unknown {
        Some(ProjectionError::AmbiguousRegistration)
    } else if status == RegistrationStatus::NotRegistered {
        None
    } else if r.acti_title is None {
        Some(ProjectionError::MissingTitle)
    } else if time_of(r, TimeField::Start) is None {
        Some(ProjectionError::MissingStart)
    } else if time_of(r, TimeField::End) is None {
        Some(ProjectionError::MissingEnd)
    } else if url_of(r) is None {
        Some(ProjectionError::MissingReference)
    } else {
        None
    }
}

/// `e` carries what the record `r` gives an event: every field but the
/// identifier and the creation stamp.
pub open spec fn event_of(e: CalendarEvent, r: RawRecord) -> bool {
    &&& Some(e.title@) == opt_string_view(r.acti_title)
    &&& Some(e.start@) == time_of(r, TimeField::Start)
    &&& Some(e.end@) == time_of(r, TimeField::End)
    &&& e.location@ == location_of(opt_string_view(r.room_code))
    &&& Some(e.url@) == url_of(r)
    &&& opt_string_view(e.description) == Some(e.url@)
}

/// What projecting `r` gives, up to the identifier and the creation stamp.
pub open spec fn projected(r: RawRecord, res: Result<Option<CalendarEvent>, ProjectionError>) -> bool {
    match projection_error(r) {
        Some(err) => res == Err::<Option<CalendarEvent>, ProjectionError>(err),
        None => if registration_of(r.event_registered) == RegistrationStatus::NotRegistered {
            res == Ok::<Option<CalendarEvent>, ProjectionError>(None)
        } else {
            res matches Ok(Some(e)) && event_of(e, r)
        },
    }
}

/// Projects a record with the given identifier and creation stamp.
pub fn project_with(event: &RawRecord, uid: String, created: String) -> (r: Result<
    Option<CalendarEvent>,
    ProjectionError,
>)
    ensures
        projected(*event, r),
        r matches Ok(Some(e)) ==> e.uid == uid && e.created == created,
{
    match get_registration(event) {
        RegistrationStatus::Unknown => {
            return Err(ProjectionError::AmbiguousRegistration);
        },
        RegistrationStatus::NotRegistered => {
            return Ok(None);
        },
        RegistrationStatus::Registered => {},
    }
    let title = match get_title(event) {
        Some(t) => t,
        None => {
            return Err(ProjectionError::MissingTitle);
        },
    };
    let start = match get_time(event, TimeField::Start) {
        Some(t) => t,
        None => {
            return Err(ProjectionError::MissingStart);
        },
    };
    let end = match get_time(event, TimeField::End) {
        Some(t) => t,
        None => {
            return Err(ProjectionError::MissingEnd);
        },
    };
    let location = get_location(event);
    let url = match construct_intra_url(event) {
        Some(u) => u,
        None => {
            return Err(ProjectionError::MissingReference);
        },
    };
    let description = Some(url.clone());
    Ok(Some(CalendarEvent { uid, created, title, start, end, location, url, description }))
}

/// Relies on uuid::Uuid::new_v4 and its hyphenated text form, which is
/// 36 characters long.
#[verifier::external_body]
fn fresh_uid() -> (r: String)
    ensures
        r@.len() == 36,
{
    uuid::Uuid::new_v4().to_string()
}

/// Projects a record, with a fresh identifier and the current instant as
/// its creation stamp.
pub fn project(event: &RawRecord) -> (r: Result<Option<CalendarEvent>, ProjectionError>)
    ensures
        projected(*event, r),
        r matches Ok(Some(e)) ==> e.uid@.len() == 36,
{
    let uid = fresh_uid();
    let now = utc_now();
    let created = to_compact(&now);
    project_with(event, uid, created)
}

} // verus!
