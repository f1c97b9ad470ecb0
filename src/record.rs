//! The fields of a raw schedule record that the projection reads.

use vstd::prelude::*;

verus! {

/// What the `event_registered` key of a record holds.
#[derive(Clone, Debug, PartialEq, Eq)]
pub enum RegisteredField {
    /// A string value.
    Text(String),
    /// A boolean value.
    Flag(bool),
    /// The key is absent, or holds a value of another type.
    Missing,
}

/// One record of the schedule as the planning service hands it out.
///
/// Each optional field is `Some` exactly when the record holds a string under
/// that key (for `room_code`, under `code` inside the `room` object).
#[derive(Clone, Debug, PartialEq, Eq)]
pub struct RawRecord {
    pub event_registered: RegisteredField,
    pub acti_title: Option<String>,
    pub start: Option<String>,
    pub end: Option<String>,
    pub room_code: Option<String>,
    pub scolaryear: Option<String>,
    pub codemodule: Option<String>,
    pub codeinstance: Option<String>,
    pub codeacti: Option<String>,
}

/// The registration status that a record carries.
#[derive(Clone, Copy, Debug, PartialEq, Eq)]
pub enum RegistrationStatus {
    Registered,
    NotRegistered,
    Unknown,
}

/// Which of the two time fields of a record to read.
#[derive(Clone, Copy, Debug, PartialEq, Eq)]
pub enum TimeField {
    Start,
    End,
}

} // verus!
