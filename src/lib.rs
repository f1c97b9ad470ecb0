//! A weekly calendar feed: schedule records are checked, turned into calendar
//! events and written out as an iCalendar document.

pub mod calendar;
pub mod fields;
pub mod project;
pub mod record;
pub mod stamp;
pub mod token;
pub mod window;
pub mod weekly;
