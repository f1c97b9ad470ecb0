//! Extractors: each reads one field of a raw record and normalises it.

use crate::record::{RawRecord, RegisteredField, RegistrationStatus, TimeField};
use crate::stamp::{compact_of, naive_to_compact, opt_string_view};
use vstd::prelude::*;
use vstd::string::*;

verus! {

pub open spec fn registration_of(f: RegisteredField) -> RegistrationStatus {
    match f {
        RegisteredField::Text(s) => if s@ == "registered"@ || s@ == "present"@ {
            RegistrationStatus::Registered
        } else {
            RegistrationStatus::NotRegistered
        },
        RegisteredField::Flag(b) => if b {
            RegistrationStatus::Unknown
        } else {
            RegistrationStatus::NotRegistered
        },
        RegisteredField::Missing => RegistrationStatus::Unknown,
    }
}

fn same_text(a: &String, b: &str) -> (r: bool)
    ensures
        r == (a@ == b@),
{
    let t = String::from_str(b);
    *a == t
}

/// Reads the registration status of a record.
pub fn get_registration(event: &RawRecord) -> (r: RegistrationStatus)
    ensures
        r == registration_of(event.event_registered),
{
    match &event.event_registered {
        RegisteredField::Text(s) => {
            if same_text(s, "registered") || same_text(s, "present") {
                RegistrationStatus::Registered
            } else {
                RegistrationStatus::NotRegistered
            }
        },
        RegisteredField::Flag(b) => {
            if *b {
                RegistrationStatus::Unknown
            } else {
                RegistrationStatus::NotRegistered
            }
        },
        RegisteredField::Missing => RegistrationStatus::Unknown,
    }
}

/// Reads the title of a record.
pub fn get_title(event: &RawRecord) -> (r: Option<String>)
    ensures
        r == event.acti_title,
{
    event.acti_title.clone()
}

pub open spec fn time_field(event: RawRecord, to_get: TimeField) -> Option<Seq<char>> {
    match to_get {
        TimeField::Start => opt_string_view(event.start),
        TimeField::End => opt_string_view(event.end),
    }
}

/// The compact form of a time field, if it is present and reads as a date-time.
pub open spec fn time_of(event: RawRecord, to_get: TimeField) -> Option<Seq<char>> {
    match time_field(event, to_get) {
        Some(s) => compact_of(s),
        None => None,
    }
}

/// Reads the start or the end time of a record in the compact calendar form.
pub fn get_time(event: &RawRecord, to_get: TimeField) -> (r: Option<String>)
    ensures
        opt_string_view(r) == time_of(*event, to_get),
{
    let field = match to_get {
        TimeField::Start => &event.start,
        TimeField::End => &event.end,
    };
    match field {
        Some(s) => naive_to_compact(s.as_str()),
        None => None,
    }
}

pub open spec fn is_ascii_letter(c: char) -> bool {
    ('a' <= c && c <= 'z') || ('A' <= c && c <= 'Z')
}

pub open spec fn all_letters(s: Seq<char>, a: int, b: int) -> bool {
    forall|k: int| a <= k < b ==> is_ascii_letter(#[trigger] s[k])
}

/// `s` opens with `Country/City/`: two non-empty runs of ASCII letters, each
/// followed by a `/`, the second one at index `j`.
pub open spec fn country_city_at(s: Seq<char>, i: int, j: int) -> bool {
    &&& 0 < i
    &&& i + 1 < j
    &&& j < s.len()
    &&& all_letters(s, 0, i)
    &&& s[i] == '/'
    &&& all_letters(s, i + 1, j)
    &&& s[j] == '/'
}

/// The pattern that finds a leading `Country/City/`.
pub open spec fn country_city_rule() -> Seq<char> {
    "^([a-zA-Z]+/[a-zA-Z]+/)"@
}

/// `s` without a leading `Country/City/`, if it has one.
pub open spec fn strip_country_city(s: Seq<char>) -> Seq<char> {
    if exists|i: int, j: int| country_city_at(s, i, j) {
        let (i, j) = choose|i: int, j: int| country_city_at(s, i, j);
        s.subrange(j + 1, s.len() as int)
    } else {
        s
    }
}

/// `s` with every occurrence of `c` replaced by `t`.
pub open spec fn replace_char(s: Seq<char>, c: char, t: Seq<char>) -> Seq<char>
    decreases s.len(),
{
    if s.len() == 0 {
        s
    } else if s.last() == c {
        replace_char(s.drop_last(), c, t) + t
    } else {
        replace_char(s.drop_last(), c, t).push(s.last())
    }
}

/// The location given to an event whose record names no room.
pub open spec fn fallback_location() -> Seq<char> {
    "At the bar 🍺"@
}

/// The display label of a room: the leading country and city dropped, the
/// separators shown as arrows and the dashes as spaces.
pub open spec fn location_of(room: Option<Seq<char>>) -> Seq<char> {
    match room {
        None => fallback_location(),
        Some(s) => replace_char(replace_char(strip_country_city(s), '/', " → "@), '-', " "@),
    }
}

/// Relies on regex::Regex::new and Regex::replace with an empty replacement:
/// the first match of `^([a-zA-Z]+/[a-zA-Z]+/)` is taken out of the text, and
/// a text that does not match comes back as it was.
#[verifier::external_body]
fn regex_remove_first(rule: &str, text: &str, with: &str) -> (r: String)
    requires
        rule@ == country_city_rule(),
        with@.len() == 0,
    ensures
        r@ == strip_country_city(text@),
{
    match regex::Regex::new(rule) {
        Ok(re) => re.replace(text, with).to_string(),
        Err(_) => text.to_string(),
    }
}

/// Relies on str::replace: every match of a one-character pattern is replaced.
#[verifier::external_body]
fn str_replace(s: &str, from: &str, to: &str) -> (r: String)
    requires
        from@.len() == 1,
    ensures
        r@ == replace_char(s@, from@[0], to@),
{
    s.replace(from, to)
}

/// Reads the room of a record as a display label.
pub fn get_location(event: &RawRecord) -> (r: String)
    ensures
        r@ == location_of(opt_string_view(event.room_code)),
{
    match &event.room_code {
        None => String::from_str("At the bar 🍺"),
        Some(code) => {
            proof {
                reveal_strlit("");
                reveal_strlit("/");
                reveal_strlit("-");
            }
            let stripped = regex_remove_first("^([a-zA-Z]+/[a-zA-Z]+/)", code.as_str(), "");
            let arrows = str_replace(stripped.as_str(), "/", " → ");
            str_replace(arrows.as_str(), "-", " ")
        },
    }
}

/// The reference link of an activity.
pub open spec fn intra_url(
    year: Seq<char>,
    module: Seq<char>,
    instance: Seq<char>,
    acti: Seq<char>,
) -> Seq<char> {
    "https://intra.epitech.eu/module/"@ + year + "/"@ + module + "/"@ + instance + "/"@ + acti
}

/// The reference link of a record, if it holds all four identifiers.
pub open spec fn url_of(event: RawRecord) -> Option<Seq<char>> {
    match (event.scolaryear, event.codemodule, event.codeinstance, event.codeacti) {
        (Some(y), Some(m), Some(i), Some(a)) => Some(intra_url(y@, m@, i@, a@)),
        _ => None,
    }
}

/// Builds the reference link of a record from its four identifiers.
pub fn construct_intra_url(event: &RawRecord) -> (r: Option<String>)
    ensures
        opt_string_view(r) == url_of(*event),
{
    match (&event.scolaryear, &event.codemodule, &event.codeinstance, &event.codeacti) {
        (Some(y), Some(m), Some(i), Some(a)) => {
            let mut url = String::from_str("https://intra.epitech.eu/module/");
            url.append(y.as_str());
            url.append("/");
            url.append(m.as_str());
            url.append("/");
            url.append(i.as_str());
            url.append("/");
            url.append(a.as_str());
            Some(url)
        },
        _ => None,
    }
}

} // verus!
