//! The calendar document: assembled from raw records, written as iCalendar.

use crate::project::{event_of, project, projection_error, CalendarEvent, ProjectionError};
use crate::fields::registration_of;
use crate::record::{RawRecord, RegistrationStatus};
use vstd::prelude::*;
use vstd::string::*;

verus! {

/// An ordered list of events with the calendar's own properties.
#[derive(Clone, Debug, PartialEq, Eq)]
pub struct CalendarDocument {
    pub version: String,
    pub product_id: String,
    pub time_zone: String,
    pub events: Vec<CalendarEvent>,
}

impl CalendarDocument {
    /// The fixed properties of every document of this feed.
    pub open spec fn has_feed_metadata(&self) -> bool {
        &&& self.version@ == "2.0"@
        &&& self.product_id@ == "-//epitech-ics//NONSGML Epitech Calendar//EN"@
        &&& self.time_zone@ == "Europe/Paris"@
    }

    /// A document with the feed's properties and no event.
    pub fn new() -> (r: CalendarDocument)
        ensures
            r.has_feed_metadata(),
            r.events@.len() == 0,
    {
        CalendarDocument {
            version: String::from_str("2.0"),
            product_id: String::from_str("-//epitech-ics//NONSGML Epitech Calendar//EN"),
            time_zone: String::from_str("Europe/Paris"),
            events: Vec::new(),
        }
    }
}

/// The first failure met when the records are projected in order, if any.
pub open spec fn first_error(s: Seq<RawRecord>) -> Option<ProjectionError>
    decreases s.len(),
{
    if s.len() == 0 {
        None
    } else {
        match first_error(s.drop_last()) {
            Some(e) => Some(e),
            None => projection_error(s.last()),
        }
    }
}

/// The records that become events, in their order.
pub open spec fn kept(s: Seq<RawRecord>) -> Seq<RawRecord>
    decreases s.len(),
{
    if s.len() == 0 {
        s
    } else if registration_of(s.last().event_registered) == RegistrationStatus::Registered {
        kept(s.drop_last()).push(s.last())
    } else {
        kept(s.drop_last())
    }
}

/// `doc` is the document of the feed for `records`: one event for each kept
/// record, in order.
pub open spec fn assembled(records: Seq<RawRecord>, doc: CalendarDocument) -> bool {
    &&& doc.has_feed_metadata()
    &&& doc.events@.len() == kept(records).len()
    &&& forall|i: int| 0 <= i < doc.events@.len() ==> event_of(#[trigger] doc.events@[i], kept(records)[i])
}

/// Projects every record in order into one document; the first failure ends
/// the assembly and is returned alone.
pub fn assemble(records: &Vec<RawRecord>) -> (r: Result<CalendarDocument, ProjectionError>)
    ensures
        match first_error(records@) {
            Some(e) => r == Err::<CalendarDocument, ProjectionError>(e),
            None => r matches Ok(doc) && assembled(records@, doc),
        },
{
    let mut doc = CalendarDocument::new();
    let mut i: usize = 0;
    while i < records.len()
        invariant
            i <= records@.len(),
            first_error(records@.subrange(0, i as int)) is None,
            assembled(records@.subrange(0, i as int), doc),
        decreases records@.len() - i,
    {
        let ghost prefix = records@.subrange(0, i as int);
        let ghost next = records@.subrange(0, i as int + 1);
        assert(next.drop_last() =~= prefix);
        assert(next.last() == records@[i as int]);
        match project(&records[i]) {
            Err(e) => {
                proof {
                    lemma_error_persists(records@, i as int + 1);
                }
                return Err(e);
            },
            Ok(None) => {},
            Ok(Some(e)) => {
                doc.events.push(e);
            },
        }
        i += 1;
    }
    assert(records@.subrange(0, records@.len() as int) =~= records@);
    Ok(doc)
}

/// A failure in a prefix is the failure of the whole sequence.
proof fn lemma_error_persists(s: Seq<RawRecord>, n: int)
    requires
        0 <= n <= s.len(),
        first_error(s.subrange(0, n)) is Some,
    ensures
        first_error(s) == first_error(s.subrange(0, n)),
    decreases s.len() - n,
{
    if n < s.len() {
        let next = s.subrange(0, n + 1);
        assert(next.drop_last() =~= s.subrange(0, n));
        lemma_error_persists(s, n + 1);
    } else {
        assert(s.subrange(0, n) =~= s);
    }
}

/// Text with the characters that iCalendar reserves escaped: `,` `;` and `\`
/// get a backslash, a line break becomes `\n`, and a carriage return that
/// opens a line break is dropped.
pub open spec fn escape_ics(s: Seq<char>) -> Seq<char>
    decreases s.len(),
{
    if s.len() == 0 {
        s
    } else {
        let c = s[0];
        let rest = escape_ics(s.drop_first());
        if c == ',' || c == ';' || c == '\\' {
            seq!['\\', c] + rest
        } else if c == '\n' {
            seq!['\\', 'n'] + rest
        } else if c == '\r' {
            if s.len() > 1 && s[1] == '\n' {
                rest
            } else {
                seq!['\\', 'n'] + rest
            }
        } else {
            seq![c] + rest
        }
    }
}

/// Relies on ics::escape_text, which escapes `,` `;` `\` and line breaks as
/// stated by `escape_ics`.
#[verifier::external_body]
fn escape_text(s: &str) -> (r: String)
    ensures
        r@ == escape_ics(s@),
{
    ics::escape_text(s).into_owned()
}

pub open spec fn pairs_view(v: Seq<(String, String)>) -> Seq<(Seq<char>, Seq<char>)> {
    v.map_values(|p: (String, String)| (p.0@, p.1@))
}

pub open spec fn blocks_view(v: Seq<Vec<(String, String)>>) -> Seq<Seq<(Seq<char>, Seq<char>)>> {
    v.map_values(|b: Vec<(String, String)>| pairs_view(b@))
}

/// What ics writes for a calendar with the given version and product
/// identifier, the given further properties, and one block of the given
/// name for each list of properties in `blocks`.
pub uninterp spec fn ics_text(
    version: Seq<char>,
    product_id: Seq<char>,
    properties: Seq<(Seq<char>, Seq<char>)>,
    block_name: Seq<char>,
    blocks: Seq<Seq<(Seq<char>, Seq<char>)>>,
) -> Seq<char>;

/// Relies on ics::ICalendar::new, ICalendar::push, ICalendar::add_component,
/// Component::new, Component::add_property, Property::new and the `Display`
/// of ICalendar: the text depends on the values handed over alone.
#[verifier::external_body]
fn render_calendar(
    version: &str,
    product_id: &str,
    properties: &Vec<(String, String)>,
    block_name: &str,
    blocks: &Vec<Vec<(String, String)>>,
) -> (r: String)
    ensures
        r@ == ics_text(version@, product_id@, pairs_view(properties@), block_name@, blocks_view(blocks@)),
{
    let mut cal = ics::ICalendar::new(version, product_id);
    for (k, v) in properties.iter() {
        cal.push(ics::components::Property::new(k.as_str(), v.as_str()));
    }
    for block in blocks.iter() {
        let mut c = ics::components::Component::new(block_name);
        for (k, v) in block.iter() {
            c.add_property(ics::components::Property::new(k.as_str(), v.as_str()));
        }
        cal.add_component(c);
    }
    cal.to_string()
}

/// The property lines of one event, text values escaped.
pub open spec fn event_lines(e: CalendarEvent) -> Seq<(Seq<char>, Seq<char>)> {
    seq![
        ("UID"@, e.uid@),
        ("DTSTAMP"@, e.created@),
        ("SUMMARY"@, escape_ics(e.title@)),
        ("DTSTART"@, e.start@),
        ("DTEND"@, e.end@),
        ("LOCATION"@, escape_ics(e.location@)),
        ("URL"@, e.url@),
    ] + match e.description {
        Some(d) => seq![("DESCRIPTION"@, escape_ics(d@))],
        None => Seq::empty(),
    }
}

/// The iCalendar text of a document.
pub open spec fn document_text(doc: CalendarDocument) -> Seq<char> {
    ics_text(
        doc.version@,
        doc.product_id@,
        seq![("X-WR-TIMEZONE"@, doc.time_zone@)],
        "VEVENT"@,
        doc.events@.map_values(|e: CalendarEvent| event_lines(e)),
    )
}

fn line(key: &str, value: String) -> (r: (String, String))
    ensures
        r.0@ == key@,
        r.1@ == value@,
{
    (String::from_str(key), value)
}

fn event_block(e: &CalendarEvent) -> (r: Vec<(String, String)>)
    ensures
        pairs_view(r@) == event_lines(*e),
{
    let mut v: Vec<(String, String)> = Vec::new();
    v.push(line("UID", e.uid.clone()));
    v.push(line("DTSTAMP", e.created.clone()));
    v.push(line("SUMMARY", escape_text(e.title.as_str())));
    v.push(line("DTSTART", e.start.clone()));
    v.push(line("DTEND", e.end.clone()));
    v.push(line("LOCATION", escape_text(e.location.as_str())));
    v.push(line("URL", e.url.clone()));
    match &e.description {
        Some(d) => v.push(line("DESCRIPTION", escape_text(d.as_str()))),
        None => {},
    }
    assert(pairs_view(v@) =~= event_lines(*e));
    v
}

/// Writes a document as iCalendar text.
pub fn serialize(doc: &CalendarDocument) -> (r: String)
    ensures
        r@ == document_text(*doc),
{
    let mut properties: Vec<(String, String)> = Vec::new();
    properties.push(line("X-WR-TIMEZONE", doc.time_zone.clone()));
    let mut blocks: Vec<Vec<(String, String)>> = Vec::new();
    let mut i: usize = 0;
    while i < doc.events.len()
        invariant
            i <= doc.events@.len(),
            blocks@.len() == i,
            forall|j: int| 0 <= j < i ==> pairs_view(#[trigger] blocks@[j]@) == event_lines(doc.events@[j]),
        decreases doc.events@.len() - i,
    {
        blocks.push(event_block(&doc.events[i]));
        i += 1;
    }
    assert(pairs_view(properties@) =~= seq![("X-WR-TIMEZONE"@, doc.time_zone@)]);
    assert(blocks_view(blocks@) =~= doc.events@.map_values(|e: CalendarEvent| event_lines(e)));
    render_calendar(doc.version.as_str(), doc.product_id.as_str(), &properties, "VEVENT", &blocks)
}

/// Writing a document depends on its contents alone: any two texts that
/// `serialize` may return for the same document are equal.
pub proof fn serialize_is_deterministic(doc: CalendarDocument, first: String, second: String)
    requires
        first@ == document_text(doc),
        second@ == document_text(doc),
    ensures
        first@ == second@,
{
}

} // verus!
