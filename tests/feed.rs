use chrono::Datelike;
use epitech_ics::calendar::{assemble, serialize, CalendarDocument};
use epitech_ics::fields::{
    construct_intra_url, get_location, get_registration, get_time, get_title,
};
use epitech_ics::project::{project, project_with, CalendarEvent, ProjectionError};
use epitech_ics::record::{RawRecord, RegisteredField, RegistrationStatus, TimeField};
use epitech_ics::stamp::{naive_to_compact, parse_record_time, render_time, to_compact, NaiveStamp};
use epitech_ics::token::check_autologin;
use epitech_ics::weekly::{token_rejection, weekly, FetchOutcome};
use epitech_ics::window::{planning_query, query_url, window, CalendarDay};

fn s(x: &str) -> Option<String> {
    Some(x.to_string())
}

fn full_record(registered: RegisteredField) -> RawRecord {
    RawRecord {
        event_registered: registered,
        acti_title: s("Kick-off"),
        start: s("2024-03-04 09:30:00"),
        end: s("2024-03-04 11:00:00"),
        room_code: s("France/Paris/Campus-A/Room-101"),
        scolaryear: s("2023"),
        codemodule: s("B-INN-000"),
        codeinstance: s("PAR-0-1"),
        codeacti: s("acti-123"),
    }
}

fn text(x: &str) -> RegisteredField {
    RegisteredField::Text(x.to_string())
}

fn day(y: i32, m: u32, d: u32) -> CalendarDay {
    CalendarDay {
        days_from_ce: chrono::NaiveDate::from_ymd_opt(y, m, d).unwrap().num_days_from_ce(),
    }
}

const TOKEN: &str = "abcdefghij0123456789abcdefghij0123456789";

#[test]
fn token_of_forty_lowercase_alphanumerics_is_accepted() {
    assert!(check_autologin(TOKEN));
    assert!(check_autologin(&"a".repeat(40)));
    assert!(check_autologin(&"7".repeat(40)));
}

#[test]
fn token_of_wrong_shape_is_rejected() {
    assert!(!check_autologin(""));
    assert!(!check_autologin(&"a".repeat(39)));
    assert!(!check_autologin(&"a".repeat(41)));
    assert!(!check_autologin("abcdefghij0123456789ABCDEFGHIJ0123456789"));
    assert!(!check_autologin("abcdefghij0123456789abcdefghij012345678-"));
    assert!(!check_autologin("abcdefghij01234_6789abcdefghij0123456789"));
    assert!(!check_autologin(&format!("{}\n", TOKEN)));
    assert!(!check_autologin(&format!(" {}", &TOKEN[1..])));
    assert!(!check_autologin(&format!("{}é", &TOKEN[1..])));
}

#[test]
fn window_spans_one_week_each_side() {
    let today = day(2024, 3, 11);
    let (start, end) = window(today);
    assert_eq!(end.days_from_ce - start.days_from_ce, 14);
    assert!(start.days_from_ce < today.days_from_ce && today.days_from_ce < end.days_from_ce);
    assert_eq!(start, day(2024, 3, 4));
    assert_eq!(end, day(2024, 3, 18));
}

#[test]
fn planning_query_writes_plain_dates() {
    let url = planning_query(TOKEN, day(2024, 3, 1)).unwrap();
    assert_eq!(
        url,
        format!(
            "https://intra.epitech.eu/auth-{}/planning/load?format=json&start=2024-02-23&end=2024-03-08",
            TOKEN
        )
    );
}

#[test]
fn registration_statuses() {
    let mut r = full_record(text("registered"));
    assert_eq!(get_registration(&r), RegistrationStatus::Registered);
    r.event_registered = text("present");
    assert_eq!(get_registration(&r), RegistrationStatus::Registered);
    r.event_registered = text("absent");
    assert_eq!(get_registration(&r), RegistrationStatus::NotRegistered);
    r.event_registered = RegisteredField::Flag(false);
    assert_eq!(get_registration(&r), RegistrationStatus::NotRegistered);
    r.event_registered = RegisteredField::Flag(true);
    assert_eq!(get_registration(&r), RegistrationStatus::Unknown);
    r.event_registered = RegisteredField::Missing;
    assert_eq!(get_registration(&r), RegistrationStatus::Unknown);
}

#[test]
fn location_drops_country_and_city() {
    let r = full_record(text("registered"));
    assert_eq!(get_location(&r), "Campus A → Room 101");
}

#[test]
fn location_without_room_is_the_bar() {
    let mut r = full_record(text("registered"));
    r.room_code = None;
    assert_eq!(get_location(&r), "At the bar 🍺");
}

#[test]
fn location_without_country_prefix_is_kept() {
    let mut r = full_record(text("registered"));
    r.room_code = s("Room-1");
    assert_eq!(get_location(&r), "Room 1");
    r.room_code = s("Paris/Hall-2");
    assert_eq!(get_location(&r), "Paris → Hall 2");
    r.room_code = s("Fr4nce/Paris/Hall");
    assert_eq!(get_location(&r), "Fr4nce → Paris → Hall");
}

#[test]
fn time_is_rewritten_compact() {
    let r = full_record(text("registered"));
    assert_eq!(get_time(&r, TimeField::Start), s("20240304T093000"));
    assert_eq!(get_time(&r, TimeField::End), s("20240304T110000"));
    assert_eq!(naive_to_compact("2024-03-04 09:30:00"), s("20240304T093000"));
}

#[test]
fn malformed_or_missing_time_fails() {
    let mut r = full_record(text("registered"));
    r.start = s("04/03/2024");
    assert_eq!(get_time(&r, TimeField::Start), None);
    r.end = None;
    assert_eq!(get_time(&r, TimeField::End), None);
    assert_eq!(naive_to_compact("2024-02-30 10:00:00"), None);
}

#[test]
fn parsed_time_reads_each_field() {
    let t = parse_record_time("2024-03-04 09:30:05").unwrap();
    assert_eq!(
        t,
        NaiveStamp { year: 2024, month: 3, day: 4, hour: 9, minute: 30, second: 5, nano: 0 }
    );
    assert_eq!(to_compact(&t), "20240304T093005");
    assert_eq!(render_time(Some(t)), s("20240304T093005"));
    assert_eq!(render_time(None), None);
}

#[test]
fn compact_form_pads_small_years() {
    let t = NaiveStamp { year: 7, month: 1, day: 2, hour: 3, minute: 4, second: 5, nano: 0 };
    assert_eq!(to_compact(&t), "00070102T030405");
}

#[test]
fn title_and_reference_url() {
    let mut r = full_record(text("registered"));
    assert_eq!(get_title(&r), s("Kick-off"));
    assert_eq!(
        construct_intra_url(&r),
        s("https://intra.epitech.eu/module/2023/B-INN-000/PAR-0-1/acti-123")
    );
    r.codeinstance = None;
    assert_eq!(construct_intra_url(&r), None);
}

#[test]
fn projection_of_registered_record() {
    let r = full_record(text("registered"));
    let e = project_with(&r, "id-1".to_string(), "20240101T000000".to_string())
        .unwrap()
        .unwrap();
    let url = "https://intra.epitech.eu/module/2023/B-INN-000/PAR-0-1/acti-123".to_string();
    assert_eq!(
        e,
        CalendarEvent {
            uid: "id-1".to_string(),
            created: "20240101T000000".to_string(),
            title: "Kick-off".to_string(),
            start: "20240304T093000".to_string(),
            end: "20240304T110000".to_string(),
            location: "Campus A → Room 101".to_string(),
            url: url.clone(),
            description: Some(url),
        }
    );
}

#[test]
fn projection_gives_fresh_identifiers() {
    let r = full_record(text("present"));
    let a = project(&r).unwrap().unwrap();
    let b = project(&r).unwrap().unwrap();
    assert_eq!(a.uid.len(), 36);
    assert_ne!(a.uid, b.uid);
    assert_eq!(a.created.len(), 15);
}

#[test]
fn projection_skips_unregistered_record() {
    let mut r = full_record(text("absent"));
    r.acti_title = None;
    assert_eq!(project(&r), Ok(None));
}

#[test]
fn projection_errors_in_order() {
    let mut r = full_record(RegisteredField::Flag(true));
    assert_eq!(project(&r), Err(ProjectionError::AmbiguousRegistration));
    r.event_registered = text("registered");
    r.acti_title = None;
    r.start = None;
    assert_eq!(project(&r), Err(ProjectionError::MissingTitle));
    r.acti_title = s("T");
    assert_eq!(project(&r), Err(ProjectionError::MissingStart));
    r.start = s("2024-03-04 09:30:00");
    r.end = s("tomorrow");
    assert_eq!(project(&r), Err(ProjectionError::MissingEnd));
    r.end = s("2024-03-04 10:30:00");
    r.codeacti = None;
    assert_eq!(project(&r), Err(ProjectionError::MissingReference));
}

#[test]
fn error_messages_name_the_field() {
    assert_eq!(
        ProjectionError::MissingTitle.message(),
        "could not get title of an event"
    );
    let all = [
        ProjectionError::AmbiguousRegistration,
        ProjectionError::MissingTitle,
        ProjectionError::MissingStart,
        ProjectionError::MissingEnd,
        ProjectionError::MissingReference,
    ];
    for (i, a) in all.iter().enumerate() {
        for b in all[i + 1..].iter() {
            assert_ne!(a.message(), b.message());
        }
    }
}

#[test]
fn assembly_keeps_order_and_skips() {
    let mut second = full_record(text("present"));
    second.acti_title = s("Second");
    let rs = vec![
        full_record(text("registered")),
        full_record(RegisteredField::Flag(false)),
        second,
    ];
    let doc = assemble(&rs).unwrap();
    assert_eq!(doc.version, "2.0");
    assert_eq!(doc.product_id, "-//epitech-ics//NONSGML Epitech Calendar//EN");
    assert_eq!(doc.time_zone, "Europe/Paris");
    assert_eq!(doc.events.len(), 2);
    assert_eq!(doc.events[0].title, "Kick-off");
    assert_eq!(doc.events[1].title, "Second");
}

#[test]
fn assembly_stops_at_first_failure() {
    let mut bad_end = full_record(text("registered"));
    bad_end.end = None;
    let rs = vec![
        full_record(text("registered")),
        bad_end,
        full_record(RegisteredField::Missing),
    ];
    assert_eq!(assemble(&rs), Err(ProjectionError::MissingEnd));
}

#[test]
fn empty_document_is_header_only() {
    let text = serialize(&CalendarDocument::new());
    assert_eq!(
        text,
        "BEGIN:VCALENDAR\r\nVERSION:2.0\r\nPRODID:-//epitech-ics//NONSGML Epitech Calendar//EN\r\nX-WR-TIMEZONE:Europe/Paris\r\nEND:VCALENDAR\r\n"
    );
}

#[test]
fn serialized_event_lines() {
    let mut doc = CalendarDocument::new();
    let r = full_record(text("registered"));
    doc.events.push(project_with(&r, "u".to_string(), "c".to_string()).unwrap().unwrap());
    let out = serialize(&doc);
    assert!(out.contains("BEGIN:VEVENT\r\nUID:u\r\nDTSTAMP:c\r\nSUMMARY:Kick-off\r\nDTSTART:20240304T093000\r\nDTEND:20240304T110000\r\n"));
    assert!(out.contains("LOCATION:Campus A → Room 101\r\n"));
    assert!(out.contains("URL:https://intra.epitech.eu/module/2023/B-INN-000/PAR-0-1/acti-123\r\n"));
    assert!(out.contains("DESCRIPTION:https://intra.epitech.eu/module/"));
    assert!(out.ends_with("END:VEVENT\r\nEND:VCALENDAR\r\n"));
}

#[test]
fn serializer_escapes_text_values() {
    let mut doc = CalendarDocument::new();
    let mut r = full_record(text("registered"));
    r.acti_title = s("Talk, part 1; intro\nmore");
    doc.events.push(project_with(&r, "u".to_string(), "c".to_string()).unwrap().unwrap());
    let out = serialize(&doc);
    assert!(out.contains("SUMMARY:Talk\\, part 1\\; intro\\nmore\r\n"));
}

#[test]
fn serializing_twice_gives_the_same_bytes() {
    let rs = vec![full_record(text("registered")), full_record(text("present"))];
    let doc = assemble(&rs).unwrap();
    assert_eq!(serialize(&doc), serialize(&doc));
}

#[test]
fn feed_with_one_registered_record() {
    let resp = weekly(FetchOutcome::Records(vec![full_record(text("registered"))]));
    assert_eq!(resp.status, 200);
    assert_eq!(resp.content_type, s("text/calendar; charset=utf-8"));
    assert_eq!(resp.body.matches("BEGIN:VEVENT").count(), 1);
    assert!(resp.body.contains("SUMMARY:Kick-off\r\n"));
    assert!(resp.body.contains("DTSTART:20240304T093000\r\n"));
    assert!(resp.body.contains("LOCATION:Campus A → Room 101\r\n"));
}

#[test]
fn feed_with_one_absent_record_is_empty_calendar() {
    let resp = weekly(FetchOutcome::Records(vec![full_record(text("absent"))]));
    assert_eq!(resp.status, 200);
    assert_eq!(resp.body, serialize(&CalendarDocument::new()));
    assert!(!resp.body.contains("BEGIN:VEVENT"));
}

#[test]
fn feed_with_untitled_record_fails() {
    let mut r = full_record(text("registered"));
    r.acti_title = None;
    let resp = weekly(FetchOutcome::Records(vec![full_record(text("registered")), r]));
    assert_eq!(resp.status, 500);
    assert_eq!(resp.content_type, None);
    assert_eq!(resp.body, "could not get title of an event");
}

#[test]
fn feed_upstream_outcomes() {
    let empty = weekly(FetchOutcome::Empty);
    assert_eq!((empty.status, empty.body.as_str()), (200, ""));
    let failed = weekly(FetchOutcome::Failure("timed out".to_string()));
    assert_eq!((failed.status, failed.body.as_str()), (500, "timed out"));
}

#[test]
fn token_rejections() {
    let none = token_rejection(None).unwrap();
    assert_eq!((none.status, none.body.as_str()), (400, "no autologin provided"));
    let bad = token_rejection(Some("short")).unwrap();
    assert_eq!((bad.status, bad.body.as_str()), (400, "invalid autologin provided"));
    assert_eq!(token_rejection(Some(TOKEN)), None);
}

#[test]
fn query_url_embeds_token_and_dates() {
    assert_eq!(
        query_url("tok", "2024-01-01", "2024-01-15"),
        "https://intra.epitech.eu/auth-tok/planning/load?format=json&start=2024-01-01&end=2024-01-15"
    );
}
