use kal_core::calendar::Calendar;
use kal_core::error::DomainError;
use kal_core::event::Event;
use kal_core::instant::Instant;
use kal_core::value_objects::{CalendarId, EventColor, TimeRange};

fn at(secs: i64) -> Instant {
    Instant::from_unix(secs, 0).unwrap()
}

fn range(start: i64, end: i64) -> TimeRange {
    TimeRange::new(at(start), at(end)).unwrap()
}

#[test]
fn calendar_new_stamps_both_times() {
    let c = Calendar::new("Work".to_string(), None, at(10)).unwrap();
    assert_eq!(c.name(), "Work");
    assert_eq!(c.description(), &None);
    assert!(!c.is_archived());
    assert_eq!(c.created_at(), at(10));
    assert_eq!(c.updated_at(), at(10));
}

#[test]
fn calendar_with_empty_name_is_refused() {
    assert_eq!(
        Calendar::new(String::new(), Some("d".to_string()), at(1)).err(),
        Some(DomainError::EmptyName)
    );
    assert_eq!(
        Calendar::with_id(CalendarId::new(), String::new(), None, true, at(1), at(2)).err(),
        Some(DomainError::EmptyName)
    );
}

#[test]
fn calendar_mutations_restamp() {
    let mut c = Calendar::new("Work".to_string(), None, at(10)).unwrap();
    c.archive(at(20));
    assert!(c.is_archived());
    assert_eq!(c.updated_at(), at(20));
    c.unarchive(at(30));
    assert!(!c.is_archived());
    assert_eq!(c.updated_at(), at(30));
    c.update_description(Some("team".to_string()), at(40));
    assert_eq!(c.description(), &Some("team".to_string()));
    assert_eq!(c.updated_at(), at(40));
    assert_eq!(c.update_name("Home".to_string(), at(50)), Ok(()));
    assert_eq!(c.name(), "Home");
    assert_eq!(c.updated_at(), at(50));
    assert_eq!(c.created_at(), at(10));
}

#[test]
fn calendar_rename_to_empty_is_refused() {
    let mut c = Calendar::new("Work".to_string(), None, at(10)).unwrap();
    assert_eq!(c.update_name(String::new(), at(20)), Err(DomainError::EmptyName));
    assert_eq!(c.name(), "Work");
    assert_eq!(c.updated_at(), at(10));
}

#[test]
fn event_with_empty_title_is_refused() {
    let r = Event::new(CalendarId::new(), String::new(), None, range(0, 10), EventColor(1), false, at(0));
    assert_eq!(r.err(), Some(DomainError::EmptyTitle));
}

#[test]
fn event_mutations_restamp() {
    let mut e =
        Event::new(CalendarId::new(), "Standup".to_string(), None, range(0, 10), EventColor(1), false, at(5))
            .unwrap();
    assert!(!e.is_cancelled());
    e.cancel(at(6));
    assert!(e.is_cancelled());
    assert_eq!(e.updated_at(), at(6));
    e.restore(at(7));
    assert!(!e.is_cancelled());
    e.update_time_range(range(20, 30), at(8));
    assert_eq!(e.time_range(), range(20, 30));
    e.update_color(EventColor(9), at(9));
    assert_eq!(e.color(), EventColor(9));
    e.update_description(Some("daily".to_string()), at(10));
    assert_eq!(e.description(), &Some("daily".to_string()));
    assert_eq!(e.update_title("Sync".to_string(), at(11)), Ok(()));
    assert_eq!(e.title(), "Sync");
    assert_eq!(e.updated_at(), at(11));
    assert_eq!(e.created_at(), at(5));
}

#[test]
fn event_update_title_to_empty_is_refused() {
    let mut e =
        Event::new(CalendarId::new(), "Standup".to_string(), None, range(0, 10), EventColor(1), false, at(5))
            .unwrap();
    assert_eq!(e.update_title(String::new(), at(6)), Err(DomainError::EmptyTitle));
    assert_eq!(e.title(), "Standup");
    assert_eq!(e.updated_at(), at(5));
}

#[test]
fn standup_and_review_overlap_until_standup_is_cancelled() {
    let day = 1704067200;
    let work = Calendar::new("Work".to_string(), None, at(day)).unwrap();
    let mut standup = Event::new(
        work.calendar_id(),
        "Standup".to_string(),
        None,
        range(day + 9 * 3600, day + 9 * 3600 + 15 * 60),
        EventColor(0),
        false,
        at(day),
    )
    .unwrap();
    let review = Event::new(
        work.calendar_id(),
        "Review".to_string(),
        None,
        range(day + 9 * 3600 + 10 * 60, day + 9 * 3600 + 30 * 60),
        EventColor(0),
        false,
        at(day),
    )
    .unwrap();
    assert!(standup.overlaps_with(&review));
    assert!(review.overlaps_with(&standup));
    standup.cancel(at(day + 60));
    assert!(!standup.overlaps_with(&review));
    assert!(!review.overlaps_with(&standup));
}

#[test]
fn events_of_different_calendars_do_not_clash() {
    let a = Event::new(CalendarId::from_u128(1), "A".to_string(), None, range(0, 10), EventColor(0), false, at(0))
        .unwrap();
    let b = Event::new(CalendarId::from_u128(2), "B".to_string(), None, range(0, 10), EventColor(0), false, at(0))
        .unwrap();
    assert!(!a.overlaps_with(&b));
}

#[test]
fn new_entities_get_random_identifiers() {
    let c = Calendar::new("Work".to_string(), None, at(0)).unwrap();
    let e = Event::new(c.calendar_id(), "A".to_string(), None, range(0, 10), EventColor(0), false, at(0)).unwrap();
    for v in [c.calendar_id().as_u128(), e.event_id().as_u128()] {
        assert_eq!((v >> 76) & 0xf, 4);
        assert_eq!((v >> 62) & 0x3, 2);
    }
}
