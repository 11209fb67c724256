use kal_core::calendar::Calendar;
use kal_core::error::{DomainError, MapperError, RepositoryError};
use kal_core::event::Event;
use kal_core::instant::Instant;
use kal_core::mappers::{parse_date, parse_flag, CalendarMapper, EventMapper, RecurrenceMapper};
use kal_core::models::{CalendarModel, EventModel, RecurrenceExceptionModel, RecurrenceModel};
use kal_core::recurrence::{RecurrenceException, RecurrenceRule, RecurringEvent};
use kal_core::value_objects::{CalendarId, EventColor, EventId, Frequency, TimeRange};

const JAN_1: i64 = 1704067200;

fn at(secs: i64) -> Instant {
    Instant::from_unix(secs, 0).unwrap()
}

fn range(start: i64, end: i64) -> TimeRange {
    TimeRange::new(at(start), at(end)).unwrap()
}

fn same_calendar(a: &Calendar, b: &Calendar) {
    assert_eq!(a.calendar_id(), b.calendar_id());
    assert_eq!(a.name(), b.name());
    assert_eq!(a.description(), b.description());
    assert_eq!(a.is_archived(), b.is_archived());
    assert_eq!(a.created_at(), b.created_at());
    assert_eq!(a.updated_at(), b.updated_at());
}

fn same_event(a: &Event, b: &Event) {
    assert_eq!(a.event_id(), b.event_id());
    assert_eq!(a.calendar_id(), b.calendar_id());
    assert_eq!(a.title(), b.title());
    assert_eq!(a.description(), b.description());
    assert_eq!(a.time_range(), b.time_range());
    assert_eq!(a.color(), b.color());
    assert_eq!(a.is_all_day(), b.is_all_day());
    assert_eq!(a.is_cancelled(), b.is_cancelled());
    assert_eq!(a.created_at(), b.created_at());
    assert_eq!(a.updated_at(), b.updated_at());
}

fn sorted_exceptions(s: &RecurringEvent) -> Vec<RecurrenceException> {
    let mut v = s.exceptions().clone();
    v.sort_by_key(|e| (e.original_starts_at().unix_secs(), e.original_starts_at().subsec_nanos()));
    v
}

fn same_series(a: &RecurringEvent, b: &RecurringEvent) {
    assert_eq!(a.id(), b.id());
    assert_eq!(a.calendar_id(), b.calendar_id());
    assert_eq!(a.title(), b.title());
    assert_eq!(a.description(), b.description());
    assert_eq!(a.time_range(), b.time_range());
    assert_eq!(a.rule(), b.rule());
    assert_eq!(sorted_exceptions(a), sorted_exceptions(b));
    assert_eq!(a.color(), b.color());
    assert_eq!(a.is_all_day(), b.is_all_day());
    assert_eq!(a.is_cancelled(), b.is_cancelled());
    assert_eq!(a.created_at(), b.created_at());
    assert_eq!(a.updated_at(), b.updated_at());
}

fn calendar_row() -> CalendarModel {
    CalendarModel {
        id: "01234567-89ab-cdef-0123-456789abcdef".to_string(),
        name: "Work".to_string(),
        description: None,
        is_archived: 0,
        created_at: "2024-01-01T00:00:00+00:00".to_string(),
        updated_at: "2024-01-02T00:00:00+00:00".to_string(),
    }
}

fn event_row() -> EventModel {
    EventModel {
        id: "01234567-89ab-cdef-0123-456789abcdef".to_string(),
        calendar_id: "11111111-2222-3333-4444-555555555555".to_string(),
        title: "Standup".to_string(),
        description: Some("daily".to_string()),
        starts_at: "2024-01-01T09:00:00+00:00".to_string(),
        ends_at: "2024-01-01T09:15:00+00:00".to_string(),
        color: 4,
        is_all_day: 0,
        is_cancelled: 0,
        created_at: "2024-01-01T00:00:00+00:00".to_string(),
        updated_at: "2024-01-01T00:00:00+00:00".to_string(),
    }
}

fn series_row() -> RecurrenceModel {
    RecurrenceModel {
        id: "01234567-89ab-cdef-0123-456789abcdef".to_string(),
        calendar_id: "11111111-2222-3333-4444-555555555555".to_string(),
        title: "Planning".to_string(),
        description: None,
        starts_at: "2024-01-01T10:00:00Z".to_string(),
        ends_at: "2024-01-01T11:00:00Z".to_string(),
        frequency: "WEEKLY".to_string(),
        interval: 1,
        until: None,
        color: 0,
        is_all_day: 0,
        is_cancelled: 0,
        created_at: "2024-01-01T00:00:00Z".to_string(),
        updated_at: "2024-01-01T00:00:00Z".to_string(),
    }
}

fn exception_row() -> RecurrenceExceptionModel {
    RecurrenceExceptionModel {
        recurrence_id: "01234567-89ab-cdef-0123-456789abcdef".to_string(),
        original_starts_at: "2024-01-08T10:00:00Z".to_string(),
        new_starts_at: None,
        new_ends_at: None,
        is_cancelled: 1,
    }
}

#[test]
fn calendar_with_no_description_round_trips() {
    let mut c = Calendar::new("Work".to_string(), None, at(JAN_1)).unwrap();
    c.archive(at(JAN_1 + 5));
    let row = CalendarMapper::to_model(&c);
    assert_eq!(row.description, None);
    assert_eq!(row.is_archived, 1);
    assert_eq!(row.created_at, "2024-01-01T00:00:00+00:00");
    assert_eq!(row.id, c.calendar_id().to_string());
    let back = CalendarMapper::to_domain(row).unwrap();
    same_calendar(&c, &back);
}

#[test]
fn all_day_cancelled_event_round_trips() {
    let mut e = Event::new(
        CalendarId::new(),
        "Offsite".to_string(),
        Some("whole team".to_string()),
        range(JAN_1, JAN_1 + 86400),
        EventColor(200),
        true,
        at(JAN_1),
    )
    .unwrap();
    e.cancel(Instant::from_unix(JAN_1 + 7, 250_000_000).unwrap());
    let row = EventMapper::to_model(&e);
    assert_eq!(row.is_all_day, 1);
    assert_eq!(row.is_cancelled, 1);
    assert_eq!(row.color, 200);
    assert_eq!(row.updated_at, "2024-01-01T00:00:07.250+00:00");
    let back = EventMapper::to_domain(row).unwrap();
    same_event(&e, &back);
}

#[test]
fn series_without_exceptions_round_trips() {
    let rule = RecurrenceRule::new(Frequency::Monthly, 3, Some(at(JAN_1 + 365 * 86400))).unwrap();
    let s = RecurringEvent::new(
        CalendarId::new(),
        "Review".to_string(),
        Some("quarterly".to_string()),
        range(JAN_1, JAN_1 + 3600),
        rule,
        EventColor(1),
        false,
        at(JAN_1),
    );
    let row = RecurrenceMapper::to_model(&s);
    assert_eq!(row.frequency, "MONTHLY");
    assert_eq!(row.interval, 3);
    assert_eq!(row.until, Some("2024-12-31T00:00:00+00:00".to_string()));
    let rows = RecurrenceMapper::exceptions_to_model(&s);
    assert!(rows.is_empty());
    let back = RecurrenceMapper::to_domain(row, rows).unwrap();
    same_series(&s, &back);
}

#[test]
fn series_with_cancelled_and_rescheduled_exceptions_round_trips() {
    let rule = RecurrenceRule::new(Frequency::Weekly, 1, None).unwrap();
    let mut s = RecurringEvent::new(
        CalendarId::new(),
        "Planning".to_string(),
        None,
        range(JAN_1 + 36000, JAN_1 + 39600),
        rule,
        EventColor(3),
        false,
        at(JAN_1),
    );
    s.cancel_occurrence(at(JAN_1 + 7 * 86400 + 36000), at(JAN_1 + 1));
    s.reschedule_occurrence(
        at(JAN_1 + 14 * 86400 + 36000),
        range(JAN_1 + 14 * 86400 + 50400, JAN_1 + 14 * 86400 + 54000),
        at(JAN_1 + 2),
    );
    let row = RecurrenceMapper::to_model(&s);
    let rows = RecurrenceMapper::exceptions_to_model(&s);
    assert_eq!(rows.len(), 2);
    for r in &rows {
        assert_eq!(r.recurrence_id, s.id().to_string());
    }
    let back = RecurrenceMapper::to_domain(row, rows).unwrap();
    same_series(&s, &back);
}

#[test]
fn exception_rows_describe_their_modification() {
    let id = EventId::from_u128(1);
    let c = RecurrenceMapper::exception_to_model(&RecurrenceException::cancelled(at(JAN_1)), &id);
    assert_eq!(c.is_cancelled, 1);
    assert_eq!(c.new_starts_at, None);
    assert_eq!(c.original_starts_at, "2024-01-01T00:00:00+00:00");
    assert_eq!(c.recurrence_id, "00000000-0000-0000-0000-000000000001");
    let r = RecurrenceMapper::exception_to_model(
        &RecurrenceException::rescheduled(at(JAN_1), range(JAN_1 + 60, JAN_1 + 120)),
        &id,
    );
    assert_eq!(r.is_cancelled, 0);
    assert_eq!(r.new_starts_at, Some("2024-01-01T00:01:00+00:00".to_string()));
    assert_eq!(r.new_ends_at, Some("2024-01-01T00:02:00+00:00".to_string()));
}

#[test]
fn rows_read_with_any_offset_and_case() {
    let mut row = series_row();
    row.frequency = "weekly".to_string();
    row.starts_at = "2024-01-01T12:00:00+02:00".to_string();
    let s = RecurrenceMapper::to_domain(row, vec![exception_row()]).unwrap();
    assert_eq!(s.rule().frequency(), Frequency::Weekly);
    assert_eq!(s.time_range().starts_at(), at(JAN_1 + 36000));
    assert_eq!(s.exceptions().len(), 1);
}

#[test]
fn invalid_identifier_carries_the_text() {
    let mut row = calendar_row();
    row.id = "nope".to_string();
    assert_eq!(CalendarMapper::to_domain(row).err(), Some(MapperError::InvalidId("nope".to_string())));
    let mut row = event_row();
    row.calendar_id = "bad".to_string();
    assert_eq!(EventMapper::to_domain(row).err(), Some(MapperError::InvalidId("bad".to_string())));
}

#[test]
fn invalid_timestamp_carries_the_text() {
    let mut row = calendar_row();
    row.updated_at = "2024-13-01T00:00:00Z".to_string();
    assert_eq!(
        CalendarMapper::to_domain(row).err(),
        Some(MapperError::InvalidDate("2024-13-01T00:00:00Z".to_string()))
    );
    assert_eq!(parse_date("soon"), Err(MapperError::InvalidDate("soon".to_string())));
}

#[test]
fn flags_other_than_zero_or_one_are_refused() {
    assert_eq!(parse_flag(0), Ok(false));
    assert_eq!(parse_flag(1), Ok(true));
    assert!(matches!(parse_flag(2), Err(MapperError::InvalidData(_))));
    let mut row = calendar_row();
    row.is_archived = 2;
    assert!(matches!(CalendarMapper::to_domain(row), Err(MapperError::InvalidData(_))));
    let mut row = event_row();
    row.is_cancelled = -1;
    assert!(matches!(EventMapper::to_domain(row), Err(MapperError::InvalidData(_))));
}

#[test]
fn domain_rules_surface_as_wrapped_errors() {
    let mut row = calendar_row();
    row.name = String::new();
    assert_eq!(CalendarMapper::to_domain(row).err(), Some(MapperError::Domain(DomainError::EmptyName)));
    let mut row = event_row();
    row.title = String::new();
    assert_eq!(EventMapper::to_domain(row).err(), Some(MapperError::Domain(DomainError::EmptyTitle)));
    let mut row = event_row();
    row.ends_at = row.starts_at.clone();
    assert_eq!(EventMapper::to_domain(row).err(), Some(MapperError::Domain(DomainError::InvalidTimeRange)));
    let mut row = event_row();
    row.color = 256;
    assert_eq!(EventMapper::to_domain(row).err(), Some(MapperError::Domain(DomainError::InvalidColor)));
    let mut row = series_row();
    row.frequency = "HOURLY".to_string();
    assert_eq!(
        RecurrenceMapper::to_domain(row, vec![]).err(),
        Some(MapperError::Domain(DomainError::InvalidFrequency))
    );
    let mut row = series_row();
    row.interval = 0;
    assert_eq!(
        RecurrenceMapper::to_domain(row, vec![]).err(),
        Some(MapperError::Domain(DomainError::InvalidInterval))
    );
}

#[test]
fn malformed_exception_row_is_refused() {
    let mut x = exception_row();
    x.is_cancelled = 0;
    assert!(matches!(RecurrenceMapper::exception_to_domain(&x), Err(MapperError::InvalidData(_))));
    x.new_starts_at = Some("2024-01-08T12:00:00Z".to_string());
    assert!(matches!(
        RecurrenceMapper::to_domain(series_row(), vec![exception_row(), x.clone()]),
        Err(MapperError::InvalidData(_))
    ));
    x.new_ends_at = Some("2024-01-08T13:00:00Z".to_string());
    let e = RecurrenceMapper::exception_to_domain(&x).unwrap();
    assert_eq!(e.new_time_range(), Some(range(JAN_1 + 7 * 86400 + 43200, JAN_1 + 7 * 86400 + 46800)));
    x.is_cancelled = 5;
    assert!(matches!(RecurrenceMapper::exception_to_domain(&x), Err(MapperError::InvalidData(_))));
}

#[test]
fn later_exception_row_for_the_same_start_wins() {
    let mut moved = exception_row();
    moved.is_cancelled = 0;
    moved.new_starts_at = Some("2024-01-08T12:00:00Z".to_string());
    moved.new_ends_at = Some("2024-01-08T13:00:00Z".to_string());
    let s = RecurrenceMapper::to_domain(series_row(), vec![exception_row(), moved]).unwrap();
    assert_eq!(s.exceptions().len(), 1);
    assert_eq!(
        s.exceptions()[0].new_time_range(),
        Some(range(JAN_1 + 7 * 86400 + 43200, JAN_1 + 7 * 86400 + 46800))
    );
}

#[test]
fn error_messages() {
    assert_eq!(DomainError::EmptyName.message(), "Name cannot be empty");
    assert_eq!(MapperError::InvalidId("x".to_string()).message(), "Invalid ID: x");
    assert_eq!(
        MapperError::Domain(DomainError::InvalidInterval).message(),
        "Invalid interval: must be greater than 0"
    );
    assert_eq!(RepositoryError::DatabaseError("locked".to_string()).message(), "Database error: locked");
    assert_eq!(
        RepositoryError::from_mapper(&MapperError::InvalidDate("x".to_string())),
        RepositoryError::DatabaseError("Invalid datetime: x".to_string())
    );
}
