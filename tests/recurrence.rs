use kal_core::error::DomainError;
use kal_core::instant::Instant;
use kal_core::mappers::RecurrenceMapper;
use kal_core::recurrence::{
    ExceptionModification, OccurrenceState, RecurrenceException, RecurrenceRule, RecurringEvent,
};
use kal_core::value_objects::{CalendarId, EventColor, Frequency, TimeRange};

const JAN_1: i64 = 1704067200;
const HOUR: i64 = 3600;
const DAY: i64 = 86400;

fn at(secs: i64) -> Instant {
    Instant::from_unix(secs, 0).unwrap()
}

fn range(start: i64, end: i64) -> TimeRange {
    TimeRange::new(at(start), at(end)).unwrap()
}

fn weekly_standup() -> RecurringEvent {
    let rule = RecurrenceRule::new(Frequency::Weekly, 1, None).unwrap();
    RecurringEvent::new(
        CalendarId::new(),
        "Planning".to_string(),
        None,
        range(JAN_1 + 10 * HOUR, JAN_1 + 11 * HOUR),
        rule,
        EventColor(3),
        false,
        at(JAN_1),
    )
}

#[test]
fn rule_with_zero_interval_is_refused() {
    assert_eq!(RecurrenceRule::new(Frequency::Daily, 0, None), Err(DomainError::InvalidInterval));
    let rule = RecurrenceRule::new(Frequency::Monthly, 2, Some(at(JAN_1))).unwrap();
    assert_eq!(rule.frequency(), Frequency::Monthly);
    assert_eq!(rule.interval(), 2);
    assert_eq!(rule.until(), Some(at(JAN_1)));
}

#[test]
fn exception_constructors() {
    let c = RecurrenceException::cancelled(at(5));
    assert_eq!(c.original_starts_at(), at(5));
    assert_eq!(c.modification(), ExceptionModification::Cancelled);
    assert_eq!(c.new_time_range(), None);
    let r = RecurrenceException::rescheduled(at(5), range(10, 20));
    assert_eq!(r.new_time_range(), Some(range(10, 20)));
}

#[test]
fn new_series_has_no_exceptions() {
    let s = weekly_standup();
    assert!(s.exceptions().is_empty());
    assert!(!s.is_cancelled());
    assert_eq!(s.created_at(), at(JAN_1));
    assert_eq!(s.updated_at(), at(JAN_1));
}

#[test]
fn adding_an_exception_for_the_same_start_replaces_it() {
    let mut s = weekly_standup();
    let key = at(JAN_1 + 7 * DAY + 10 * HOUR);
    s.cancel_occurrence(key, at(JAN_1 + 1));
    s.reschedule_occurrence(key, range(JAN_1 + 7 * DAY + 12 * HOUR, JAN_1 + 7 * DAY + 13 * HOUR), at(JAN_1 + 2));
    assert_eq!(s.exceptions().len(), 1);
    assert_eq!(
        s.resolve_occurrence(key),
        OccurrenceState::Rescheduled(range(JAN_1 + 7 * DAY + 12 * HOUR, JAN_1 + 7 * DAY + 13 * HOUR))
    );
    assert_eq!(s.updated_at(), at(JAN_1 + 2));
}

#[test]
fn restoring_an_occurrence_removes_its_exception() {
    let mut s = weekly_standup();
    let key = at(JAN_1 + 7 * DAY + 10 * HOUR);
    s.cancel_occurrence(key, at(JAN_1 + 1));
    assert_eq!(s.resolve_occurrence(key), OccurrenceState::Cancelled);
    s.restore_occurrence(key, at(JAN_1 + 2));
    assert!(s.exceptions().is_empty());
    assert_eq!(s.resolve_occurrence(key), OccurrenceState::Unmodified);
    assert_eq!(s.updated_at(), at(JAN_1 + 2));
    s.add_exception(RecurrenceException::cancelled(key), at(JAN_1 + 3));
    s.remove_exception(key, at(JAN_1 + 4));
    assert!(s.exceptions().is_empty());
}

#[test]
fn series_cancellation_dominates_exceptions() {
    let mut s = weekly_standup();
    let moved = at(JAN_1 + 14 * DAY + 10 * HOUR);
    s.reschedule_occurrence(moved, range(JAN_1 + 14 * DAY + 14 * HOUR, JAN_1 + 14 * DAY + 15 * HOUR), at(JAN_1 + 1));
    s.cancel(at(JAN_1 + 2));
    assert!(s.is_cancelled());
    assert_eq!(s.resolve_occurrence(moved), OccurrenceState::Cancelled);
    assert_eq!(s.resolve_occurrence(at(JAN_1 + 10 * HOUR)), OccurrenceState::Cancelled);
    s.restore(at(JAN_1 + 3));
    assert!(!s.is_cancelled());
    assert_eq!(s.resolve_occurrence(at(JAN_1 + 10 * HOUR)), OccurrenceState::Unmodified);
}

#[test]
fn rescheduled_occurrence_uses_its_replacement_range() {
    let mut s = weekly_standup();
    let moved = at(JAN_1 + 14 * DAY + 10 * HOUR);
    let replacement = range(JAN_1 + 14 * DAY + 14 * HOUR, JAN_1 + 14 * DAY + 15 * HOUR);
    s.reschedule_occurrence(moved, replacement, at(JAN_1 + 1));
    assert_eq!(s.resolve_occurrence(moved), OccurrenceState::Rescheduled(replacement));
    assert_eq!(s.resolve_occurrence(at(JAN_1 + 7 * DAY + 10 * HOUR)), OccurrenceState::Unmodified);
    assert_eq!(s.resolve_occurrence(at(JAN_1 + 10 * HOUR)), OccurrenceState::Unmodified);
}

#[test]
fn weekly_series_with_two_exceptions_survives_storage() {
    let rule = RecurrenceRule::new(Frequency::Weekly, 1, None).unwrap();
    let mut s = RecurringEvent::new(
        CalendarId::new(),
        "Planning".to_string(),
        None,
        range(JAN_1 + 10 * HOUR, JAN_1 + 11 * HOUR),
        rule,
        EventColor(3),
        false,
        at(JAN_1),
    );
    let cancelled_key = at(JAN_1 + 7 * DAY + 10 * HOUR);
    let moved_key = at(JAN_1 + 14 * DAY + 10 * HOUR);
    let replacement = range(JAN_1 + 14 * DAY + 14 * HOUR, JAN_1 + 14 * DAY + 15 * HOUR);
    s.add_exception(RecurrenceException::cancelled(cancelled_key), at(JAN_1 + 1));
    s.add_exception(RecurrenceException::rescheduled(moved_key, replacement), at(JAN_1 + 2));

    let row = RecurrenceMapper::to_model(&s);
    let rows = RecurrenceMapper::exceptions_to_model(&s);
    assert_eq!(row.frequency, "WEEKLY");
    assert_eq!(row.starts_at, "2024-01-01T10:00:00+00:00");
    assert_eq!(rows.len(), 2);

    let back = RecurrenceMapper::to_domain(row, rows).unwrap();
    assert_eq!(back.exceptions().len(), 2);
    assert_eq!(back.resolve_occurrence(cancelled_key), OccurrenceState::Cancelled);
    assert_eq!(back.resolve_occurrence(moved_key), OccurrenceState::Rescheduled(replacement));
    let mut keys: Vec<Instant> = back.exceptions().iter().map(|e| e.original_starts_at()).collect();
    keys.sort_by_key(|k| k.unix_secs());
    assert_eq!(keys, vec![cancelled_key, moved_key]);
    assert_eq!(back.id(), s.id());
    assert_eq!(back.updated_at(), at(JAN_1 + 2));
    assert_eq!(back.rule(), s.rule());
}
