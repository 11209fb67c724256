use kal_core::error::{DomainError, IdFormatError};
use kal_core::instant::Instant;
use kal_core::value_objects::{CalendarId, EventColor, EventId, Frequency, TimeRange};

fn at(secs: i64) -> Instant {
    Instant::from_unix(secs, 0).unwrap()
}

fn range(start: i64, end: i64) -> TimeRange {
    TimeRange::new(at(start), at(end)).unwrap()
}

#[test]
fn time_range_accepts_start_before_end() {
    let r = TimeRange::new(at(100), at(200)).unwrap();
    assert_eq!(r.starts_at(), at(100));
    assert_eq!(r.ends_at(), at(200));
}

#[test]
fn time_range_rejects_equal_or_reversed_bounds() {
    assert_eq!(TimeRange::new(at(100), at(100)), Err(DomainError::InvalidTimeRange));
    assert_eq!(TimeRange::new(at(200), at(100)), Err(DomainError::InvalidTimeRange));
}

#[test]
fn time_range_orders_by_nanoseconds_within_a_second() {
    let a = Instant::from_unix(100, 5).unwrap();
    let b = Instant::from_unix(100, 6).unwrap();
    assert!(TimeRange::new(a, b).is_ok());
    assert!(TimeRange::new(b, a).is_err());
}

#[test]
fn overlap_is_symmetric() {
    let a = range(0, 100);
    let b = range(50, 150);
    let c = range(200, 300);
    assert!(a.overlaps(&b));
    assert!(b.overlaps(&a));
    assert!(!a.overlaps(&c));
    assert!(!c.overlaps(&a));
}

#[test]
fn touching_ranges_do_not_overlap() {
    let a = range(0, 100);
    let b = range(100, 200);
    assert!(!a.overlaps(&b));
    assert!(!b.overlaps(&a));
}

#[test]
fn ranges_sharing_a_sub_interval_overlap() {
    let a = range(0, 100);
    assert!(a.overlaps(&range(99, 101)));
    assert!(a.overlaps(&range(10, 20)));
    assert!(a.overlaps(&range(-50, 1)));
    assert!(a.overlaps(&a));
}

#[test]
fn duration_is_in_nanoseconds() {
    assert_eq!(range(0, 90).duration(), 90_000_000_000);
    let r = TimeRange::new(Instant::from_unix(10, 999_999_999).unwrap(), Instant::from_unix(11, 1).unwrap())
        .unwrap();
    assert_eq!(r.duration(), 2);
}

#[test]
fn instant_rejects_values_outside_four_digit_years() {
    assert!(Instant::from_unix(253402300799, 0).is_some());
    assert!(Instant::from_unix(253402300800, 0).is_none());
    assert!(Instant::from_unix(-62167219200, 0).is_some());
    assert!(Instant::from_unix(-62167219201, 0).is_none());
    assert!(Instant::from_unix(0, 1_000_000_000).is_none());
}

#[test]
fn instant_text_round_trip() {
    let t = at(1704103200);
    assert_eq!(t.to_rfc3339(), "2024-01-01T10:00:00+00:00");
    assert_eq!(Instant::parse_rfc3339("2024-01-01T10:00:00+00:00"), Some(t));
    assert_eq!(Instant::parse_rfc3339("2024-01-01T12:00:00+02:00"), Some(t));
    assert_eq!(Instant::parse_rfc3339("2024-01-01T10:00:00Z"), Some(t));
    let fine = Instant::from_unix(1704103200, 123_000_000).unwrap();
    assert_eq!(fine.to_rfc3339(), "2024-01-01T10:00:00.123+00:00");
    assert_eq!(Instant::parse_rfc3339(&fine.to_rfc3339()), Some(fine));
    assert_eq!(Instant::parse_rfc3339("yesterday"), None);
}

#[test]
fn frequency_text_forms() {
    assert_eq!(Frequency::Daily.to_string(), "DAILY");
    assert_eq!(Frequency::Weekly.to_string(), "WEEKLY");
    assert_eq!(Frequency::Monthly.to_string(), "MONTHLY");
    assert_eq!(Frequency::Yearly.to_string(), "YEARLY");
}

#[test]
fn frequency_parse_ignores_case() {
    assert_eq!(Frequency::from_str("WEEKLY"), Ok(Frequency::Weekly));
    assert_eq!(Frequency::from_str("weekly"), Ok(Frequency::Weekly));
    assert_eq!(Frequency::from_str("Monthly"), Ok(Frequency::Monthly));
    assert_eq!(Frequency::from_str("dAiLy"), Ok(Frequency::Daily));
    assert_eq!(Frequency::from_str("yearly"), Ok(Frequency::Yearly));
}

#[test]
fn frequency_parse_rejects_other_words() {
    assert_eq!(Frequency::from_str("fortnightly"), Err(DomainError::InvalidFrequency));
    assert_eq!(Frequency::from_str(""), Err(DomainError::InvalidFrequency));
    assert_eq!(Frequency::from_canonical("weekly"), Err(DomainError::InvalidFrequency));
}

#[test]
fn identifiers_round_trip_through_text() {
    let id = CalendarId::from_u128(0x0123456789abcdef0123456789abcdef);
    let text = id.to_string();
    assert_eq!(text, "01234567-89ab-cdef-0123-456789abcdef");
    assert_eq!(CalendarId::from_str(&text), Ok(id));
    let eid = EventId::from_u128(42);
    assert_eq!(EventId::from_str(&eid.to_string()), Ok(eid));
    assert_eq!(eid.as_u128(), 42);
}

#[test]
fn identifier_parse_rejects_other_text() {
    assert_eq!(
        CalendarId::from_str("not-an-id"),
        Err(IdFormatError { text: "not-an-id".to_string() })
    );
    assert!(EventId::from_str("").is_err());
}

#[test]
fn fresh_identifiers_differ() {
    assert_ne!(CalendarId::new(), CalendarId::new());
    assert_ne!(EventId::new(), EventId::new());
}

#[test]
fn color_converts_both_ways() {
    let c = EventColor::from(7u8);
    assert_eq!(c, EventColor(7));
    assert_eq!(u8::from(c), 7);
}

#[test]
fn clock_reads_a_recent_instant() {
    let now = Instant::now().unwrap();
    assert!(now.unix_secs() > 1704067200);
    assert!(now.subsec_nanos() < 1_000_000_000);
}

#[test]
fn fresh_identifiers_carry_version_four_marks() {
    for v in [CalendarId::new().as_u128(), EventId::new().as_u128()] {
        assert_eq!((v >> 76) & 0xf, 4);
        assert_eq!((v >> 62) & 0x3, 2);
    }
}
