//! The codec between entities and their rows. Timestamps are RFC 3339 text,
//! identifiers their canonical text, flags the integers 0 and 1.
use vstd::prelude::*;
use vstd::string::*;

use crate::calendar::{copy_opt_text, opt_text, Calendar, CalendarView};
use crate::error::{DomainError, MapperError, MapperFault};
use crate::event::{Event, EventView};
use crate::instant::{earlier, representable, rfc3339_reading, rfc3339_text, Instant};
use crate::models::{CalendarModel, EventModel, RecurrenceExceptionModel, RecurrenceModel};
use crate::recurrence::{
    exception_map, keys_unique, ExceptionModification, RecurrenceException, RecurrenceRule,
    RecurringEvent, RecurringEventView,
};
use crate::value_objects::{
    uuid_reading, uuid_text, CalendarId, EventColor, EventId, Frequency, TimeRange,
};

verus! {

/// Whether the text is a timestamp that names a representable instant.
pub open spec fn date_readable(s: Seq<char>) -> bool {
    rfc3339_reading(s) matches Some(p) && representable(p.0 as int, p.1 as int)
}

/// Whether the text reads as the instant `t`.
pub open spec fn reads_as(s: Seq<char>, t: Instant) -> bool {
    rfc3339_reading(s) == Some(t@)
}

/// The text is the timestamp written for `t`, and reads back as `t`.
pub open spec fn stamped(s: Seq<char>, t: Instant) -> bool {
    &&& s == rfc3339_text(t@.0, t@.1)
    &&& rfc3339_reading(s) == Some(t@)
    &&& representable(t@.0 as int, t@.1 as int)
}

/// The stored integer of a flag.
pub open spec fn flag_value(b: bool) -> i64 {
    if b {
        1
    } else {
        0
    }
}

/// Whether a stored integer is a flag.
pub open spec fn flag_readable(v: i64) -> bool {
    v == 0 || v == 1
}

/// Reads a timestamp; `InvalidDate` with the text when it names no representable instant.
pub fn parse_date(s: &str) -> (r: Result<Instant, MapperError>)
    ensures
        r is Ok <==> date_readable(s@),
        r matches Ok(t) ==> reads_as(s@, t),
        r matches Err(e) ==> e@ == MapperFault::InvalidDate(s@),
{
    match Instant::parse_rfc3339(s) {
        Some(t) => Ok(t),
        None => Err(MapperError::InvalidDate(String::from_str(s))),
    }
}

/// Reads a stored flag: 0 is false, 1 is true, anything else is `InvalidData`.
pub fn parse_flag(v: i64) -> (r: Result<bool, MapperError>)
    ensures
        r is Ok <==> flag_readable(v),
        r matches Ok(b) ==> b == (v == 1),
        r matches Err(e) ==> e@ == MapperFault::InvalidData,
{
    if v == 0 {
        Ok(false)
    } else if v == 1 {
        Ok(true)
    } else {
        Err(MapperError::InvalidData(String::from_str("a flag must be 0 or 1")))
    }
}

/// The stored integer of a flag.
pub fn flag(b: bool) -> (r: i64)
    ensures
        r == flag_value(b),
{
    if b {
        1
    } else {
        0
    }
}

/// A calendar that is possible at all: its name is not empty.
pub open spec fn calendar_valid(c: CalendarView) -> bool {
    c.name.len() > 0
}

/// The row that stores calendar `c`.
pub open spec fn calendar_row_of(m: CalendarModel, c: CalendarView) -> bool {
    &&& m.id@ == uuid_text(c.id@)
    &&& uuid_reading(m.id@) == Some(c.id@)
    &&& m.name@ == c.name
    &&& opt_text(m.description) == c.description
    &&& m.is_archived == flag_value(c.is_archived)
    &&& stamped(m.created_at@, c.created_at)
    &&& stamped(m.updated_at@, c.updated_at)
}

/// Why a calendar row is refused, checking identifier, timestamps, flag and name in
/// that order; `None` for a row that reads.
pub open spec fn calendar_row_fault(m: CalendarModel) -> Option<MapperFault> {
    if uuid_reading(m.id@) is None {
        Some(MapperFault::InvalidId(m.id@))
    } else if !date_readable(m.created_at@) {
        Some(MapperFault::InvalidDate(m.created_at@))
    } else if !date_readable(m.updated_at@) {
        Some(MapperFault::InvalidDate(m.updated_at@))
    } else if !flag_readable(m.is_archived) {
        Some(MapperFault::InvalidData)
    } else if m.name@.len() == 0 {
        Some(MapperFault::Domain(DomainError::EmptyName))
    } else {
        None
    }
}

/// The calendar `c` is what the row reads as.
pub open spec fn calendar_row_decodes_to(m: CalendarModel, c: CalendarView) -> bool {
    &&& uuid_reading(m.id@) == Some(c.id@)
    &&& c.name == m.name@
    &&& c.description == opt_text(m.description)
    &&& c.is_archived == (m.is_archived == 1)
    &&& reads_as(m.created_at@, c.created_at)
    &&& reads_as(m.updated_at@, c.updated_at)
}

/// Converts calendars to rows and back.
pub struct CalendarMapper;

impl CalendarMapper {
    /// The calendar a row describes, or why the row is refused.
    pub fn to_domain(model: CalendarModel) -> (r: Result<Calendar, MapperError>)
        ensures
            r is Err <==> calendar_row_fault(model) is Some,
            r matches Err(e) ==> calendar_row_fault(model) == Some(e@),
            r matches Ok(c) ==> calendar_row_decodes_to(model, c@),
    {
        let id = match CalendarId::from_str(model.id.as_str()) {
            Ok(id) => id,
            Err(e) => return Err(MapperError::InvalidId(e.text)),
        };
        let created_at = match parse_date(model.created_at.as_str()) {
            Ok(t) => t,
            Err(e) => return Err(e),
        };
        let updated_at = match parse_date(model.updated_at.as_str()) {
            Ok(t) => t,
            Err(e) => return Err(e),
        };
        let is_archived = match parse_flag(model.is_archived) {
            Ok(b) => b,
            Err(e) => return Err(e),
        };
        match Calendar::with_id(id, model.name, model.description, is_archived, created_at, updated_at) {
            Ok(c) => Ok(c),
            Err(e) => Err(MapperError::Domain(e)),
        }
    }

    /// The row that stores the calendar.
    pub fn to_model(calendar: &Calendar) -> (r: CalendarModel)
        ensures
            calendar_row_of(r, calendar@),
            calendar_valid(calendar@),
    {
        let name = calendar.name();
        CalendarModel {
            id: calendar.calendar_id().to_string(),
            name: String::from_str(name),
            description: copy_opt_text(calendar.description()),
            is_archived: flag(calendar.is_archived()),
            created_at: calendar.created_at().to_rfc3339(),
            updated_at: calendar.updated_at().to_rfc3339(),
        }
    }
}

/// Storing a valid calendar and reading the row back gives the same calendar: the
/// row is accepted, and whatever it reads as equals the calendar in every field.
pub proof fn lemma_calendar_round_trip(c: CalendarView, m: CalendarModel)
    requires
        calendar_valid(c),
        calendar_row_of(m, c),
    ensures
        calendar_row_fault(m) is None,
        forall|back: CalendarView| calendar_row_decodes_to(m, back) ==> back == c,
{
    assert forall|back: CalendarView| calendar_row_decodes_to(m, back) implies back == c by {
        CalendarId::lemma_view_injective(back.id, c.id);
        Instant::lemma_view_injective(back.created_at, c.created_at);
        Instant::lemma_view_injective(back.updated_at, c.updated_at);
    }
}

/// Whether the two texts read as instants with the first strictly before the second.
pub open spec fn dates_ordered(s: Seq<char>, e: Seq<char>) -> bool {
    match (rfc3339_reading(s), rfc3339_reading(e)) {
        (Some(a), Some(b)) => earlier(a, b),
        _ => false,
    }
}

/// Whether a stored integer is a colour token.
pub open spec fn color_readable(v: i64) -> bool {
    0 <= v <= 255
}

/// Reads a stored colour token; `InvalidColor` when it does not fit the token width.
pub fn parse_color(v: i64) -> (r: Result<EventColor, MapperError>)
    ensures
        r is Ok <==> color_readable(v),
        r matches Ok(c) ==> c.0 == v,
        r matches Err(e) ==> e@ == MapperFault::Domain(DomainError::InvalidColor),
{
    if 0 <= v && v <= 255 {
        Ok(EventColor(v as u8))
    } else {
        Err(MapperError::Domain(DomainError::InvalidColor))
    }
}

/// Reads the range between two timestamps; `InvalidTimeRange` unless the start
/// comes strictly before the end.
pub fn parse_range(starts_at: &str, ends_at: &str) -> (r: Result<TimeRange, MapperError>)
    ensures
        r is Ok <==> date_readable(starts_at@) && date_readable(ends_at@) && dates_ordered(
            starts_at@,
            ends_at@,
        ),
        r matches Ok(t) ==> reads_as(starts_at@, t.start()) && reads_as(ends_at@, t.end()),
        r matches Err(e) ==> e@ == (if !date_readable(starts_at@) {
            MapperFault::InvalidDate(starts_at@)
        } else if !date_readable(ends_at@) {
            MapperFault::InvalidDate(ends_at@)
        } else {
            MapperFault::Domain(DomainError::InvalidTimeRange)
        }),
{
    let start = match parse_date(starts_at) {
        Ok(t) => t,
        Err(e) => return Err(e),
    };
    let end = match parse_date(ends_at) {
        Ok(t) => t,
        Err(e) => return Err(e),
    };
    match TimeRange::new(start, end) {
        Ok(t) => Ok(t),
        Err(e) => Err(MapperError::Domain(e)),
    }
}

/// A range that is possible at all: its start comes strictly before its end.
pub open spec fn range_valid(t: TimeRange) -> bool {
    earlier(t.start()@, t.end()@)
}

/// An event that is possible at all: a title and an ordered range.
pub open spec fn event_valid(e: EventView) -> bool {
    e.title.len() > 0 && range_valid(e.time_range)
}

/// The row that stores event `e`.
pub open spec fn event_row_of(m: EventModel, e: EventView) -> bool {
    &&& m.id@ == uuid_text(e.id@)
    &&& uuid_reading(m.id@) == Some(e.id@)
    &&& m.calendar_id@ == uuid_text(e.calendar_id@)
    &&& uuid_reading(m.calendar_id@) == Some(e.calendar_id@)
    &&& m.title@ == e.title
    &&& opt_text(m.description) == e.description
    &&& stamped(m.starts_at@, e.time_range.start())
    &&& stamped(m.ends_at@, e.time_range.end())
    &&& m.color == e.color.0 as i64
    &&& m.is_all_day == flag_value(e.is_all_day)
    &&& m.is_cancelled == flag_value(e.is_cancelled)
    &&& stamped(m.created_at@, e.created_at)
    &&& stamped(m.updated_at@, e.updated_at)
}

/// Why an event row is refused, checking identifiers, timestamps, range, colour,
/// flags and title in that order; `None` for a row that reads.
pub open spec fn event_row_fault(m: EventModel) -> Option<MapperFault> {
    if uuid_reading(m.id@) is None {
        Some(MapperFault::InvalidId(m.id@))
    } else if uuid_reading(m.calendar_id@) is None {
        Some(MapperFault::InvalidId(m.calendar_id@))
    } else if !date_readable(m.starts_at@) {
        Some(MapperFault::InvalidDate(m.starts_at@))
    } else if !date_readable(m.ends_at@) {
        Some(MapperFault::InvalidDate(m.ends_at@))
    } else if !date_readable(m.created_at@) {
        Some(MapperFault::InvalidDate(m.created_at@))
    } else if !date_readable(m.updated_at@) {
        Some(MapperFault::InvalidDate(m.updated_at@))
    } else if !dates_ordered(m.starts_at@, m.ends_at@) {
        Some(MapperFault::Domain(DomainError::InvalidTimeRange))
    } else if !color_readable(m.color) {
        Some(MapperFault::Domain(DomainError::InvalidColor))
    } else if !flag_readable(m.is_all_day) || !flag_readable(m.is_cancelled) {
        Some(MapperFault::InvalidData)
    } else if m.title@.len() == 0 {
        Some(MapperFault::Domain(DomainError::EmptyTitle))
    } else {
        None
    }
}

/// The event `e` is what the row reads as.
pub open spec fn event_row_decodes_to(m: EventModel, e: EventView) -> bool {
    &&& uuid_reading(m.id@) == Some(e.id@)
    &&& uuid_reading(m.calendar_id@) == Some(e.calendar_id@)
    &&& e.title == m.title@
    &&& e.description == opt_text(m.description)
    &&& reads_as(m.starts_at@, e.time_range.start())
    &&& reads_as(m.ends_at@, e.time_range.end())
    &&& e.color.0 == m.color
    &&& e.is_all_day == (m.is_all_day == 1)
    &&& e.is_cancelled == (m.is_cancelled == 1)
    &&& reads_as(m.created_at@, e.created_at)
    &&& reads_as(m.updated_at@, e.updated_at)
}

/// Converts events to rows and back.
pub struct EventMapper;

impl EventMapper {
    /// The event a row describes, or why the row is refused.
    pub fn to_domain(model: EventModel) -> (r: Result<Event, MapperError>)
        ensures
            r is Err <==> event_row_fault(model) is Some,
            r matches Err(e) ==> event_row_fault(model) == Some(e@),
            r matches Ok(e) ==> event_row_decodes_to(model, e@),
    {
        let event_id = match EventId::from_str(model.id.as_str()) {
            Ok(id) => id,
            Err(e) => return Err(MapperError::InvalidId(e.text)),
        };
        let calendar_id = match CalendarId::from_str(model.calendar_id.as_str()) {
            Ok(id) => id,
            Err(e) => return Err(MapperError::InvalidId(e.text)),
        };
        let starts_at = match parse_date(model.starts_at.as_str()) {
            Ok(t) => t,
            Err(e) => return Err(e),
        };
        let ends_at = match parse_date(model.ends_at.as_str()) {
            Ok(t) => t,
            Err(e) => return Err(e),
        };
        let created_at = match parse_date(model.created_at.as_str()) {
            Ok(t) => t,
            Err(e) => return Err(e),
        };
        let updated_at = match parse_date(model.updated_at.as_str()) {
            Ok(t) => t,
            Err(e) => return Err(e),
        };
        let time_range = match TimeRange::new(starts_at, ends_at) {
            Ok(t) => t,
            Err(e) => return Err(MapperError::Domain(e)),
        };
        let color = match parse_color(model.color) {
            Ok(c) => c,
            Err(e) => return Err(e),
        };
        let is_all_day = match parse_flag(model.is_all_day) {
            Ok(b) => b,
            Err(e) => return Err(e),
        };
        let is_cancelled = match parse_flag(model.is_cancelled) {
            Ok(b) => b,
            Err(e) => return Err(e),
        };
        match Event::with_id(
            event_id,
            calendar_id,
            model.title,
            model.description,
            time_range,
            color,
            is_all_day,
            is_cancelled,
            created_at,
            updated_at,
        ) {
            Ok(e) => Ok(e),
            Err(e) => Err(MapperError::Domain(e)),
        }
    }

    /// The row that stores the event.
    pub fn to_model(event: &Event) -> (r: EventModel)
        ensures
            event_row_of(r, event@),
            event_valid(event@),
    {
        let title = event.title();
        let range = event.time_range();
        let start = range.starts_at();
        let end = range.ends_at();
        let color: u8 = u8::from(event.color());
        EventModel {
            id: event.event_id().to_string(),
            calendar_id: event.calendar_id().to_string(),
            title: String::from_str(title),
            description: copy_opt_text(event.description()),
            starts_at: start.to_rfc3339(),
            ends_at: end.to_rfc3339(),
            color: color as i64,
            is_all_day: flag(event.is_all_day()),
            is_cancelled: flag(event.is_cancelled()),
            created_at: event.created_at().to_rfc3339(),
            updated_at: event.updated_at().to_rfc3339(),
        }
    }
}

/// Storing a valid event and reading the row back gives the same event: the row is
/// accepted, and whatever it reads as equals the event in every field.
pub proof fn lemma_event_round_trip(e: EventView, m: EventModel)
    requires
        event_valid(e),
        event_row_of(m, e),
    ensures
        event_row_fault(m) is None,
        forall|back: EventView| event_row_decodes_to(m, back) ==> back == e,
{
    assert forall|back: EventView| event_row_decodes_to(m, back) implies back == e by {
        EventId::lemma_view_injective(back.id, e.id);
        CalendarId::lemma_view_injective(back.calendar_id, e.calendar_id);
        Instant::lemma_view_injective(back.time_range.start(), e.time_range.start());
        Instant::lemma_view_injective(back.time_range.end(), e.time_range.end());
        TimeRange::lemma_eq(back.time_range, e.time_range);
        Instant::lemma_view_injective(back.created_at, e.created_at);
        Instant::lemma_view_injective(back.updated_at, e.updated_at);
    }
}

/// A modification that is possible at all: a replacement range is ordered.
pub open spec fn modification_valid(m: ExceptionModification) -> bool {
    match m {
        ExceptionModification::Rescheduled { new_time_range } => range_valid(new_time_range),
        ExceptionModification::Cancelled => true,
    }
}

/// The row that stores exception `e` of the series with identifier `id`.
pub open spec fn exception_row_of(x: RecurrenceExceptionModel, e: RecurrenceException, id: EventId) -> bool {
    &&& x.recurrence_id@ == uuid_text(id@)
    &&& stamped(x.original_starts_at@, e.original_starts_at)
    &&& match e.modification {
        ExceptionModification::Cancelled => {
            &&& x.is_cancelled == 1
            &&& x.new_starts_at is None
            &&& x.new_ends_at is None
        },
        ExceptionModification::Rescheduled { new_time_range } => {
            &&& x.is_cancelled == 0
            &&& x.new_starts_at matches Some(s) && stamped(s@, new_time_range.start())
            &&& x.new_ends_at matches Some(u) && stamped(u@, new_time_range.end())
        },
    }
}

/// Why an exception row is refused: its original start, then a flag that is neither
/// 0 nor 1, then a row that is not cancelled without both new bounds, then the bounds;
/// `None` for a row that reads.
pub open spec fn exception_row_fault(x: RecurrenceExceptionModel) -> Option<MapperFault> {
    if !date_readable(x.original_starts_at@) {
        Some(MapperFault::InvalidDate(x.original_starts_at@))
    } else if x.is_cancelled == 1 {
        None
    } else if x.is_cancelled != 0 {
        Some(MapperFault::InvalidData)
    } else {
        match (x.new_starts_at, x.new_ends_at) {
            (Some(s), Some(u)) => {
                if !date_readable(s@) {
                    Some(MapperFault::InvalidDate(s@))
                } else if !date_readable(u@) {
                    Some(MapperFault::InvalidDate(u@))
                } else if !dates_ordered(s@, u@) {
                    Some(MapperFault::Domain(DomainError::InvalidTimeRange))
                } else {
                    None
                }
            },
            _ => Some(MapperFault::InvalidData),
        }
    }
}

/// The exception `e` is what the row reads as.
pub open spec fn exception_row_decodes_to(x: RecurrenceExceptionModel, e: RecurrenceException) -> bool {
    &&& reads_as(x.original_starts_at@, e.original_starts_at)
    &&& x.is_cancelled == 1 ==> e.modification == ExceptionModification::Cancelled
    &&& x.is_cancelled != 1 ==> {
        &&& e.modification matches ExceptionModification::Rescheduled { new_time_range }
        &&& x.new_starts_at matches Some(s) && reads_as(s@, new_time_range.start())
        &&& x.new_ends_at matches Some(u) && reads_as(u@, new_time_range.end())
    }
}

/// The first refused row of a sequence of exception rows, if any.
pub open spec fn exception_rows_fault(xs: Seq<RecurrenceExceptionModel>) -> Option<MapperFault>
    decreases xs.len(),
{
    if xs.len() == 0 {
        None
    } else {
        match exception_rows_fault(xs.drop_last()) {
            Some(f) => Some(f),
            None => exception_row_fault(xs.last()),
        }
    }
}

/// A fault in a prefix is the fault of the whole sequence.
proof fn lemma_rows_fault_prefix(xs: Seq<RecurrenceExceptionModel>, j: int)
    requires
        0 <= j <= xs.len(),
        exception_rows_fault(xs.take(j)) is Some,
    ensures
        exception_rows_fault(xs) == exception_rows_fault(xs.take(j)),
    decreases xs.len(),
{
    if j == xs.len() {
        assert(xs.take(j) == xs);
    } else {
        let p = xs.drop_last();
        assert(p.take(j) == xs.take(j));
        lemma_rows_fault_prefix(p, j);
    }
}

/// Rows that are each accepted are accepted together.
proof fn lemma_rows_no_fault(xs: Seq<RecurrenceExceptionModel>)
    requires
        forall|i: int| 0 <= i < xs.len() ==> exception_row_fault(#[trigger] xs[i]) is None,
    ensures
        exception_rows_fault(xs) is None,
    decreases xs.len(),
{
    if xs.len() > 0 {
        let p = xs.drop_last();
        assert forall|i: int| 0 <= i < p.len() implies exception_row_fault(#[trigger] p[i]) is None by {
            assert(p[i] == xs[i]);
        }
        lemma_rows_no_fault(p);
    }
}

/// A series that is possible at all: an ordered base range and a positive interval.
pub open spec fn recurring_valid(v: RecurringEventView) -> bool {
    range_valid(v.time_range) && v.rule.interval_spec() > 0
}

/// The text of an optional instant.
pub open spec fn until_row_of(s: Option<String>, t: Option<Instant>) -> bool {
    match (s, t) {
        (None, None) => true,
        (Some(s), Some(t)) => stamped(s@, t),
        _ => false,
    }
}

/// The optional instant that an optional text reads as.
pub open spec fn until_decodes_to(s: Option<String>, t: Option<Instant>) -> bool {
    match (s, t) {
        (None, None) => true,
        (Some(s), Some(t)) => reads_as(s@, t),
        _ => false,
    }
}

/// The series row that stores recurring event `v` (its exceptions have rows of their own).
pub open spec fn recurring_row_of(m: RecurrenceModel, v: RecurringEventView) -> bool {
    &&& m.id@ == uuid_text(v.id@)
    &&& uuid_reading(m.id@) == Some(v.id@)
    &&& m.calendar_id@ == uuid_text(v.calendar_id@)
    &&& uuid_reading(m.calendar_id@) == Some(v.calendar_id@)
    &&& m.title@ == v.title
    &&& opt_text(m.description) == v.description
    &&& stamped(m.starts_at@, v.time_range.start())
    &&& stamped(m.ends_at@, v.time_range.end())
    &&& m.frequency@ == v.rule.frequency_spec().canonical_name()
    &&& m.interval == v.rule.interval_spec() as i64
    &&& until_row_of(m.until, v.rule.until_spec())
    &&& m.color == v.color.0 as i64
    &&& m.is_all_day == flag_value(v.is_all_day)
    &&& m.is_cancelled == flag_value(v.is_cancelled)
    &&& stamped(m.created_at@, v.created_at)
    &&& stamped(m.updated_at@, v.updated_at)
}

/// Whether a stored interval is a positive 32-bit count.
pub open spec fn interval_readable(v: i64) -> bool {
    1 <= v <= u32::MAX
}

/// Why a series row with its exception rows is refused, checking identifiers,
/// timestamps, range, colour, frequency, end of the series, interval, flags and then
/// the exception rows in order; `None` for rows that read.
pub open spec fn recurring_row_fault(m: RecurrenceModel, xs: Seq<RecurrenceExceptionModel>) -> Option<
    MapperFault,
> {
    if uuid_reading(m.id@) is None {
        Some(MapperFault::InvalidId(m.id@))
    } else if uuid_reading(m.calendar_id@) is None {
        Some(MapperFault::InvalidId(m.calendar_id@))
    } else if !date_readable(m.starts_at@) {
        Some(MapperFault::InvalidDate(m.starts_at@))
    } else if !date_readable(m.ends_at@) {
        Some(MapperFault::InvalidDate(m.ends_at@))
    } else if !date_readable(m.created_at@) {
        Some(MapperFault::InvalidDate(m.created_at@))
    } else if !date_readable(m.updated_at@) {
        Some(MapperFault::InvalidDate(m.updated_at@))
    } else if !dates_ordered(m.starts_at@, m.ends_at@) {
        Some(MapperFault::Domain(DomainError::InvalidTimeRange))
    } else if !color_readable(m.color) {
        Some(MapperFault::Domain(DomainError::InvalidColor))
    } else if Frequency::from_str_spec(m.frequency@) is Err {
        Some(MapperFault::Domain(DomainError::InvalidFrequency))
    } else if m.until matches Some(u) && !date_readable(u@) {
        Some(MapperFault::InvalidDate(m.until->Some_0@))
    } else if !interval_readable(m.interval) {
        Some(MapperFault::Domain(DomainError::InvalidInterval))
    } else if !flag_readable(m.is_all_day) || !flag_readable(m.is_cancelled) {
        Some(MapperFault::InvalidData)
    } else {
        exception_rows_fault(xs)
    }
}

/// The series `v` is what the series row and its exception rows read as.
pub open spec fn recurring_row_decodes_to(
    m: RecurrenceModel,
    xs: Seq<RecurrenceExceptionModel>,
    v: RecurringEventView,
) -> bool {
    &&& uuid_reading(m.id@) == Some(v.id@)
    &&& uuid_reading(m.calendar_id@) == Some(v.calendar_id@)
    &&& v.title == m.title@
    &&& v.description == opt_text(m.description)
    &&& reads_as(m.starts_at@, v.time_range.start())
    &&& reads_as(m.ends_at@, v.time_range.end())
    &&& Frequency::from_str_spec(m.frequency@) == Ok::<Frequency, DomainError>(
        v.rule.frequency_spec(),
    )
    &&& v.rule.interval_spec() as i64 == m.interval
    &&& until_decodes_to(m.until, v.rule.until_spec())
    &&& v.color.0 == m.color
    &&& v.is_all_day == (m.is_all_day == 1)
    &&& v.is_cancelled == (m.is_cancelled == 1)
    &&& reads_as(m.created_at@, v.created_at)
    &&& reads_as(m.updated_at@, v.updated_at)
    &&& exists|es: Seq<RecurrenceException>|
        {
            &&& es.len() == xs.len()
            &&& forall|i: int|
                0 <= i < xs.len() ==> exception_row_decodes_to(#[trigger] xs[i], es[i])
            &&& v.exceptions == exception_map(es)
        }
}

/// Reads every exception row in order; the first refused row decides the error.
fn exceptions_to_domain(rows: &Vec<RecurrenceExceptionModel>) -> (r: Result<
    Vec<RecurrenceException>,
    MapperError,
>)
    ensures
        r is Err <==> exception_rows_fault(rows@) is Some,
        r matches Err(e) ==> exception_rows_fault(rows@) == Some(e@),
        r matches Ok(es) ==> es@.len() == rows@.len() && forall|i: int|
            0 <= i < rows@.len() ==> exception_row_decodes_to(#[trigger] rows@[i], es@[i]),
{
    let mut out: Vec<RecurrenceException> = Vec::new();
    let mut j: usize = 0;
    while j < rows.len()
        invariant
            j <= rows@.len(),
            out@.len() == j,
            exception_rows_fault(rows@.take(j as int)) is None,
            forall|i: int| 0 <= i < j ==> exception_row_decodes_to(#[trigger] rows@[i], out@[i]),
        decreases rows@.len() - j,
    {
        proof {
            assert(rows@.take(j as int + 1).drop_last() == rows@.take(j as int));
            assert(rows@.take(j as int + 1).last() == rows@[j as int]);
        }
        match RecurrenceMapper::exception_to_domain(&rows[j]) {
            Ok(e) => {
                out.push(e);
            },
            Err(e) => {
                proof {
                    lemma_rows_fault_prefix(rows@, j as int + 1);
                }
                return Err(e);
            },
        }
        j = j + 1;
    }
    proof {
        assert(rows@.take(rows@.len() as int) == rows@);
    }
    Ok(out)
}

/// Converts recurring events and their exceptions to rows and back.
pub struct RecurrenceMapper;

impl RecurrenceMapper {
    /// The exception an exception row describes, or why the row is refused.
    pub fn exception_to_domain(model: &RecurrenceExceptionModel) -> (r: Result<
        RecurrenceException,
        MapperError,
    >)
        ensures
            r is Err <==> exception_row_fault(*model) is Some,
            r matches Err(e) ==> exception_row_fault(*model) == Some(e@),
            r matches Ok(e) ==> exception_row_decodes_to(*model, e),
    {
        let original = match parse_date(model.original_starts_at.as_str()) {
            Ok(t) => t,
            Err(e) => return Err(e),
        };
        if model.is_cancelled == 1 {
            return Ok(RecurrenceException::cancelled(original));
        }
        if model.is_cancelled != 0 {
            return Err(MapperError::InvalidData(String::from_str("a flag must be 0 or 1")));
        }
        match &model.new_starts_at {
            Some(s) => match &model.new_ends_at {
                Some(u) => match parse_range(s.as_str(), u.as_str()) {
                    Ok(range) => Ok(RecurrenceException::rescheduled(original, range)),
                    Err(e) => Err(e),
                },
                None => Err(
                    MapperError::InvalidData(
                        String::from_str("an exception must be cancelled or rescheduled"),
                    ),
                ),
            },
            None => Err(
                MapperError::InvalidData(
                    String::from_str("an exception must be cancelled or rescheduled"),
                ),
            ),
        }
    }

    /// The row that stores exception `exception` of the series `recurrence_id`.
    pub fn exception_to_model(exception: &RecurrenceException, recurrence_id: &EventId) -> (r:
        RecurrenceExceptionModel)
        ensures
            exception_row_of(r, *exception, *recurrence_id),
            modification_valid(exception.modification),
    {
        let (new_starts_at, new_ends_at, is_cancelled) = match exception.modification {
            ExceptionModification::Cancelled => (None, None, 1i64),
            ExceptionModification::Rescheduled { new_time_range } => {
                let start = new_time_range.starts_at();
                let end = new_time_range.ends_at();
                (Some(start.to_rfc3339()), Some(end.to_rfc3339()), 0i64)
            },
        };
        RecurrenceExceptionModel {
            recurrence_id: recurrence_id.to_string(),
            original_starts_at: exception.original_starts_at.to_rfc3339(),
            new_starts_at,
            new_ends_at,
            is_cancelled,
        }
    }

    /// The rows of all exceptions of the series, one per original start.
    pub fn exceptions_to_model(event: &RecurringEvent) -> (r: Vec<RecurrenceExceptionModel>)
        ensures
            exists|es: Seq<RecurrenceException>|
                {
                    &&& es.len() == r@.len()
                    &&& keys_unique(es)
                    &&& exception_map(es) == event@.exceptions
                    &&& forall|i: int|
                        0 <= i < es.len() ==> exception_row_of(#[trigger] r@[i], es[i], event@.id)
                            && modification_valid(es[i].modification)
                },
    {
        let exceptions = event.exceptions();
        let id = event.id();
        let mut out: Vec<RecurrenceExceptionModel> = Vec::new();
        let mut j: usize = 0;
        while j < exceptions.len()
            invariant
                j <= exceptions@.len(),
                out@.len() == j,
                id == event@.id,
                forall|i: int|
                    0 <= i < j ==> exception_row_of(#[trigger] out@[i], exceptions@[i], id)
                        && modification_valid(exceptions@[i].modification),
            decreases exceptions@.len() - j,
        {
            let row = RecurrenceMapper::exception_to_model(&exceptions[j], &id);
            out.push(row);
            j = j + 1;
        }
        out
    }

    /// The series a series row and all its exception rows describe, or why they are
    /// refused.
    pub fn to_domain(model: RecurrenceModel, exceptions: Vec<RecurrenceExceptionModel>) -> (r:
        Result<RecurringEvent, MapperError>)
        ensures
            r is Err <==> recurring_row_fault(model, exceptions@) is Some,
            r matches Err(e) ==> recurring_row_fault(model, exceptions@) == Some(e@),
            r matches Ok(v) ==> recurring_row_decodes_to(model, exceptions@, v@),
    {
        let event_id = match EventId::from_str(model.id.as_str()) {
            Ok(id) => id,
            Err(e) => return Err(MapperError::InvalidId(e.text)),
        };
        let calendar_id = match CalendarId::from_str(model.calendar_id.as_str()) {
            Ok(id) => id,
            Err(e) => return Err(MapperError::InvalidId(e.text)),
        };
        let starts_at = match parse_date(model.starts_at.as_str()) {
            Ok(t) => t,
            Err(e) => return Err(e),
        };
        let ends_at = match parse_date(model.ends_at.as_str()) {
            Ok(t) => t,
            Err(e) => return Err(e),
        };
        let created_at = match parse_date(model.created_at.as_str()) {
            Ok(t) => t,
            Err(e) => return Err(e),
        };
        let updated_at = match parse_date(model.updated_at.as_str()) {
            Ok(t) => t,
            Err(e) => return Err(e),
        };
        let time_range = match TimeRange::new(starts_at, ends_at) {
            Ok(t) => t,
            Err(e) => return Err(MapperError::Domain(e)),
        };
        let color = match parse_color(model.color) {
            Ok(c) => c,
            Err(e) => return Err(e),
        };
        let frequency = match Frequency::from_str(model.frequency.as_str()) {
            Ok(f) => f,
            Err(e) => return Err(MapperError::Domain(e)),
        };
        let until = match &model.until {
            Some(u) => match parse_date(u.as_str()) {
                Ok(t) => Some(t),
                Err(e) => return Err(e),
            },
            None => None,
        };
        if model.interval < 1 || model.interval > u32::MAX as i64 {
            return Err(MapperError::Domain(DomainError::InvalidInterval));
        }
        let rule = match RecurrenceRule::new(frequency, model.interval as u32, until) {
            Ok(rule) => rule,
            Err(e) => return Err(MapperError::Domain(e)),
        };
        let is_all_day = match parse_flag(model.is_all_day) {
            Ok(b) => b,
            Err(e) => return Err(e),
        };
        let is_cancelled = match parse_flag(model.is_cancelled) {
            Ok(b) => b,
            Err(e) => return Err(e),
        };
        let decoded = match exceptions_to_domain(&exceptions) {
            Ok(es) => es,
            Err(e) => return Err(e),
        };
        let ghost es = decoded@;
        let event = RecurringEvent::with_id(
            event_id,
            calendar_id,
            model.title,
            model.description,
            time_range,
            rule,
            decoded,
            color,
            is_all_day,
            is_cancelled,
            created_at,
            updated_at,
        );
        proof {
            assert(es.len() == exceptions@.len() && forall|i: int|
                0 <= i < exceptions@.len() ==> exception_row_decodes_to(
                    #[trigger] exceptions@[i],
                    es[i],
                ));
        }
        Ok(event)
    }

    /// The series row that stores the recurring event (without its exceptions).
    pub fn to_model(event: &RecurringEvent) -> (r: RecurrenceModel)
        ensures
            recurring_row_of(r, event@),
            recurring_valid(event@),
    {
        let range = event.time_range();
        let start = range.starts_at();
        let end = range.ends_at();
        let rule = event.rule();
        let interval = rule.interval();
        let until = match rule.until() {
            Some(t) => Some(t.to_rfc3339()),
            None => None,
        };
        let color: u8 = u8::from(event.color());
        RecurrenceModel {
            id: event.id().to_string(),
            calendar_id: event.calendar_id().to_string(),
            title: String::from_str(event.title()),
            description: copy_opt_text(event.description()),
            starts_at: start.to_rfc3339(),
            ends_at: end.to_rfc3339(),
            frequency: rule.frequency().to_string(),
            interval: interval as i64,
            until,
            color: color as i64,
            is_all_day: flag(event.is_all_day()),
            is_cancelled: flag(event.is_cancelled()),
            created_at: event.created_at().to_rfc3339(),
            updated_at: event.updated_at().to_rfc3339(),
        }
    }
}

/// An exception row read back from the row of exception `e` gives `e` again.
proof fn lemma_exception_round_trip(
    x: RecurrenceExceptionModel,
    e: RecurrenceException,
    id: EventId,
    back: RecurrenceException,
)
    requires
        exception_row_of(x, e, id),
        modification_valid(e.modification),
        exception_row_decodes_to(x, back),
    ensures
        back == e,
{
    Instant::lemma_view_injective(back.original_starts_at, e.original_starts_at);
    match (e.modification, back.modification) {
        (
            ExceptionModification::Rescheduled { new_time_range: a },
            ExceptionModification::Rescheduled { new_time_range: b },
        ) => {
            Instant::lemma_view_injective(a.start(), b.start());
            Instant::lemma_view_injective(a.end(), b.end());
            TimeRange::lemma_eq(a, b);
        },
        _ => {},
    }
}

/// Storing a valid recurring event as its series row and exception rows and reading
/// them back gives the same event: the rows are accepted, and whatever they read as
/// equals the event in every field, the exceptions keyed by original start included.
pub proof fn lemma_recurring_round_trip(
    v: RecurringEventView,
    m: RecurrenceModel,
    es: Seq<RecurrenceException>,
    xs: Seq<RecurrenceExceptionModel>,
)
    requires
        recurring_valid(v),
        recurring_row_of(m, v),
        exception_map(es) == v.exceptions,
        es.len() == xs.len(),
        forall|i: int|
            0 <= i < es.len() ==> exception_row_of(#[trigger] xs[i], es[i], v.id)
                && modification_valid(es[i].modification),
    ensures
        recurring_row_fault(m, xs) is None,
        forall|back: RecurringEventView| recurring_row_decodes_to(m, xs, back) ==> back == v,
{
    Frequency::lemma_named_canonical(v.rule.frequency_spec());
    assert forall|i: int| 0 <= i < xs.len() implies exception_row_fault(#[trigger] xs[i]) is None by {
        assert(exception_row_of(xs[i], es[i], v.id));
    }
    lemma_rows_no_fault(xs);
    assert forall|back: RecurringEventView| recurring_row_decodes_to(m, xs, back) implies back
        == v by {
        let es2 = choose|es2: Seq<RecurrenceException>|
            {
                &&& es2.len() == xs.len()
                &&& forall|i: int|
                    0 <= i < xs.len() ==> exception_row_decodes_to(#[trigger] xs[i], es2[i])
                &&& back.exceptions == exception_map(es2)
            };
        assert forall|i: int| 0 <= i < es.len() implies es2[i] == es[i] by {
            assert(exception_row_of(xs[i], es[i], v.id));
            assert(exception_row_decodes_to(xs[i], es2[i]));
            lemma_exception_round_trip(xs[i], es[i], v.id, es2[i]);
        }
        assert(es2 =~= es);
        EventId::lemma_view_injective(back.id, v.id);
        CalendarId::lemma_view_injective(back.calendar_id, v.calendar_id);
        Instant::lemma_view_injective(back.time_range.start(), v.time_range.start());
        Instant::lemma_view_injective(back.time_range.end(), v.time_range.end());
        TimeRange::lemma_eq(back.time_range, v.time_range);
        match (back.rule.until_spec(), v.rule.until_spec()) {
            (Some(a), Some(b)) => {
                Instant::lemma_view_injective(a, b);
            },
            _ => {},
        }
        RecurrenceRule::lemma_eq(back.rule, v.rule);
        Instant::lemma_view_injective(back.created_at, v.created_at);
        Instant::lemma_view_injective(back.updated_at, v.updated_at);
    }
}

} // verus!
