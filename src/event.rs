//! A single scheduled occurrence that belongs to a calendar.
use vstd::prelude::*;

use crate::calendar::{copy_opt_text, opt_text};
use crate::error::DomainError;
use crate::instant::Instant;
use crate::value_objects::{is_random_uuid, CalendarId, EventColor, EventId, TimeRange};

verus! {

/// What an event holds.
pub struct EventView {
    pub id: EventId,
    pub calendar_id: CalendarId,
    pub title: Seq<char>,
    pub description: Option<Seq<char>>,
    pub time_range: TimeRange,
    pub color: EventColor,
    pub is_all_day: bool,
    pub is_cancelled: bool,
    pub created_at: Instant,
    pub updated_at: Instant,
}

impl EventView {
    /// Two events clash when neither is cancelled, both belong to one calendar and
    /// their ranges overlap.
    pub open spec fn clashes(self, other: EventView) -> bool {
        &&& !self.is_cancelled
        &&& !other.is_cancelled
        &&& self.calendar_id == other.calendar_id
        &&& self.time_range.overlaps_spec(other.time_range)
    }
}

/// An event; its title is never empty.
#[derive(Debug)]
pub struct Event {
    event_id: EventId,
    calendar_id: CalendarId,
    title: String,
    description: Option<String>,
    time_range: TimeRange,
    color: EventColor,
    is_all_day: bool,
    is_cancelled: bool,
    created_at: Instant,
    updated_at: Instant,
}

impl View for Event {
    type V = EventView;

    closed spec fn view(&self) -> EventView {
        EventView {
            id: self.event_id,
            calendar_id: self.calendar_id,
            title: self.title@,
            description: opt_text(self.description),
            time_range: self.time_range,
            color: self.color,
            is_all_day: self.is_all_day,
            is_cancelled: self.is_cancelled,
            created_at: self.created_at,
            updated_at: self.updated_at,
        }
    }
}

impl Clone for Event {
    fn clone(&self) -> (r: Event)
        ensures
            r@ == self@,
    {
        proof {
            use_type_invariant(self);
        }
        Event {
            event_id: self.event_id,
            calendar_id: self.calendar_id,
            title: self.title.clone(),
            description: copy_opt_text(&self.description),
            time_range: self.time_range,
            color: self.color,
            is_all_day: self.is_all_day,
            is_cancelled: self.is_cancelled,
            created_at: self.created_at,
            updated_at: self.updated_at,
        }
    }
}

impl Event {
    #[verifier::type_invariant]
    spec fn inv(self) -> bool {
        self.title@.len() > 0
    }

    /// A new, not cancelled event with a fresh identifier, created and updated at `now`;
    /// `EmptyTitle` when `title` is empty.
    pub fn new(
        calendar_id: CalendarId,
        title: String,
        description: Option<String>,
        time_range: TimeRange,
        color: EventColor,
        is_all_day: bool,
        now: Instant,
    ) -> (r: Result<Event, DomainError>)
        ensures
            r is Err <==> title@.len() == 0,
            r is Err ==> r == Err::<Event, DomainError>(DomainError::EmptyTitle),
            r matches Ok(e) ==> {
                &&& is_random_uuid(e@.id@)
                &&& e@.calendar_id == calendar_id
                &&& e@.title == title@
                &&& e@.description == opt_text(description)
                &&& e@.time_range == time_range
                &&& e@.color == color
                &&& e@.is_all_day == is_all_day
                &&& !e@.is_cancelled
                &&& e@.created_at == now
                &&& e@.updated_at == now
            },
    {
        let id = EventId::new();
        Event::with_id(
            id,
            calendar_id,
            title,
            description,
            time_range,
            color,
            is_all_day,
            false,
            now,
            now,
        )
    }

    /// An event with every field given; `EmptyTitle` when `title` is empty.
    pub fn with_id(
        event_id: EventId,
        calendar_id: CalendarId,
        title: String,
        description: Option<String>,
        time_range: TimeRange,
        color: EventColor,
        is_all_day: bool,
        is_cancelled: bool,
        created_at: Instant,
        updated_at: Instant,
    ) -> (r: Result<Event, DomainError>)
        ensures
            r is Err <==> title@.len() == 0,
            r is Err ==> r == Err::<Event, DomainError>(DomainError::EmptyTitle),
            r matches Ok(e) ==> e@ == (EventView {
                id: event_id,
                calendar_id,
                title: title@,
                description: opt_text(description),
                time_range,
                color,
                is_all_day,
                is_cancelled,
                created_at,
                updated_at,
            }),
    {
        if title.as_str().is_empty() {
            Err(DomainError::EmptyTitle)
        } else {
            Ok(
                Event {
                    event_id,
                    calendar_id,
                    title,
                    description,
                    time_range,
                    color,
                    is_all_day,
                    is_cancelled,
                    created_at,
                    updated_at,
                },
            )
        }
    }

    pub fn event_id(&self) -> (r: EventId)
        ensures
            r == self@.id,
    {
        self.event_id
    }

    pub fn calendar_id(&self) -> (r: CalendarId)
        ensures
            r == self@.calendar_id,
    {
        self.calendar_id
    }

    /// The title, which is never empty.
    pub fn title(&self) -> (r: &str)
        ensures
            r@ == self@.title,
            r@.len() > 0,
    {
        proof {
            use_type_invariant(self);
        }
        self.title.as_str()
    }

    pub fn description(&self) -> (r: &Option<String>)
        ensures
            opt_text(*r) == self@.description,
    {
        &self.description
    }

    pub fn time_range(&self) -> (r: TimeRange)
        ensures
            r == self@.time_range,
    {
        self.time_range
    }

    pub fn color(&self) -> (r: EventColor)
        ensures
            r == self@.color,
    {
        self.color
    }

    pub fn is_all_day(&self) -> (r: bool)
        ensures
            r == self@.is_all_day,
    {
        self.is_all_day
    }

    pub fn is_cancelled(&self) -> (r: bool)
        ensures
            r == self@.is_cancelled,
    {
        self.is_cancelled
    }

    pub fn created_at(&self) -> (r: Instant)
        ensures
            r == self@.created_at,
    {
        self.created_at
    }

    pub fn updated_at(&self) -> (r: Instant)
        ensures
            r == self@.updated_at,
    {
        self.updated_at
    }

    /// Cancels the event and stamps it.
    pub fn cancel(&mut self, now: Instant)
        ensures
            final(self)@ == (EventView { is_cancelled: true, updated_at: now, ..old(self)@ }),
    {
        proof {
            use_type_invariant(&*self);
        }
        self.is_cancelled = true;
        self.touch(now);
    }

    /// Lifts the cancellation and stamps the event.
    pub fn restore(&mut self, now: Instant)
        ensures
            final(self)@ == (EventView { is_cancelled: false, updated_at: now, ..old(self)@ }),
    {
        proof {
            use_type_invariant(&*self);
        }
        self.is_cancelled = false;
        self.touch(now);
    }

    /// Replaces the title and stamps the event; an empty title is refused with
    /// `EmptyTitle` and leaves the event as it was.
    pub fn update_title(&mut self, title: String, now: Instant) -> (r: Result<(), DomainError>)
        ensures
            r is Err <==> title@.len() == 0,
            r is Err ==> r == Err::<(), DomainError>(DomainError::EmptyTitle) && final(self)@
                == old(self)@,
            r is Ok ==> final(self)@ == (EventView { title: title@, updated_at: now, ..old(self)@ }),
    {
        if title.as_str().is_empty() {
            Err(DomainError::EmptyTitle)
        } else {
            self.title = title;
            self.touch(now);
            Ok(())
        }
    }

    /// Replaces the description and stamps the event.
    pub fn update_description(&mut self, description: Option<String>, now: Instant)
        ensures
            final(self)@ == (EventView {
                description: opt_text(description),
                updated_at: now,
                ..old(self)@
            }),
    {
        proof {
            use_type_invariant(&*self);
        }
        self.description = description;
        self.touch(now);
    }

    /// Replaces the time range and stamps the event.
    pub fn update_time_range(&mut self, time_range: TimeRange, now: Instant)
        ensures
            final(self)@ == (EventView { time_range, updated_at: now, ..old(self)@ }),
    {
        proof {
            use_type_invariant(&*self);
        }
        self.time_range = time_range;
        self.touch(now);
    }

    /// Replaces the colour and stamps the event.
    pub fn update_color(&mut self, color: EventColor, now: Instant)
        ensures
            final(self)@ == (EventView { color, updated_at: now, ..old(self)@ }),
    {
        proof {
            use_type_invariant(&*self);
        }
        self.color = color;
        self.touch(now);
    }

    /// Whether the two events clash: neither cancelled, same calendar, overlapping ranges.
    pub fn overlaps_with(&self, other: &Event) -> (r: bool)
        ensures
            r == self@.clashes(other@),
    {
        !self.is_cancelled && !other.is_cancelled && self.calendar_id == other.calendar_id
            && self.time_range.overlaps(&other.time_range)
    }

    /// Sets the time of the last change.
    pub fn touch(&mut self, now: Instant)
        ensures
            final(self)@ == (EventView { updated_at: now, ..old(self)@ }),
    {
        proof {
            use_type_invariant(&*self);
        }
        self.updated_at = now;
    }
}

} // verus!
