//! A named container of events, with its archival state.
use vstd::prelude::*;

use crate::error::DomainError;
use crate::instant::Instant;
use crate::value_objects::{is_random_uuid, CalendarId};

verus! {

/// The text held by an optional string.
pub open spec fn opt_text(s: Option<String>) -> Option<Seq<char>> {
    match s {
        Some(t) => Some(t@),
        None => None,
    }
}

/// What a calendar holds.
pub struct CalendarView {
    pub id: CalendarId,
    pub name: Seq<char>,
    pub description: Option<Seq<char>>,
    pub is_archived: bool,
    pub created_at: Instant,
    pub updated_at: Instant,
}

/// A calendar; its name is never empty.
#[derive(Debug)]
pub struct Calendar {
    calendar_id: CalendarId,
    name: String,
    description: Option<String>,
    is_archived: bool,
    created_at: Instant,
    updated_at: Instant,
}

impl View for Calendar {
    type V = CalendarView;

    closed spec fn view(&self) -> CalendarView {
        CalendarView {
            id: self.calendar_id,
            name: self.name@,
            description: opt_text(self.description),
            is_archived: self.is_archived,
            created_at: self.created_at,
            updated_at: self.updated_at,
        }
    }
}

/// A copy of an optional string.
pub fn copy_opt_text(s: &Option<String>) -> (r: Option<String>)
    ensures
        opt_text(r) == opt_text(*s),
{
    match s {
        Some(t) => Some(t.clone()),
        None => None,
    }
}

impl Clone for Calendar {
    fn clone(&self) -> (r: Calendar)
        ensures
            r@ == self@,
    {
        proof {
            use_type_invariant(self);
        }
        Calendar {
            calendar_id: self.calendar_id,
            name: self.name.clone(),
            description: copy_opt_text(&self.description),
            is_archived: self.is_archived,
            created_at: self.created_at,
            updated_at: self.updated_at,
        }
    }
}

impl Calendar {
    #[verifier::type_invariant]
    spec fn inv(self) -> bool {
        self.name@.len() > 0
    }

    /// A new calendar with a fresh identifier, not archived, created and updated at `now`;
    /// `EmptyName` when `name` is empty.
    pub fn new(name: String, description: Option<String>, now: Instant) -> (r: Result<
        Calendar,
        DomainError,
    >)
        ensures
            r is Err <==> name@.len() == 0,
            r is Err ==> r == Err::<Calendar, DomainError>(DomainError::EmptyName),
            r matches Ok(c) ==> {
                &&& is_random_uuid(c@.id@)
                &&& c@.name == name@
                &&& c@.description == opt_text(description)
                &&& !c@.is_archived
                &&& c@.created_at == now
                &&& c@.updated_at == now
            },
    {
        let id = CalendarId::new();
        Calendar::with_id(id, name, description, false, now, now)
    }

    /// A calendar with every field given; `EmptyName` when `name` is empty.
    pub fn with_id(
        calendar_id: CalendarId,
        name: String,
        description: Option<String>,
        is_archived: bool,
        created_at: Instant,
        updated_at: Instant,
    ) -> (r: Result<Calendar, DomainError>)
        ensures
            r is Err <==> name@.len() == 0,
            r is Err ==> r == Err::<Calendar, DomainError>(DomainError::EmptyName),
            r matches Ok(c) ==> c@ == (CalendarView {
                id: calendar_id,
                name: name@,
                description: opt_text(description),
                is_archived,
                created_at,
                updated_at,
            }),
    {
        if name.as_str().is_empty() {
            Err(DomainError::EmptyName)
        } else {
            Ok(Calendar { calendar_id, name, description, is_archived, created_at, updated_at })
        }
    }

    pub fn calendar_id(&self) -> (r: CalendarId)
        ensures
            r == self@.id,
    {
        self.calendar_id
    }

    /// The name, which is never empty.
    pub fn name(&self) -> (r: &str)
        ensures
            r@ == self@.name,
            r@.len() > 0,
    {
        proof {
            use_type_invariant(self);
        }
        self.name.as_str()
    }

    pub fn description(&self) -> (r: &Option<String>)
        ensures
            opt_text(*r) == self@.description,
    {
        &self.description
    }

    pub fn is_archived(&self) -> (r: bool)
        ensures
            r == self@.is_archived,
    {
        self.is_archived
    }

    pub fn created_at(&self) -> (r: Instant)
        ensures
            r == self@.created_at,
    {
        self.created_at
    }

    pub fn updated_at(&self) -> (r: Instant)
        ensures
            r == self@.updated_at,
    {
        self.updated_at
    }

    /// Marks the calendar archived and stamps it.
    pub fn archive(&mut self, now: Instant)
        ensures
            final(self)@ == (CalendarView { is_archived: true, updated_at: now, ..old(self)@ }),
    {
        proof {
            use_type_invariant(&*self);
        }
        self.is_archived = true;
        self.touch(now);
    }

    /// Marks the calendar active again and stamps it.
    pub fn unarchive(&mut self, now: Instant)
        ensures
            final(self)@ == (CalendarView { is_archived: false, updated_at: now, ..old(self)@ }),
    {
        proof {
            use_type_invariant(&*self);
        }
        self.is_archived = false;
        self.touch(now);
    }

    /// Renames the calendar and stamps it; an empty name is refused with `EmptyName`
    /// and leaves the calendar as it was.
    pub fn update_name(&mut self, name: String, now: Instant) -> (r: Result<(), DomainError>)
        ensures
            r is Err <==> name@.len() == 0,
            r is Err ==> r == Err::<(), DomainError>(DomainError::EmptyName) && final(self)@
                == old(self)@,
            r is Ok ==> final(self)@ == (CalendarView {
                name: name@,
                updated_at: now,
                ..old(self)@
            }),
    {
        if name.as_str().is_empty() {
            Err(DomainError::EmptyName)
        } else {
            self.name = name;
            self.touch(now);
            Ok(())
        }
    }

    /// Replaces the description and stamps the calendar.
    pub fn update_description(&mut self, description: Option<String>, now: Instant)
        ensures
            final(self)@ == (CalendarView {
                description: opt_text(description),
                updated_at: now,
                ..old(self)@
            }),
    {
        proof {
            use_type_invariant(&*self);
        }
        self.description = description;
        self.touch(now);
    }

    /// Sets the time of the last change.
    pub fn touch(&mut self, now: Instant)
        ensures
            final(self)@ == (CalendarView { updated_at: now, ..old(self)@ }),
    {
        proof {
            use_type_invariant(&*self);
        }
        self.updated_at = now;
    }
}

} // verus!
