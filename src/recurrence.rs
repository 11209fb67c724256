//! Recurring events: a repeating pattern plus per-occurrence overrides keyed by
//! the original start instant of the occurrence they change.
use vstd::prelude::*;

use crate::calendar::{copy_opt_text, opt_text};
use crate::error::DomainError;
use crate::instant::Instant;
use crate::value_objects::{is_random_uuid, CalendarId, EventColor, EventId, Frequency, TimeRange};

verus! {

/// How a recurring event repeats: every `interval` steps of `frequency`, optionally
/// until an instant. The interval is never zero.
#[derive(Clone, Copy, Debug, PartialEq, Eq, Structural)]
pub struct RecurrenceRule {
    frequency: Frequency,
    interval: u32,
    until: Option<Instant>,
}

impl RecurrenceRule {
    #[verifier::type_invariant]
    spec fn inv(self) -> bool {
        self.interval > 0
    }

    /// Two rules are equal exactly when their parts are.
    pub proof fn lemma_eq(a: RecurrenceRule, b: RecurrenceRule)
        ensures
            (a.frequency_spec() == b.frequency_spec() && a.interval_spec() == b.interval_spec()
                && a.until_spec() == b.until_spec()) <==> a == b,
    {
    }

    pub closed spec fn frequency_spec(self) -> Frequency {
        self.frequency
    }

    pub closed spec fn interval_spec(self) -> u32 {
        self.interval
    }

    pub closed spec fn until_spec(self) -> Option<Instant> {
        self.until
    }

    /// The rule; `InvalidInterval` when `interval` is zero.
    pub fn new(frequency: Frequency, interval: u32, until: Option<Instant>) -> (r: Result<
        RecurrenceRule,
        DomainError,
    >)
        ensures
            r is Err <==> interval == 0,
            r is Err ==> r == Err::<RecurrenceRule, DomainError>(DomainError::InvalidInterval),
            r matches Ok(rule) ==> rule.frequency_spec() == frequency && rule.interval_spec()
                == interval && rule.until_spec() == until,
    {
        if interval == 0 {
            return Err(DomainError::InvalidInterval);
        }
        Ok(RecurrenceRule { frequency, interval, until })
    }

    pub fn frequency(&self) -> (r: Frequency)
        ensures
            r == self.frequency_spec(),
    {
        self.frequency
    }

    /// The number of steps between occurrences, which is positive.
    pub fn interval(&self) -> (r: u32)
        ensures
            r == self.interval_spec(),
            r > 0,
    {
        proof {
            use_type_invariant(self);
        }
        self.interval
    }

    pub fn until(&self) -> (r: Option<Instant>)
        ensures
            r == self.until_spec(),
    {
        self.until
    }
}

/// What an exception does to its occurrence.
#[derive(Clone, Copy, Debug, PartialEq, Eq, Structural)]
pub enum ExceptionModification {
    Cancelled,
    Rescheduled { new_time_range: TimeRange },
}

/// An override of the occurrence that originally starts at `original_starts_at`.
#[derive(Clone, Copy, Debug, PartialEq, Eq, Structural)]
pub struct RecurrenceException {
    pub original_starts_at: Instant,
    pub modification: ExceptionModification,
}

impl RecurrenceException {
    /// The exception that suppresses the occurrence at `original_starts_at`.
    pub fn cancelled(original_starts_at: Instant) -> (r: RecurrenceException)
        ensures
            r.original_starts_at == original_starts_at,
            r.modification == ExceptionModification::Cancelled,
    {
        RecurrenceException { original_starts_at, modification: ExceptionModification::Cancelled }
    }

    /// The exception that moves the occurrence at `original_starts_at` to `new_time_range`.
    pub fn rescheduled(original_starts_at: Instant, new_time_range: TimeRange) -> (r:
        RecurrenceException)
        ensures
            r.original_starts_at == original_starts_at,
            r.modification == (ExceptionModification::Rescheduled { new_time_range }),
    {
        RecurrenceException {
            original_starts_at,
            modification: ExceptionModification::Rescheduled { new_time_range },
        }
    }

    pub fn original_starts_at(&self) -> (r: Instant)
        ensures
            r == self.original_starts_at,
    {
        self.original_starts_at
    }

    pub fn modification(&self) -> (r: ExceptionModification)
        ensures
            r == self.modification,
    {
        self.modification
    }

    /// The replacement range of a rescheduled occurrence; `None` for a cancelled one.
    pub fn new_time_range(&self) -> (r: Option<TimeRange>)
        ensures
            r == (match self.modification {
                ExceptionModification::Rescheduled { new_time_range } => Some(new_time_range),
                ExceptionModification::Cancelled => None,
            }),
    {
        match self.modification {
            ExceptionModification::Rescheduled { new_time_range } => Some(new_time_range),
            ExceptionModification::Cancelled => None,
        }
    }
}

/// The overrides of a sequence of exceptions, keyed by original start; a later
/// entry for the same key wins.
pub open spec fn exception_map(s: Seq<RecurrenceException>) -> Map<
    Instant,
    ExceptionModification,
>
    decreases s.len(),
{
    if s.len() == 0 {
        Map::empty()
    } else {
        exception_map(s.drop_last()).insert(s.last().original_starts_at, s.last().modification)
    }
}

/// No two exceptions share an original start.
pub open spec fn keys_unique(s: Seq<RecurrenceException>) -> bool {
    forall|i: int, j: int|
        0 <= i < j < s.len() ==> #[trigger] s[i].original_starts_at
            != #[trigger] s[j].original_starts_at
}

/// The keys of the map are the original starts of the sequence, and under unique
/// keys each maps to its own modification.
pub proof fn lemma_exception_map(s: Seq<RecurrenceException>)
    ensures
        forall|k: Instant|
            #[trigger] exception_map(s).contains_key(k) <==> exists|i: int|
                0 <= i < s.len() && s[i].original_starts_at == k,
        keys_unique(s) ==> forall|i: int|
            0 <= i < s.len() ==> exception_map(s)[#[trigger] s[i].original_starts_at]
                == s[i].modification,
    decreases s.len(),
{
    if s.len() > 0 {
        let p = s.drop_last();
        lemma_exception_map(p);
        assert forall|k: Instant| #[trigger]
            exception_map(s).contains_key(k) <==> exists|i: int|
                0 <= i < s.len() && s[i].original_starts_at == k by {
            if exception_map(s).contains_key(k) && k != s.last().original_starts_at {
                let i = choose|i: int| 0 <= i < p.len() && p[i].original_starts_at == k;
                assert(s[i] == p[i]);
            }
            if exists|i: int| 0 <= i < s.len() && s[i].original_starts_at == k {
                let i = choose|i: int| 0 <= i < s.len() && s[i].original_starts_at == k;
                if i < s.len() - 1 {
                    assert(p[i] == s[i]);
                }
            }
        }
        if keys_unique(s) {
            assert forall|i: int| 0 <= i < s.len() implies exception_map(s)[
                #[trigger] s[i].original_starts_at] == s[i].modification by {
                if i < s.len() - 1 {
                    assert(p[i] == s[i]);
                    assert(s[i].original_starts_at != s[s.len() - 1].original_starts_at);
                }
            }
        }
    }
}

/// The effective state of one occurrence.
#[derive(Clone, Copy, Debug, PartialEq, Eq, Structural)]
pub enum OccurrenceState {
    /// The occurrence does not take place.
    Cancelled,
    /// The occurrence takes place in the given range instead.
    Rescheduled(TimeRange),
    /// The occurrence follows the base pattern.
    Unmodified,
}

/// What a recurring event holds.
pub struct RecurringEventView {
    pub id: EventId,
    pub calendar_id: CalendarId,
    pub title: Seq<char>,
    pub description: Option<Seq<char>>,
    pub time_range: TimeRange,
    pub rule: RecurrenceRule,
    pub exceptions: Map<Instant, ExceptionModification>,
    pub color: EventColor,
    pub is_all_day: bool,
    pub is_cancelled: bool,
    pub created_at: Instant,
    pub updated_at: Instant,
}

impl RecurringEventView {
    /// Series cancellation first, then an exception for the occurrence, then the base
    /// pattern.
    pub open spec fn resolve(self, original_starts_at: Instant) -> OccurrenceState {
        if self.is_cancelled {
            OccurrenceState::Cancelled
        } else if self.exceptions.contains_key(original_starts_at) {
            match self.exceptions[original_starts_at] {
                ExceptionModification::Cancelled => OccurrenceState::Cancelled,
                ExceptionModification::Rescheduled { new_time_range } => OccurrenceState::Rescheduled(
                    new_time_range,
                ),
            }
        } else {
            OccurrenceState::Unmodified
        }
    }
}

/// A cancelled series cancels every occurrence, whatever exception it holds.
pub proof fn lemma_series_cancellation_dominates(v: RecurringEventView, original_starts_at: Instant)
    requires
        v.is_cancelled,
    ensures
        v.resolve(original_starts_at) == OccurrenceState::Cancelled,
{
}

/// In a live series whose only exception reschedules the occurrence at `t` to `range`,
/// that occurrence takes place in `range` and every other one follows the base pattern.
pub proof fn lemma_rescheduled_occurrence(v: RecurringEventView, t: Instant, range: TimeRange)
    requires
        !v.is_cancelled,
        v.exceptions == map![t => ExceptionModification::Rescheduled { new_time_range: range }],
    ensures
        v.resolve(t) == OccurrenceState::Rescheduled(range),
        forall|u: Instant| u != t ==> #[trigger] v.resolve(u) == OccurrenceState::Unmodified,
{
}

/// A repeating event with its overrides; no two overrides share an original start.
#[derive(Debug)]
pub struct RecurringEvent {
    id: EventId,
    calendar_id: CalendarId,
    title: String,
    description: Option<String>,
    time_range: TimeRange,
    rule: RecurrenceRule,
    exceptions: Vec<RecurrenceException>,
    color: EventColor,
    is_all_day: bool,
    is_cancelled: bool,
    created_at: Instant,
    updated_at: Instant,
}

impl View for RecurringEvent {
    type V = RecurringEventView;

    closed spec fn view(&self) -> RecurringEventView {
        RecurringEventView {
            id: self.id,
            calendar_id: self.calendar_id,
            title: self.title@,
            description: opt_text(self.description),
            time_range: self.time_range,
            rule: self.rule,
            exceptions: exception_map(self.exceptions@),
            color: self.color,
            is_all_day: self.is_all_day,
            is_cancelled: self.is_cancelled,
            created_at: self.created_at,
            updated_at: self.updated_at,
        }
    }
}

/// The exceptions of `v` without the one keyed by `key`.
fn without_key(v: &Vec<RecurrenceException>, key: Instant) -> (r: Vec<RecurrenceException>)
    requires
        keys_unique(v@),
    ensures
        keys_unique(r@),
        exception_map(r@) == exception_map(v@).remove(key),
        forall|i: int| 0 <= i < r@.len() ==> #[trigger] r@[i].original_starts_at != key,
{
    let mut out: Vec<RecurrenceException> = Vec::new();
    let mut j: usize = 0;
    while j < v.len()
        invariant
            j <= v@.len(),
            keys_unique(v@),
            keys_unique(out@),
            exception_map(out@) == exception_map(v@.take(j as int)).remove(key),
            forall|a: int|
                0 <= a < out@.len() ==> #[trigger] out@[a].original_starts_at != key && exists|
                    b: int,
                |
                    0 <= b < j && v@[b].original_starts_at == out@[a].original_starts_at,
        decreases v@.len() - j,
    {
        let e = v[j];
        proof {
            assert(v@.take(j as int + 1).drop_last() == v@.take(j as int));
        }
        if !e.original_starts_at.same_as(&key) {
            proof {
                assert forall|a: int| 0 <= a < out@.len() implies #[trigger] out@[a].original_starts_at
                    != e.original_starts_at by {
                    let b = choose|b: int|
                        0 <= b < j && v@[b].original_starts_at == out@[a].original_starts_at;
                    assert(v@[b].original_starts_at != v@[j as int].original_starts_at);
                }
            }
            let ghost old_out = out@;
            out.push(e);
            proof {
                assert(out@.drop_last() == old_out);
                assert(exception_map(out@) =~= exception_map(v@.take(j as int + 1)).remove(key));
                assert forall|a: int| 0 <= a < out@.len() implies #[trigger] out@[a].original_starts_at
                    != key && exists|b: int|
                    0 <= b < j + 1 && v@[b].original_starts_at == out@[a].original_starts_at by {
                    if a < old_out.len() {
                        assert(out@[a] == old_out[a]);
                        let b = choose|b: int|
                            0 <= b < j && v@[b].original_starts_at == old_out[a].original_starts_at;
                        assert(0 <= b < j + 1);
                    } else {
                        assert(v@[j as int].original_starts_at == out@[a].original_starts_at);
                    }
                }
            }
        } else {
            proof {
                assert(exception_map(out@) =~= exception_map(v@.take(j as int + 1)).remove(key));
            }
        }
        j = j + 1;
    }
    proof {
        assert(v@.take(v@.len() as int) == v@);
    }
    out
}

/// The exceptions of `v` with `e` in place of any exception for the same original start.
fn with_exception(v: &Vec<RecurrenceException>, e: RecurrenceException) -> (r: Vec<
    RecurrenceException,
>)
    requires
        keys_unique(v@),
    ensures
        keys_unique(r@),
        exception_map(r@) == exception_map(v@).insert(e.original_starts_at, e.modification),
{
    let mut next = without_key(v, e.original_starts_at);
    let ghost rest = next@;
    next.push(e);
    proof {
        assert(next@.drop_last() == rest);
        assert(exception_map(next@) =~= exception_map(v@).insert(
            e.original_starts_at,
            e.modification,
        ));
        assert forall|a: int, b: int| 0 <= a < b < next@.len() implies #[trigger] next@[a].original_starts_at
            != #[trigger] next@[b].original_starts_at by {
            if b == next@.len() - 1 {
                assert(next@[a] == rest[a]);
            } else {
                assert(next@[a] == rest[a] && next@[b] == rest[b]);
            }
        }
    }
    next
}

impl Clone for RecurringEvent {
    fn clone(&self) -> (r: RecurringEvent)
        ensures
            r@ == self@,
    {
        proof {
            use_type_invariant(self);
        }
        RecurringEvent {
            id: self.id,
            calendar_id: self.calendar_id,
            title: self.title.clone(),
            description: copy_opt_text(&self.description),
            time_range: self.time_range,
            rule: self.rule,
            exceptions: self.exceptions.clone(),
            color: self.color,
            is_all_day: self.is_all_day,
            is_cancelled: self.is_cancelled,
            created_at: self.created_at,
            updated_at: self.updated_at,
        }
    }
}

impl RecurringEvent {
    #[verifier::type_invariant]
    spec fn inv(self) -> bool {
        keys_unique(self.exceptions@)
    }

    /// A new, not cancelled series without exceptions, with a fresh identifier,
    /// created and updated at `now`.
    pub fn new(
        calendar_id: CalendarId,
        title: String,
        description: Option<String>,
        time_range: TimeRange,
        rule: RecurrenceRule,
        color: EventColor,
        is_all_day: bool,
        now: Instant,
    ) -> (r: RecurringEvent)
        ensures
            is_random_uuid(r@.id@),
            r@.calendar_id == calendar_id,
            r@.title == title@,
            r@.description == opt_text(description),
            r@.time_range == time_range,
            r@.rule == rule,
            r@.exceptions == Map::<Instant, ExceptionModification>::empty(),
            r@.color == color,
            r@.is_all_day == is_all_day,
            !r@.is_cancelled,
            r@.created_at == now,
            r@.updated_at == now,
    {
        RecurringEvent {
            id: EventId::new(),
            calendar_id,
            title,
            description,
            time_range,
            rule,
            exceptions: Vec::new(),
            color,
            is_all_day,
            is_cancelled: false,
            created_at: now,
            updated_at: now,
        }
    }

    /// A series with every field given; the exceptions are added in order, so a
    /// later one replaces an earlier one with the same original start.
    pub fn with_id(
        id: EventId,
        calendar_id: CalendarId,
        title: String,
        description: Option<String>,
        time_range: TimeRange,
        rule: RecurrenceRule,
        exceptions: Vec<RecurrenceException>,
        color: EventColor,
        is_all_day: bool,
        is_cancelled: bool,
        created_at: Instant,
        updated_at: Instant,
    ) -> (r: RecurringEvent)
        ensures
            r@ == (RecurringEventView {
                id,
                calendar_id,
                title: title@,
                description: opt_text(description),
                time_range,
                rule,
                exceptions: exception_map(exceptions@),
                color,
                is_all_day,
                is_cancelled,
                created_at,
                updated_at,
            }),
    {
        let mut kept: Vec<RecurrenceException> = Vec::new();
        let mut j: usize = 0;
        while j < exceptions.len()
            invariant
                j <= exceptions@.len(),
                keys_unique(kept@),
                exception_map(kept@) == exception_map(exceptions@.take(j as int)),
            decreases exceptions@.len() - j,
        {
            let e = exceptions[j];
            let next = with_exception(&kept, e);
            proof {
                assert(exceptions@.take(j as int + 1).drop_last() == exceptions@.take(j as int));
            }
            kept = next;
            j = j + 1;
        }
        proof {
            assert(exceptions@.take(exceptions@.len() as int) == exceptions@);
        }
        RecurringEvent {
            id,
            calendar_id,
            title,
            description,
            time_range,
            rule,
            exceptions: kept,
            color,
            is_all_day,
            is_cancelled,
            created_at,
            updated_at,
        }
    }

    pub fn id(&self) -> (r: EventId)
        ensures
            r == self@.id,
    {
        self.id
    }

    pub fn calendar_id(&self) -> (r: CalendarId)
        ensures
            r == self@.calendar_id,
    {
        self.calendar_id
    }

    pub fn title(&self) -> (r: &str)
        ensures
            r@ == self@.title,
    {
        self.title.as_str()
    }

    pub fn description(&self) -> (r: &Option<String>)
        ensures
            opt_text(*r) == self@.description,
    {
        &self.description
    }

    pub fn time_range(&self) -> (r: TimeRange)
        ensures
            r == self@.time_range,
    {
        self.time_range
    }

    pub fn rule(&self) -> (r: RecurrenceRule)
        ensures
            r == self@.rule,
    {
        self.rule
    }

    /// The exceptions, one per original start, in no particular order.
    pub fn exceptions(&self) -> (r: &Vec<RecurrenceException>)
        ensures
            exception_map(r@) == self@.exceptions,
            keys_unique(r@),
    {
        proof {
            use_type_invariant(self);
        }
        &self.exceptions
    }

    pub fn color(&self) -> (r: EventColor)
        ensures
            r == self@.color,
    {
        self.color
    }

    pub fn is_all_day(&self) -> (r: bool)
        ensures
            r == self@.is_all_day,
    {
        self.is_all_day
    }

    pub fn is_cancelled(&self) -> (r: bool)
        ensures
            r == self@.is_cancelled,
    {
        self.is_cancelled
    }

    pub fn created_at(&self) -> (r: Instant)
        ensures
            r == self@.created_at,
    {
        self.created_at
    }

    pub fn updated_at(&self) -> (r: Instant)
        ensures
            r == self@.updated_at,
    {
        self.updated_at
    }

    /// Adds the exception, replacing any other for the same original start, and
    /// stamps the series.
    pub fn add_exception(&mut self, exception: RecurrenceException, now: Instant)
        ensures
            final(self)@ == (RecurringEventView {
                exceptions: old(self)@.exceptions.insert(
                    exception.original_starts_at,
                    exception.modification,
                ),
                updated_at: now,
                ..old(self)@
            }),
    {
        proof {
            use_type_invariant(&*self);
        }
        let next = with_exception(&self.exceptions, exception);
        self.exceptions = next;
        self.touch(now);
    }

    /// Drops the exception for the given original start, if any, and stamps the series.
    pub fn remove_exception(&mut self, original_starts_at: Instant, now: Instant)
        ensures
            final(self)@ == (RecurringEventView {
                exceptions: old(self)@.exceptions.remove(original_starts_at),
                updated_at: now,
                ..old(self)@
            }),
    {
        proof {
            use_type_invariant(&*self);
        }
        let next = without_key(&self.exceptions, original_starts_at);
        self.exceptions = next;
        self.touch(now);
    }

    /// Brings the occurrence back to the base pattern: the same as `remove_exception`.
    pub fn restore_occurrence(&mut self, original_starts_at: Instant, now: Instant)
        ensures
            final(self)@ == (RecurringEventView {
                exceptions: old(self)@.exceptions.remove(original_starts_at),
                updated_at: now,
                ..old(self)@
            }),
    {
        self.remove_exception(original_starts_at, now);
    }

    /// Suppresses the occurrence that originally starts at `original_starts_at`.
    pub fn cancel_occurrence(&mut self, original_starts_at: Instant, now: Instant)
        ensures
            final(self)@ == (RecurringEventView {
                exceptions: old(self)@.exceptions.insert(
                    original_starts_at,
                    ExceptionModification::Cancelled,
                ),
                updated_at: now,
                ..old(self)@
            }),
    {
        let exception = RecurrenceException::cancelled(original_starts_at);
        self.add_exception(exception, now);
    }

    /// Moves the occurrence that originally starts at `original_starts_at` to
    /// `new_time_range`.
    pub fn reschedule_occurrence(
        &mut self,
        original_starts_at: Instant,
        new_time_range: TimeRange,
        now: Instant,
    )
        ensures
            final(self)@ == (RecurringEventView {
                exceptions: old(self)@.exceptions.insert(
                    original_starts_at,
                    ExceptionModification::Rescheduled { new_time_range },
                ),
                updated_at: now,
                ..old(self)@
            }),
    {
        let exception = RecurrenceException::rescheduled(original_starts_at, new_time_range);
        self.add_exception(exception, now);
    }

    /// Cancels the whole series and stamps it.
    pub fn cancel(&mut self, now: Instant)
        ensures
            final(self)@ == (RecurringEventView { is_cancelled: true, updated_at: now, ..old(self)@ }),
    {
        proof {
            use_type_invariant(&*self);
        }
        self.is_cancelled = true;
        self.touch(now);
    }

    /// Lifts the cancellation of the series and stamps it.
    pub fn restore(&mut self, now: Instant)
        ensures
            final(self)@ == (RecurringEventView { is_cancelled: false, updated_at: now, ..old(self)@ }),
    {
        proof {
            use_type_invariant(&*self);
        }
        self.is_cancelled = false;
        self.touch(now);
    }

    /// Sets the time of the last change.
    pub fn touch(&mut self, now: Instant)
        ensures
            final(self)@ == (RecurringEventView { updated_at: now, ..old(self)@ }),
    {
        proof {
            use_type_invariant(&*self);
        }
        self.updated_at = now;
    }

    /// The effective state of the occurrence that originally starts at
    /// `original_starts_at`: series cancellation first, then its exception, then the
    /// base pattern.
    pub fn resolve_occurrence(&self, original_starts_at: Instant) -> (r: OccurrenceState)
        ensures
            r == self@.resolve(original_starts_at),
    {
        proof {
            use_type_invariant(self);
            lemma_exception_map(self.exceptions@);
        }
        if self.is_cancelled {
            return OccurrenceState::Cancelled;
        }
        let mut j: usize = 0;
        while j < self.exceptions.len()
            invariant
                j <= self.exceptions@.len(),
                !self.is_cancelled,
                forall|a: int| 0 <= a < j ==> #[trigger] self.exceptions@[a].original_starts_at
                    != original_starts_at,
            decreases self.exceptions@.len() - j,
        {
            let e = self.exceptions[j];
            if e.original_starts_at.same_as(&original_starts_at) {
                proof {
                    use_type_invariant(self);
                    lemma_exception_map(self.exceptions@);
                    assert(exception_map(self.exceptions@)[self.exceptions@[j as int].original_starts_at]
                        == e.modification);
                }
                return match e.modification {
                    ExceptionModification::Cancelled => OccurrenceState::Cancelled,
                    ExceptionModification::Rescheduled { new_time_range } => {
                        OccurrenceState::Rescheduled(new_time_range)
                    },
                };
            }
            j = j + 1;
        }
        proof {
            lemma_exception_map(self.exceptions@);
            if exception_map(self.exceptions@).contains_key(original_starts_at) {
                let i = choose|i: int|
                    0 <= i < self.exceptions@.len() && self.exceptions@[i].original_starts_at
                        == original_starts_at;
                assert(self.exceptions@[i].original_starts_at != original_starts_at);
            }
        }
        OccurrenceState::Unmodified
    }
}

} // verus!
