//! Identifiers, the validated time interval, recurrence frequency and colour.
use vstd::prelude::*;
use vstd::string::*;

use crate::error::{DomainError, IdFormatError};
use crate::instant::{earlier, Instant};

verus! {

/// The lower-case hexadecimal digit of a value below sixteen.
pub open spec fn hex_digit(d: nat) -> char {
    seq!['0', '1', '2', '3', '4', '5', '6', '7', '8', '9', 'a', 'b', 'c', 'd', 'e', 'f'][d as int]
}

/// The last `n` hexadecimal digits of `v`, most significant first.
pub open spec fn hex_digits(v: nat, n: nat) -> Seq<char>
    decreases n,
{
    if n == 0 {
        Seq::empty()
    } else {
        hex_digits(v / 16, (n - 1) as nat).push(hex_digit((v % 16) as nat))
    }
}

/// The canonical text of a 128-bit identifier: its 32 lower-case hexadecimal digits
/// in groups of 8, 4, 4, 4 and 12, joined by hyphens.
pub open spec fn uuid_text(v: u128) -> Seq<char> {
    let d = hex_digits(v as nat, 32);
    d.subrange(0, 8) + seq!['-'] + d.subrange(8, 12) + seq!['-'] + d.subrange(12, 16) + seq!['-']
        + d.subrange(16, 20) + seq!['-'] + d.subrange(20, 32)
}

/// Whether a 128-bit value carries the marks of a random identifier: version 4
/// and the RFC 4122 variant.
pub open spec fn is_random_uuid(v: u128) -> bool {
    &&& (v >> 76u128) & 0xfu128 == 4u128
    &&& (v >> 62u128) & 0x3u128 == 2u128
}

/// The 128-bit value that the uuid crate reads from text, or nothing when the
/// text is not an identifier.
pub uninterp spec fn uuid_reading(s: Seq<char>) -> Option<u128>;

/// What `str::to_uppercase` makes of a text.
pub uninterp spec fn upper_of(s: Seq<char>) -> Seq<char>;

/// Relies on uuid's `Uuid::new_v4` and `Uuid::as_u128`: random bits with the
/// version-4 and RFC 4122 variant bits masked in.
#[verifier::external_body]
fn random_uuid() -> (r: u128)
    ensures
        is_random_uuid(r),
{
    uuid::Uuid::new_v4().as_u128()
}

/// Relies on uuid's `Uuid::from_u128` and its `Display`, which writes the hyphenated
/// lower-case form, and on `Uuid::parse_str`, which reads that form back as the
/// same value.
#[verifier::external_body]
fn format_uuid(v: u128) -> (r: String)
    ensures
        r@ == uuid_text(v),
        uuid_reading(r@) == Some(v),
{
    uuid::Uuid::from_u128(v).to_string()
}

/// Relies on uuid's `Uuid::parse_str` and `Uuid::as_u128`.
#[verifier::external_body]
fn read_uuid(s: &str) -> (r: Option<u128>)
    ensures
        r == uuid_reading(s@),
{
    match uuid::Uuid::parse_str(s) {
        Ok(u) => Some(u.as_u128()),
        Err(_) => None,
    }
}

/// Relies on `str::to_uppercase`: the upper-case form of the text.
#[verifier::external_body]
fn uppercase(s: &str) -> (r: String)
    ensures
        r@ == upper_of(s@),
{
    s.to_uppercase()
}

/// A palette index, stored as its raw integer.
#[derive(Clone, Copy, Debug, PartialEq, Eq, Structural)]
pub struct EventColor(pub u8);

impl From<u8> for EventColor {
    fn from(value: u8) -> (r: EventColor)
        ensures
            r.0 == value,
    {
        EventColor(value)
    }
}

impl vstd::std_specs::convert::FromSpecImpl<u8> for EventColor {
    open spec fn obeys_from_spec() -> bool {
        true
    }

    open spec fn from_spec(v: u8) -> EventColor {
        EventColor(v)
    }
}

impl From<EventColor> for u8 {
    fn from(color: EventColor) -> (r: u8)
        ensures
            r == color.0,
    {
        color.0
    }
}

impl vstd::std_specs::convert::FromSpecImpl<EventColor> for u8 {
    open spec fn obeys_from_spec() -> bool {
        true
    }

    open spec fn from_spec(c: EventColor) -> u8 {
        c.0
    }
}

/// A half-open interval `[start, end)` of UTC instants with `start` strictly before `end`.
#[derive(Clone, Copy, Debug, PartialEq, Eq, Structural)]
pub struct TimeRange {
    starts_at: Instant,
    ends_at: Instant,
}

/// Nanoseconds from instant `a` to instant `b`, both given as (unix seconds, nanoseconds).
pub open spec fn nanos_between(a: (i64, u32), b: (i64, u32)) -> int {
    (b.0 - a.0) * 1000000000 + (b.1 - a.1)
}

impl TimeRange {
    #[verifier::type_invariant]
    spec fn inv(self) -> bool {
        earlier(self.starts_at@, self.ends_at@)
    }

    /// The first instant of the range.
    pub closed spec fn start(self) -> Instant {
        self.starts_at
    }

    /// The first instant after the range.
    pub closed spec fn end(self) -> Instant {
        self.ends_at
    }

    /// Two ranges are equal exactly when their starts and ends are.
    pub proof fn lemma_eq(a: TimeRange, b: TimeRange)
        ensures
            (a.start() == b.start() && a.end() == b.end()) <==> a == b,
    {
    }

    /// Half-open overlap: each range starts strictly before the other ends.
    pub open spec fn overlaps_spec(self, other: TimeRange) -> bool {
        earlier(self.start()@, other.end()@) && earlier(other.start()@, self.end()@)
    }

    /// The range `[starts_at, ends_at)`; `InvalidTimeRange` unless `starts_at` comes
    /// strictly before `ends_at`.
    pub fn new(starts_at: Instant, ends_at: Instant) -> (r: Result<TimeRange, DomainError>)
        ensures
            r is Ok <==> earlier(starts_at@, ends_at@),
            r matches Ok(t) ==> t.start() == starts_at && t.end() == ends_at,
            r is Err ==> r == Err::<TimeRange, DomainError>(DomainError::InvalidTimeRange),
    {
        if starts_at.is_before(&ends_at) {
            Ok(TimeRange { starts_at, ends_at })
        } else {
            Err(DomainError::InvalidTimeRange)
        }
    }

    /// The start strictly precedes the end.
    pub fn starts_at(&self) -> (r: Instant)
        ensures
            r == self.start(),
            earlier(self.start()@, self.end()@),
    {
        proof {
            use_type_invariant(self);
        }
        self.starts_at
    }

    pub fn ends_at(&self) -> (r: Instant)
        ensures
            r == self.end(),
            earlier(self.start()@, self.end()@),
    {
        proof {
            use_type_invariant(self);
        }
        self.ends_at
    }

    /// Whether the two ranges share some instant.
    pub fn overlaps(&self, other: &TimeRange) -> (r: bool)
        ensures
            r == self.overlaps_spec(*other),
    {
        self.starts_at.is_before(&other.ends_at) && other.starts_at.is_before(&self.ends_at)
    }

    /// The length of the range in nanoseconds; always positive.
    pub fn duration(&self) -> (r: i128)
        ensures
            r == nanos_between(self.start()@, self.end()@),
            r > 0,
    {
        proof {
            use_type_invariant(self);
        }
        let s = self.starts_at.unix_secs();
        let sn = self.starts_at.subsec_nanos();
        let e = self.ends_at.unix_secs();
        let en = self.ends_at.subsec_nanos();
        let ds: i128 = e as i128 - s as i128;
        assert(0 <= ds <= 400000000000);
        let whole: i128 = ds * 1000000000;
        assert(ds > 0 ==> whole >= 1000000000) by (nonlinear_arith)
            requires
                whole == ds * 1000000000,
        ;
        whole + (en as i128 - sn as i128)
    }
}

/// Instant `t` lies in the closed span from `lo` to `hi`.
pub open spec fn between(t: (i64, u32), lo: (i64, u32), hi: (i64, u32)) -> bool {
    !earlier(t, lo) && !earlier(hi, t)
}

/// The two ranges share an open sub-interval: some `x` strictly before `y` with both
/// `x` and `y` inside each range.
pub open spec fn share_open_interval(a: TimeRange, b: TimeRange) -> bool {
    exists|x: (i64, u32), y: (i64, u32)|
        #![trigger earlier(x, y)]
        earlier(x, y) && between(x, a.start()@, a.end()@) && between(y, a.start()@, a.end()@)
            && between(x, b.start()@, b.end()@) && between(y, b.start()@, b.end()@)
}

/// Two ordered ranges overlap exactly when they share an open sub-interval; in
/// particular ranges that are disjoint (one ends no later than the other starts) do
/// not overlap.
pub proof fn lemma_overlap_iff_shared_interval(a: TimeRange, b: TimeRange)
    requires
        earlier(a.start()@, a.end()@),
        earlier(b.start()@, b.end()@),
    ensures
        a.overlaps_spec(b) <==> share_open_interval(a, b),
        !earlier(b.start()@, a.end()@) || !earlier(a.start()@, b.end()@) ==> !a.overlaps_spec(b),
{
    let x = if earlier(a.start()@, b.start()@) {
        b.start()@
    } else {
        a.start()@
    };
    let y = if earlier(a.end()@, b.end()@) {
        a.end()@
    } else {
        b.end()@
    };
    if a.overlaps_spec(b) {
        assert(earlier(x, y) && between(x, a.start()@, a.end()@) && between(y, a.start()@, a.end()@)
            && between(x, b.start()@, b.end()@) && between(y, b.start()@, b.end()@));
    }
}

/// Overlap does not depend on the order of the two ranges.
pub proof fn lemma_overlap_symmetric(a: TimeRange, b: TimeRange)
    ensures
        a.overlaps_spec(b) == b.overlaps_spec(a),
{
}

/// A range does not overlap one that starts exactly where it ends, in either order.
pub proof fn lemma_touching_ranges_do_not_overlap(a: TimeRange, b: TimeRange)
    requires
        b.start() == a.end(),
    ensures
        !a.overlaps_spec(b),
        !b.overlaps_spec(a),
{
}

/// How often a recurring event repeats.
#[derive(Clone, Copy, Debug, PartialEq, Eq, Structural, Hash)]
pub enum Frequency {
    Daily,
    Weekly,
    Monthly,
    Yearly,
}

impl Frequency {
    /// The canonical text of a frequency: its name in capitals.
    pub open spec fn canonical_name(self) -> Seq<char> {
        match self {
            Frequency::Daily => seq!['D', 'A', 'I', 'L', 'Y'],
            Frequency::Weekly => seq!['W', 'E', 'E', 'K', 'L', 'Y'],
            Frequency::Monthly => seq!['M', 'O', 'N', 'T', 'H', 'L', 'Y'],
            Frequency::Yearly => seq!['Y', 'E', 'A', 'R', 'L', 'Y'],
        }
    }

    /// The frequency whose canonical text is `s`, if any.
    pub open spec fn named(s: Seq<char>) -> Option<Frequency> {
        if s == Frequency::Daily.canonical_name() {
            Some(Frequency::Daily)
        } else if s == Frequency::Weekly.canonical_name() {
            Some(Frequency::Weekly)
        } else if s == Frequency::Monthly.canonical_name() {
            Some(Frequency::Monthly)
        } else if s == Frequency::Yearly.canonical_name() {
            Some(Frequency::Yearly)
        } else {
            None
        }
    }

    /// Each canonical text names its own frequency.
    pub proof fn lemma_named_canonical(f: Frequency)
        ensures
            Frequency::named(f.canonical_name()) == Some(f),
    {
        let d = Frequency::Daily.canonical_name();
        let w = Frequency::Weekly.canonical_name();
        let m = Frequency::Monthly.canonical_name();
        let y = Frequency::Yearly.canonical_name();
        assert(d.len() == 5 && w.len() == 6 && m.len() == 7 && y.len() == 6);
        assert(w[0] != y[0]);
    }

    /// The result of reading a canonical text.
    pub open spec fn from_canonical_spec(s: Seq<char>) -> Result<Frequency, DomainError> {
        match Frequency::named(s) {
            Some(f) => Ok(f),
            None => Err(DomainError::InvalidFrequency),
        }
    }

    /// The canonical text, e.g. `WEEKLY`.
    pub fn to_string(&self) -> (r: String)
        ensures
            r@ == self.canonical_name(),
    {
        match self {
            Frequency::Daily => {
                proof {
                    reveal_strlit("DAILY");
                }
                String::from_str("DAILY")
            },
            Frequency::Weekly => {
                proof {
                    reveal_strlit("WEEKLY");
                }
                String::from_str("WEEKLY")
            },
            Frequency::Monthly => {
                proof {
                    reveal_strlit("MONTHLY");
                }
                String::from_str("MONTHLY")
            },
            Frequency::Yearly => {
                proof {
                    reveal_strlit("YEARLY");
                }
                String::from_str("YEARLY")
            },
        }
    }

    /// Reads a canonical text exactly; anything else is `InvalidFrequency`.
    pub fn from_canonical(s: &str) -> (r: Result<Frequency, DomainError>)
        ensures
            r == Frequency::from_canonical_spec(s@),
    {
        let text = String::from_str(s);
        let daily = Frequency::Daily.to_string();
        let weekly = Frequency::Weekly.to_string();
        let monthly = Frequency::Monthly.to_string();
        let yearly = Frequency::Yearly.to_string();
        if text == daily {
            Ok(Frequency::Daily)
        } else if text == weekly {
            Ok(Frequency::Weekly)
        } else if text == monthly {
            Ok(Frequency::Monthly)
        } else if text == yearly {
            Ok(Frequency::Yearly)
        } else {
            Err(DomainError::InvalidFrequency)
        }
    }

    /// The result of reading a frequency name in any letter case.
    pub open spec fn from_str_spec(s: Seq<char>) -> Result<Frequency, DomainError> {
        match Frequency::named(s) {
            Some(f) => Ok(f),
            None => Frequency::from_canonical_spec(upper_of(s)),
        }
    }

    /// Reads a frequency name in any letter case: the canonical text as it stands,
    /// anything else once upper-cased; what names no frequency is `InvalidFrequency`.
    pub fn from_str(s: &str) -> (r: Result<Frequency, DomainError>)
        ensures
            r == Frequency::from_str_spec(s@),
    {
        match Frequency::from_canonical(s) {
            Ok(f) => Ok(f),
            Err(_) => {
                let upper = uppercase(s);
                Frequency::from_canonical(upper.as_str())
            },
        }
    }
}

/// The identifier of a calendar.
#[derive(Clone, Copy, Debug, PartialEq, Eq, Structural, Hash)]
pub struct CalendarId(u128);

impl View for CalendarId {
    type V = u128;

    closed spec fn view(&self) -> u128 {
        self.0
    }
}

impl CalendarId {
    /// Two identifiers are equal exactly when their values are.
    pub proof fn lemma_view_injective(a: CalendarId, b: CalendarId)
        ensures
            a@ == b@ <==> a == b,
    {
    }

    /// A fresh random identifier.
    pub fn new() -> (r: CalendarId)
        ensures
            is_random_uuid(r@),
    {
        CalendarId(random_uuid())
    }

    pub fn from_u128(v: u128) -> (r: CalendarId)
        ensures
            r@ == v,
    {
        CalendarId(v)
    }

    pub fn as_u128(&self) -> (r: u128)
        ensures
            r == self@,
    {
        self.0
    }

    /// The canonical text of the identifier.
    pub fn to_string(&self) -> (r: String)
        ensures
            r@ == uuid_text(self@),
            uuid_reading(r@) == Some(self@),
    {
        format_uuid(self.0)
    }

    /// Reads an identifier from its text.
    pub fn from_str(s: &str) -> (r: Result<CalendarId, IdFormatError>)
        ensures
            r is Ok <==> uuid_reading(s@) is Some,
            r matches Ok(id) ==> uuid_reading(s@) == Some(id@),
            r matches Err(e) ==> e.text@ == s@,
    {
        match read_uuid(s) {
            Some(v) => Ok(CalendarId(v)),
            None => Err(IdFormatError { text: String::from_str(s) }),
        }
    }
}

/// The identifier of an event or of a recurring event.
#[derive(Clone, Copy, Debug, PartialEq, Eq, Structural, Hash)]
pub struct EventId(u128);

impl View for EventId {
    type V = u128;

    closed spec fn view(&self) -> u128 {
        self.0
    }
}

impl EventId {
    /// Two identifiers are equal exactly when their values are.
    pub proof fn lemma_view_injective(a: EventId, b: EventId)
        ensures
            a@ == b@ <==> a == b,
    {
    }

    /// A fresh random identifier.
    pub fn new() -> (r: EventId)
        ensures
            is_random_uuid(r@),
    {
        EventId(random_uuid())
    }

    pub fn from_u128(v: u128) -> (r: EventId)
        ensures
            r@ == v,
    {
        EventId(v)
    }

    pub fn as_u128(&self) -> (r: u128)
        ensures
            r == self@,
    {
        self.0
    }

    /// The canonical text of the identifier.
    pub fn to_string(&self) -> (r: String)
        ensures
            r@ == uuid_text(self@),
            uuid_reading(r@) == Some(self@),
    {
        format_uuid(self.0)
    }

    /// Reads an identifier from its text.
    pub fn from_str(s: &str) -> (r: Result<EventId, IdFormatError>)
        ensures
            r is Ok <==> uuid_reading(s@) is Some,
            r matches Ok(id) ==> uuid_reading(s@) == Some(id@),
            r matches Err(e) ==> e.text@ == s@,
    {
        match read_uuid(s) {
            Some(v) => Ok(EventId(v)),
            None => Err(IdFormatError { text: String::from_str(s) }),
        }
    }
}

} // verus!
