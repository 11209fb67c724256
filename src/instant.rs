//! A UTC instant held as plain values, and its timestamp text form.
use vstd::prelude::*;

verus! {

/// Unix seconds of 0000-01-01T00:00:00Z, the first instant with a four-digit year.
pub const MIN_UNIX_SECS: i64 = -62167219200;

/// Unix seconds of 9999-12-31T23:59:59Z, the last whole second with a four-digit year.
pub const MAX_UNIX_SECS: i64 = 253402300799;

/// Nanoseconds in one second.
pub const NANOS_PER_SEC: u32 = 1000000000;

/// The RFC 3339 text that chrono writes for the instant with these unix seconds and
/// sub-second nanoseconds.
pub uninterp spec fn rfc3339_text(secs: i64, nanos: u32) -> Seq<char>;

/// What chrono reads from RFC 3339 text: unix seconds and sub-second nanoseconds of
/// the UTC instant, or nothing when the text is not a valid timestamp.
pub uninterp spec fn rfc3339_reading(s: Seq<char>) -> Option<(i64, u32)>;

/// Whether unix seconds and nanoseconds name an instant of this library: a year of
/// four digits and a sub-second part below one second.
pub open spec fn representable(secs: int, nanos: int) -> bool {
    MIN_UNIX_SECS <= secs <= MAX_UNIX_SECS && 0 <= nanos < NANOS_PER_SEC
}

/// Strict order of instants given as (unix seconds, nanoseconds).
pub open spec fn earlier(a: (i64, u32), b: (i64, u32)) -> bool {
    a.0 < b.0 || (a.0 == b.0 && a.1 < b.1)
}

/// A point on the UTC time line, with nanosecond precision.
#[derive(Clone, Copy, Debug, PartialEq, Eq, Structural, Hash)]
pub struct Instant {
    secs: i64,
    nanos: u32,
}

impl View for Instant {
    type V = (i64, u32);

    closed spec fn view(&self) -> (i64, u32) {
        (self.secs, self.nanos)
    }
}

impl Instant {
    #[verifier::type_invariant]
    spec fn inv(self) -> bool {
        representable(self.secs as int, self.nanos as int)
    }

    /// Two instants are equal exactly when their views are.
    pub proof fn lemma_view_injective(a: Instant, b: Instant)
        ensures
            a@ == b@ <==> a == b,
    {
    }

    /// The instant with the given unix seconds and nanoseconds, when it is representable.
    pub fn from_unix(secs: i64, nanos: u32) -> (r: Option<Instant>)
        ensures
            r is Some <==> representable(secs as int, nanos as int),
            r matches Some(t) ==> t@ == (secs, nanos),
    {
        if MIN_UNIX_SECS <= secs && secs <= MAX_UNIX_SECS && nanos < NANOS_PER_SEC {
            Some(Instant { secs, nanos })
        } else {
            None
        }
    }

    /// Unix seconds of this instant.
    pub fn unix_secs(&self) -> (r: i64)
        ensures
            r == self@.0,
            representable(self@.0 as int, self@.1 as int),
    {
        proof {
            use_type_invariant(self);
        }
        self.secs
    }

    /// Nanoseconds past the unix second of this instant.
    pub fn subsec_nanos(&self) -> (r: u32)
        ensures
            r == self@.1,
            representable(self@.0 as int, self@.1 as int),
    {
        proof {
            use_type_invariant(self);
        }
        self.nanos
    }

    /// Whether this instant comes strictly before `other`.
    pub fn is_before(&self, other: &Instant) -> (r: bool)
        ensures
            r == earlier(self@, other@),
    {
        self.secs < other.secs || (self.secs == other.secs && self.nanos < other.nanos)
    }

    /// Whether the two instants are the same.
    pub fn same_as(&self, other: &Instant) -> (r: bool)
        ensures
            r == (*self == *other),
    {
        self.secs == other.secs && self.nanos == other.nanos
    }

    /// The current instant read from the system clock, when it is representable.
    pub fn now() -> (r: Option<Instant>)
        ensures
            r matches Some(t) ==> representable(t@.0 as int, t@.1 as int),
    {
        let (secs, nanos) = clock_reading();
        Instant::from_unix(secs, nanos)
    }

    /// The RFC 3339 text of this instant, with offset `+00:00`.
    pub fn to_rfc3339(&self) -> (r: String)
        ensures
            r@ == rfc3339_text(self@.0, self@.1),
            rfc3339_reading(r@) == Some(self@),
            representable(self@.0 as int, self@.1 as int),
    {
        proof {
            use_type_invariant(self);
        }
        format_rfc3339(self.secs, self.nanos)
    }

    /// Reads an RFC 3339 timestamp with any offset as the UTC instant it names;
    /// `None` when the text is no such timestamp or names no representable instant.
    pub fn parse_rfc3339(s: &str) -> (r: Option<Instant>)
        ensures
            r is Some <==> (rfc3339_reading(s@) matches Some(p) && representable(p.0 as int, p.1 as int)),
            r matches Some(t) ==> rfc3339_reading(s@) == Some(t@),
    {
        match read_rfc3339(s) {
            Some((secs, nanos)) => Instant::from_unix(secs, nanos),
            None => None,
        }
    }
}

/// Relies on chrono's `Utc::now`: unix seconds since the epoch and the nanoseconds
/// past them, which are below one second.
#[verifier::external_body]
fn clock_reading() -> (r: (i64, u32))
    ensures
        r.1 < NANOS_PER_SEC,
{
    let now = chrono::Utc::now();
    (now.timestamp(), now.timestamp_subsec_nanos())
}

/// Relies on chrono's `DateTime::<Utc>::from_timestamp` and `DateTime::to_rfc3339`:
/// for a year of four digits and nanoseconds below one second the instant exists,
/// is written as `YYYY-MM-DDThh:mm:ss[.fraction]+00:00` with no precision lost,
/// and `DateTime::parse_from_rfc3339` reads that text back as the same instant.
#[verifier::external_body]
fn format_rfc3339(secs: i64, nanos: u32) -> (r: String)
    requires
        representable(secs as int, nanos as int),
    ensures
        r@ == rfc3339_text(secs, nanos),
        rfc3339_reading(r@) == Some((secs, nanos)),
{
    match chrono::DateTime::<chrono::Utc>::from_timestamp(secs, nanos) {
        Some(t) => t.to_rfc3339(),
        None => String::new(),
    }
}

/// Relies on chrono's `DateTime::parse_from_rfc3339`, `timestamp` and
/// `timestamp_subsec_nanos`: the UTC unix seconds and nanoseconds of the parsed text.
#[verifier::external_body]
fn read_rfc3339(s: &str) -> (r: Option<(i64, u32)>)
    ensures
        r == rfc3339_reading(s@),
{
    match chrono::DateTime::parse_from_rfc3339(s) {
        Ok(t) => Some((t.timestamp(), t.timestamp_subsec_nanos())),
        Err(_) => None,
    }
}

} // verus!
