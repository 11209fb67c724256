//! The error kinds of the domain, of the row codec, of storage and of the
//! command layer.
use vstd::prelude::*;
use vstd::string::*;

verus! {

/// A rejected input to a domain constructor or mutation.
#[derive(Clone, Debug, PartialEq, Eq)]
pub enum DomainError {
    EmptyTitle,
    EmptyName,
    InvalidTimeRange,
    InvalidColor,
    InvalidFrequency,
    InvalidInterval,
    CalendarNotFound(String),
    EventNotFound(String),
    RecurrenceNotFound(String),
    CalendarArchived,
}

impl DomainError {
    /// The text that describes the error.
    pub open spec fn message_spec(&self) -> Seq<char> {
        match self {
            DomainError::EmptyTitle => "Title cannot be empty"@,
            DomainError::EmptyName => "Name cannot be empty"@,
            DomainError::InvalidTimeRange => "Invalid time range: start time must be before end time"@,
            DomainError::InvalidColor => "Invalid color value"@,
            DomainError::InvalidFrequency => "Invalid frequency"@,
            DomainError::InvalidInterval => "Invalid interval: must be greater than 0"@,
            DomainError::CalendarNotFound(id) => "Calendar not found: "@ + id@,
            DomainError::EventNotFound(id) => "Event not found: "@ + id@,
            DomainError::RecurrenceNotFound(id) => "Recurrence not found: "@ + id@,
            DomainError::CalendarArchived => "Cannot modify archived calendar"@,
        }
    }

    /// The text that describes the error.
    pub fn message(&self) -> (r: String)
        ensures
            r@ == self.message_spec(),
    {
        match self {
            DomainError::EmptyTitle => String::from_str("Title cannot be empty"),
            DomainError::EmptyName => String::from_str("Name cannot be empty"),
            DomainError::InvalidTimeRange => String::from_str(
                "Invalid time range: start time must be before end time",
            ),
            DomainError::InvalidColor => String::from_str("Invalid color value"),
            DomainError::InvalidFrequency => String::from_str("Invalid frequency"),
            DomainError::InvalidInterval => String::from_str(
                "Invalid interval: must be greater than 0",
            ),
            DomainError::CalendarNotFound(id) => String::from_str("Calendar not found: ").concat(
                id.as_str(),
            ),
            DomainError::EventNotFound(id) => String::from_str("Event not found: ").concat(
                id.as_str(),
            ),
            DomainError::RecurrenceNotFound(id) => String::from_str(
                "Recurrence not found: ",
            ).concat(id.as_str()),
            DomainError::CalendarArchived => String::from_str("Cannot modify archived calendar"),
        }
    }
}

/// Text that is not the canonical form of a 128-bit identifier.
#[derive(Clone, Debug, PartialEq, Eq)]
pub struct IdFormatError {
    pub text: String,
}

/// A stored row that does not describe a valid entity.
#[derive(Clone, Debug, PartialEq, Eq)]
pub enum MapperError {
    /// The identifier text that could not be read.
    InvalidId(String),
    /// The timestamp text that could not be read.
    InvalidDate(String),
    /// A column value outside its allowed set, with a description.
    InvalidData(String),
    /// A field that the domain rejects.
    Domain(DomainError),
}

/// What a codec failure says: the offending text for identifiers and timestamps,
/// the domain rule for a rejected field.
pub enum MapperFault {
    InvalidId(Seq<char>),
    InvalidDate(Seq<char>),
    InvalidData,
    Domain(DomainError),
}

impl View for MapperError {
    type V = MapperFault;

    open spec fn view(&self) -> MapperFault {
        match self {
            MapperError::InvalidId(t) => MapperFault::InvalidId(t@),
            MapperError::InvalidDate(t) => MapperFault::InvalidDate(t@),
            MapperError::InvalidData(_) => MapperFault::InvalidData,
            MapperError::Domain(e) => MapperFault::Domain(*e),
        }
    }
}

/// A failure reported by a storage port.
#[derive(Clone, Debug, PartialEq, Eq)]
pub enum RepositoryError {
    NotFound,
    DatabaseError(String),
    ConstraintViolation(String),
}

impl MapperError {
    /// The text that describes the error.
    pub open spec fn message_spec(&self) -> Seq<char> {
        match self {
            MapperError::InvalidId(t) => "Invalid ID: "@ + t@,
            MapperError::InvalidDate(t) => "Invalid datetime: "@ + t@,
            MapperError::InvalidData(t) => "Invalid data: "@ + t@,
            MapperError::Domain(e) => e.message_spec(),
        }
    }

    /// The text that describes the error.
    pub fn message(&self) -> (r: String)
        ensures
            r@ == self.message_spec(),
    {
        match self {
            MapperError::InvalidId(t) => String::from_str("Invalid ID: ").concat(t.as_str()),
            MapperError::InvalidDate(t) => String::from_str("Invalid datetime: ").concat(t.as_str()),
            MapperError::InvalidData(t) => String::from_str("Invalid data: ").concat(t.as_str()),
            MapperError::Domain(e) => e.message(),
        }
    }
}

impl RepositoryError {
    /// The text that describes the error.
    pub open spec fn message_spec(&self) -> Seq<char> {
        match self {
            RepositoryError::NotFound => "Entity not found"@,
            RepositoryError::DatabaseError(t) => "Database error: "@ + t@,
            RepositoryError::ConstraintViolation(t) => "Constraint violation: "@ + t@,
        }
    }

    /// The text that describes the error.
    pub fn message(&self) -> (r: String)
        ensures
            r@ == self.message_spec(),
    {
        match self {
            RepositoryError::NotFound => String::from_str("Entity not found"),
            RepositoryError::DatabaseError(t) => String::from_str("Database error: ").concat(
                t.as_str(),
            ),
            RepositoryError::ConstraintViolation(t) => String::from_str(
                "Constraint violation: ",
            ).concat(t.as_str()),
        }
    }

    /// A row that storage handed back but the codec refused: a storage-side defect,
    /// reported as `DatabaseError` with the codec's message.
    pub fn from_mapper(e: &MapperError) -> (r: RepositoryError)
        ensures
            r matches RepositoryError::DatabaseError(t) && t@ == e.message_spec(),
    {
        RepositoryError::DatabaseError(e.message())
    }
}

/// A failure of a command, as its caller sees it.
#[derive(Clone, Debug, PartialEq, Eq)]
pub enum ApplicationError {
    RecurringEventNotFound,
    CalendarNotFound,
    EventNotFound,
    Domain(DomainError),
    Repository(String),
    Validation(String),
}

impl From<DomainError> for ApplicationError {
    fn from(error: DomainError) -> (r: ApplicationError)
        ensures
            r == ApplicationError::Domain(error),
    {
        ApplicationError::Domain(error)
    }
}

impl vstd::std_specs::convert::FromSpecImpl<DomainError> for ApplicationError {
    open spec fn obeys_from_spec() -> bool {
        true
    }

    open spec fn from_spec(e: DomainError) -> ApplicationError {
        ApplicationError::Domain(e)
    }
}

impl ApplicationError {
    /// A storage failure as the command layer reports it: `Repository` with the
    /// storage message.
    pub fn from_repository(error: &RepositoryError) -> (r: ApplicationError)
        ensures
            r matches ApplicationError::Repository(t) && t@ == error.message_spec(),
    {
        ApplicationError::Repository(error.message())
    }
}

} // verus!
