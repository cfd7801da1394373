//! The shared failure vocabulary of the persistence boundary.
//!
//! Every failure crossing the repository boundary is classified into
//! exactly one of these kinds before it travels upward; no raw storage
//! or transport error ever reaches the use-case layer unmapped.

use vstd::prelude::*;

verus! {

/// One classified failure from the storage side.
#[derive(Debug)]
pub enum DomainError {
    /// The query target does not exist.
    NotFound(String),
    /// A storage or transport failure of any kind, uniqueness-constraint
    /// violations included.
    DatabaseError(String),
    /// An input rejected as unprocessable. The orchestration layer
    /// treats this variant as impossible on the storage path and
    /// flattens it defensively when it appears.
    ValidationError(String),
}

/// The outcome of one repository operation.
pub type DomainResult<T> = Result<T, DomainError>;

impl DomainError {
    /// The human-readable form: the kind followed by the detail.
    pub open spec fn message_spec(&self) -> Seq<char> {
        match self {
            DomainError::NotFound(m) => "Not found: "@ + m@,
            DomainError::DatabaseError(m) => "Database error: "@ + m@,
            DomainError::ValidationError(m) => "Validation error: "@ + m@,
        }
    }

    /// Renders the failure for a diagnostic or a response body.
    pub fn message(&self) -> (r: String)
        ensures
            r@ == self.message_spec(),
    {
        match self {
            DomainError::NotFound(m) => {
                let mut s = String::from_str("Not found: ");
                s.append(m.as_str());
                s
            },
            DomainError::DatabaseError(m) => {
                let mut s = String::from_str("Database error: ");
                s.append(m.as_str());
                s
            },
            DomainError::ValidationError(m) => {
                let mut s = String::from_str("Validation error: ");
                s.append(m.as_str());
                s
            },
        }
    }
}

} // verus!
