//! The domain error taxonomy: a closed set of failure kinds shared by the
//! service layer, the repository contract and every storage backend.

use vstd::prelude::*;

verus! {

/// Every domain-visible failure mode. Storage backends must translate their
/// native errors into one of these variants before a result crosses the
/// repository boundary, so the service layer never sees a backend-specific
/// error type.
#[derive(Debug, Clone, PartialEq, Eq)]
pub enum CustomError {
    /// The queried identifier names no stored user (an absent identifier and
    /// one the backend cannot even parse both collapse to this variant).
    UserNotFound,
    /// Reserved for a uniqueness rule; no core code path produces it yet.
    UserAlreadyExists,
    /// Validation failed; carries the comma-joined names of the empty fields
    /// in the order they were checked (name, then email, then password).
    MissingFields(String),
    /// Catch-all for storage or infrastructure failures; carries an opaque
    /// diagnostic. Never used for a rule that has a dedicated variant.
    GenericError(String),
}

impl CustomError {
    /// The human-readable text of this error.
    pub open spec fn text(self) -> Seq<char> {
        match self {
            CustomError::UserNotFound => "User not found"@,
            CustomError::UserAlreadyExists => "User already exists"@,
            CustomError::MissingFields(msg) => "The following fields are missing: "@ + msg@,
            CustomError::GenericError(msg) => "An error ocurred: "@ + msg@,
        }
    }

    /// Renders the error as a display string for logs and HTTP bodies.
    pub fn message(&self) -> (r: String)
        ensures
            r@ == self.text(),
    {
        match self {
            CustomError::UserNotFound => String::from_str("User not found"),
            CustomError::UserAlreadyExists => String::from_str("User already exists"),
            CustomError::MissingFields(msg) => {
                String::from_str("The following fields are missing: ").concat(msg.as_str())
            },
            CustomError::GenericError(msg) => {
                String::from_str("An error ocurred: ").concat(msg.as_str())
            },
        }
    }
}

} // verus!
