//! Domain types: the persisted `User` entity, the transient request and
//! response shapes, and the spec-level view of a stored record.

use vstd::prelude::*;

verus! {

/// A persisted user record. The identifier is assigned by the storage
/// backend, so it is `None` on the value handed to `create` and `Some` of a
/// non-empty string on every stored record.
#[derive(Debug)]
pub struct User {
    pub id: Option<String>,
    pub email: String,
    pub password: String,
    pub name: String,
}

/// The spec-level content of a stored user record, keyed in a backend model
/// by its identifier (which is therefore not repeated here).
pub struct UserView {
    pub name: Seq<char>,
    pub email: Seq<char>,
    pub password: Seq<char>,
}

impl User {
    /// The record's content as stored, with the identifier factored out.
    pub open spec fn stored_view(self) -> UserView {
        UserView { name: self.name@, email: self.email@, password: self.password@ }
    }
}

/// The input of `create`: all three fields are required to be non-empty and
/// are validated before any hashing or persistence happens. The plaintext
/// password never outlives the call that consumes this value.
#[derive(Debug, Clone, PartialEq, Eq)]
pub struct CreateUserRequest {
    pub name: String,
    pub email: String,
    pub plain_password: String,
}

/// The output of a read: a fresh projection of a stored user that
/// deliberately has no password field.
#[derive(Debug)]
pub struct GetUserResponse {
    pub id: String,
    pub name: String,
    pub email: String,
}

/// The output of a successful create: the backend-assigned identifier.
#[derive(Debug)]
pub struct CreateUserResponse {
    pub id: String,
}

} // verus!
