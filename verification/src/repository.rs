//! The storage-agnostic repository contract: the capability the service
//! layer depends on instead of a concrete database client.

use vstd::prelude::*;

use crate::errors::CustomError;
use crate::models::{User, UserView};

verus! {

/// The model of a backend's durable content: identifier to stored record.
pub type StoredUsers = Map<Seq<char>, UserView>;

/// The repository contract. A backend models its durable content as a map
/// from identifier to stored record; each operation says how the result and
/// the model relate, so the service layer can be verified against any
/// backend that honours this contract.
///
/// The contract performs no validation: `create` accepts whatever user value
/// it is given (validation is the service's responsibility) and only assigns
/// the identifier.
pub trait UserDbTrait: Sized {
    /// The backend's durable content: identifier to stored record.
    spec fn db(&self) -> StoredUsers;

    /// Looks a user up by its opaque identifier. An identifier the backend
    /// does not know — whether absent or unparseable — answers
    /// `UserNotFound`, never `GenericError`, so callers never branch on
    /// backend-specific identifier shapes.
    fn get_by_id(&self, id: &str) -> (r: Result<User, CustomError>)
        ensures
            !self.db().contains_key(id@) ==> r == Err::<User, CustomError>(CustomError::UserNotFound),
            r matches Ok(u) ==> self.db().contains_key(id@) && u.stored_view() == self.db()[id@]
                && (u.id matches Some(i) && i@ == id@),
            r matches Err(e) ==> e == CustomError::UserNotFound || e matches CustomError::GenericError(_),
            r == Err::<User, CustomError>(CustomError::UserNotFound) ==> !self.db().contains_key(id@),
    ;

    /// Persists a user that has no identifier yet and returns the fresh,
    /// non-empty identifier the backend assigned to it. On failure the
    /// backend's content is unchanged.
    fn create(&mut self, user: User) -> (r: Result<String, CustomError>)
        requires
            user.id is None,
        ensures
            r matches Ok(id) ==> id@.len() > 0 && !old(self).db().contains_key(id@)
                && final(self).db() == old(self).db().insert(id@, user.stored_view()),
            r matches Err(e) ==> final(self).db() == old(self).db() && (
            e matches CustomError::GenericError(_) || e == CustomError::UserAlreadyExists),
    ;

    /// Removes the user named by the identifier. Deleting an absent
    /// identifier is allowed to succeed (idempotent delete); on failure the
    /// backend's content is unchanged.
    fn delete(&mut self, id: &str) -> (r: Result<(), CustomError>)
        ensures
            r matches Ok(_) ==> final(self).db() == old(self).db().remove(id@),
            r matches Err(e) ==> final(self).db() == old(self).db()
                && e matches CustomError::GenericError(_),
    ;
}

} // verus!
