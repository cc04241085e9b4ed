//! The decision rules a document-database backend follows. The driver calls
//! themselves (connect, find, insert, delete) are plumbing outside the
//! verified core; the backend feeds what they produced into these functions
//! and returns what they decide, so the repository contract's error rules
//! are enforced here rather than re-read from driver documentation.

use vstd::prelude::*;

use crate::errors::CustomError;
use crate::models::User;

verus! {

/// Decides a lookup: an identifier the backend could not parse and an
/// identifier that matched nothing both collapse to `UserNotFound` (the
/// repository contract never reports a malformed identifier as a
/// server-side failure). A found record is returned keyed under the queried
/// identifier, since the backend stores the key outside the record.
pub fn lookup_outcome(id: &str, id_valid: bool, found: Option<User>) -> (r: Result<
    User,
    CustomError,
>)
    ensures
        !id_valid ==> r == Err::<User, CustomError>(CustomError::UserNotFound),
        (id_valid && found is None) ==> r == Err::<User, CustomError>(CustomError::UserNotFound),
        found matches Some(u) ==> (id_valid ==> (r matches Ok(out) && (out.id matches Some(i)
            && i@ == id@) && out.name == u.name && out.email == u.email && out.password
            == u.password)),
{
    if !id_valid {
        return Err(CustomError::UserNotFound);
    }
    match found {
        Some(u) => Ok(
            User { id: Some(id.to_owned()), name: u.name, email: u.email, password: u.password },
        ),
        None => Err(CustomError::UserNotFound),
    }
}

/// Decides a create: the backend must hand back the identifier it assigned;
/// an insert acknowledgement without one is a server-side failure, never a
/// silently invented identifier.
pub fn insert_outcome(inserted_id: Option<String>) -> (r: Result<String, CustomError>)
    ensures
        inserted_id matches Some(oid) ==> r == Ok::<String, CustomError>(oid),
        inserted_id is None ==> (r matches Err(CustomError::GenericError(m))
            && m@ == "Inserted ID is not ObjectId"@),
{
    match inserted_id {
        Some(oid) => Ok(oid),
        None => Err(CustomError::GenericError(String::from_str("Inserted ID is not ObjectId"))),
    }
}

/// Decides whether a delete may proceed: a malformed identifier is refused
/// as a server-side failure before any driver call is made.
pub fn delete_guard(id_valid: bool) -> (r: Result<(), CustomError>)
    ensures
        id_valid ==> r == Ok::<(), CustomError>(()),
        !id_valid ==> (r matches Err(CustomError::GenericError(m)) && m@ == "ID is not valid"@),
{
    if id_valid {
        Ok(())
    } else {
        Err(CustomError::GenericError(String::from_str("ID is not valid")))
    }
}

} // verus!
