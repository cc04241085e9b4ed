//! Cross-cutting guarantees of the service layer, stated once as proof
//! functions over the same models the operation contracts use.

use vstd::prelude::*;

use crate::errors::CustomError;
use crate::models::{CreateUserRequest, GetUserResponse, UserView};
use crate::service::is_bcrypt_digest;

verus! {

/// A stored password can never equal the plaintext it came from, for any
/// plaintext that is not itself shaped like a bcrypt digest: the service
/// stores only digest-shaped strings, and a digest-shaped string differs
/// from every string that is not digest-shaped.
pub proof fn lemma_digest_differs_from_plaintext(digest: Seq<char>, plain: Seq<char>)
    requires
        is_bcrypt_digest(digest),
        !is_bcrypt_digest(plain),
    ensures
        digest != plain,
{
}

/// A read's response is determined by the identifier and the stored name
/// and email alone: overwriting the stored password with any other value
/// leaves every fact the read contract states about the response intact, so
/// no response ever carries password material.
pub proof fn lemma_response_omits_password(
    db: Map<Seq<char>, UserView>,
    id: Seq<char>,
    r: GetUserResponse,
    other_password: Seq<char>,
)
    requires
        db.contains_key(id),
        r.id@ == id,
        r.name@ == db[id].name,
        r.email@ == db[id].email,
    ensures
        ({
            let db2 = db.insert(
                id,
                UserView { name: db[id].name, email: db[id].email, password: other_password },
            );
            db2.contains_key(id) && r.id@ == id && r.name@ == db2[id].name && r.email@
                == db2[id].email
        }),
{
}

/// Round trip: a successful create of a request leaves the returned
/// identifier mapped to the request's name and email, so a following read
/// of that identifier — constrained by the read contract — can never
/// answer `UserNotFound`, and any successful response carries exactly the
/// identifier create returned and the request's name and email.
pub proof fn lemma_create_then_get_round_trip(
    post: Map<Seq<char>, UserView>,
    req: CreateUserRequest,
    id: Seq<char>,
    r: Result<GetUserResponse, CustomError>,
)
    requires
        post.contains_key(id),
        post[id].name == req.name@,
        post[id].email == req.email@,
        !post.contains_key(id) ==> r == Err::<GetUserResponse, CustomError>(
            CustomError::UserNotFound,
        ),
        r matches Ok(resp) ==> post.contains_key(id) && resp.id@ == id && resp.name@ == post[id].name
            && resp.email@ == post[id].email,
        r == Err::<GetUserResponse, CustomError>(CustomError::UserNotFound) ==> !post.contains_key(
            id,
        ),
    ensures
        r != Err::<GetUserResponse, CustomError>(CustomError::UserNotFound),
        r matches Ok(resp) ==> resp.id@ == id && resp.name@ == req.name@ && resp.email@
            == req.email@,
{
}

} // verus!
