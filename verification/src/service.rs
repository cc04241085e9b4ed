//! The user service: the single place where requests are validated and
//! passwords are hashed, so every storage backend — in-memory or real —
//! receives only valid, already-hashed data.

use vstd::prelude::*;

use crate::errors::CustomError;
use crate::models::{CreateUserRequest, GetUserResponse, User, UserView};
use crate::repository::{StoredUsers, UserDbTrait};

verus! {

/// Whether the request's name field is empty (validation trims nothing:
/// empty means the literal zero-length string).
pub open spec fn missing_name(req: CreateUserRequest) -> bool {
    req.name@.len() == 0
}

/// Whether the request's email field is empty.
pub open spec fn missing_email(req: CreateUserRequest) -> bool {
    req.email@.len() == 0
}

/// Whether the request's password field is empty.
pub open spec fn missing_password(req: CreateUserRequest) -> bool {
    req.plain_password@.len() == 0
}

/// Whether any required field of the request is empty.
pub open spec fn has_missing_fields(req: CreateUserRequest) -> bool {
    missing_name(req) || missing_email(req) || missing_password(req)
}

/// The comma-joined names of the missing fields, in the fixed order the
/// fields are checked: name, then email, then password. Consumers may rely
/// on this ordering for deterministic messages.
pub open spec fn missing_fields_text(name: bool, email: bool, password: bool) -> Seq<char> {
    if name && email && password {
        "name, email, password"@
    } else if name && email {
        "name, email"@
    } else if name && password {
        "name, password"@
    } else if email && password {
        "email, password"@
    } else if name {
        "name"@
    } else if email {
        "email"@
    } else if password {
        "password"@
    } else {
        Seq::empty()
    }
}

/// The `MissingFields` detail text owed for this request.
pub open spec fn request_missing_text(req: CreateUserRequest) -> Seq<char> {
    missing_fields_text(missing_name(req), missing_email(req), missing_password(req))
}

/// The shape of every string `bcrypt::hash` produces here: the 60-character
/// modular-crypt rendering of a version-2b digest. The service stores only
/// strings of this shape as passwords, and an empty plaintext is never
/// hashed at all, so a stored password is never empty.
pub open spec fn is_bcrypt_digest(s: Seq<char>) -> bool {
    s.len() == 60 && s[0] == '$' && s[1] == '2' && s[2] == 'b' && s[3] == '$'
}

/// Relies on `bcrypt::hash` with `bcrypt::DEFAULT_COST`: on success the
/// result is the modular-crypt rendering of a freshly salted version-2b
/// digest — exactly 60 ASCII characters beginning "$2b$". The salt is drawn
/// from the operating system's randomness, so nothing more is promised of
/// the value; on failure the result carries the library's diagnostic text.
#[verifier::external_body]
fn hash_password(plain: &str) -> (r: Result<String, String>)
    ensures
        r matches Ok(h) ==> is_bcrypt_digest(h@),
{
    match bcrypt::hash(plain, bcrypt::DEFAULT_COST) {
        Ok(h) => Ok(h),
        Err(e) => Err(e.to_string()),
    }
}

/// Renders the comma-joined missing-field list for the three checks.
fn missing_fields_string(name: bool, email: bool, password: bool) -> (r: String)
    ensures
        r@ == missing_fields_text(name, email, password),
{
    if name && email && password {
        String::from_str("name, email, password")
    } else if name && email {
        String::from_str("name, email")
    } else if name && password {
        String::from_str("name, password")
    } else if email && password {
        String::from_str("email, password")
    } else if name {
        String::from_str("name")
    } else if email {
        String::from_str("email")
    } else if password {
        String::from_str("password")
    } else {
        String::new()
    }
}

/// The business-rule layer over one constructor-injected repository, so the
/// same logic runs unchanged against any backend honouring the contract.
pub struct UserService<T: UserDbTrait> {
    pub user_db: T,
}

impl<T: UserDbTrait> UserService<T> {
    /// Builds a service around the given repository.
    pub fn new(user_db: T) -> (s: Self)
        ensures
            s.user_db == user_db,
    {
        UserService { user_db }
    }
}

/// What a user service offers: validated create, projected read, delete.
/// Each operation's contract is stated against the model of the underlying
/// storage, so an HTTP adapter can depend on this trait alone.
pub trait UserServiceTrait: Sized {
    /// The durable content this service manages: identifier to stored record.
    spec fn db(&self) -> StoredUsers;

    /// Reads one user as a projection that carries no password. Any string
    /// may be queried; an unknown identifier answers `UserNotFound`, never
    /// `GenericError`.
    fn get_by_id(&self, id: &str) -> (r: Result<GetUserResponse, CustomError>)
        ensures
            !self.db().contains_key(id@) ==> r == Err::<GetUserResponse, CustomError>(CustomError::UserNotFound),
            r matches Ok(resp) ==> self.db().contains_key(id@) && resp.id@ == id@
                && resp.name@ == self.db()[id@].name && resp.email@ == self.db()[id@].email,
            r matches Err(e) ==> e == CustomError::UserNotFound || e matches CustomError::GenericError(_),
            r == Err::<GetUserResponse, CustomError>(CustomError::UserNotFound) ==> !self.db().contains_key(id@),
    ;

    /// Validates the request (collecting every missing field, not only the
    /// first), hashes the password, and persists the user. On success the
    /// store gains exactly one record, under the returned fresh identifier,
    /// holding the validated name and email and a bcrypt digest in place of
    /// the plaintext password.
    fn create(&mut self, new_user: CreateUserRequest) -> (r: Result<String, CustomError>)
        ensures
            has_missing_fields(new_user) ==> (r matches Err(CustomError::MissingFields(m))
                && m@ == request_missing_text(new_user)),
            r matches Err(CustomError::MissingFields(_)) ==> has_missing_fields(new_user),
            r matches Ok(id) ==> (!has_missing_fields(new_user)
                && id@.len() > 0
                && !old(self).db().contains_key(id@)
                && final(self).db().contains_key(id@)
                && final(self).db().remove(id@) == old(self).db()
                && final(self).db()[id@].name == new_user.name@
                && final(self).db()[id@].email == new_user.email@
                && is_bcrypt_digest(final(self).db()[id@].password)
                && (!is_bcrypt_digest(new_user.plain_password@)
                    ==> final(self).db()[id@].password != new_user.plain_password@)),
            r matches Err(e) ==> (final(self).db() == old(self).db() && (
            e matches CustomError::MissingFields(_) || e matches CustomError::GenericError(_)
                || e == CustomError::UserAlreadyExists)),
    ;

    /// Removes the user named by the identifier; the identifier's shape is
    /// not validated. Deleting an absent identifier may succeed.
    fn delete(&mut self, id: &str) -> (r: Result<(), CustomError>)
        ensures
            r matches Ok(_) ==> final(self).db() == old(self).db().remove(id@),
            r matches Err(e) ==> (final(self).db() == old(self).db()
                && e matches CustomError::GenericError(_)),
    ;
}

impl<T: UserDbTrait> UserServiceTrait for UserService<T> {
    open spec fn db(&self) -> StoredUsers {
        self.user_db.db()
    }

    fn get_by_id(&self, id: &str) -> (r: Result<GetUserResponse, CustomError>) {
        let user = match self.user_db.get_by_id(id) {
            Ok(u) => u,
            Err(e) => {
                return Err(e);
            },
        };
        Ok(GetUserResponse { id: id.to_owned(), name: user.name, email: user.email })
    }

    fn create(&mut self, new_user: CreateUserRequest) -> (r: Result<String, CustomError>) {
        let name_missing = new_user.name.as_str().is_empty();
        let email_missing = new_user.email.as_str().is_empty();
        let password_missing = new_user.plain_password.as_str().is_empty();

        if name_missing || email_missing || password_missing {
            return Err(CustomError::MissingFields(
                missing_fields_string(name_missing, email_missing, password_missing),
            ));
        }

        let hashed_password = match hash_password(new_user.plain_password.as_str()) {
            Ok(h) => h,
            Err(msg) => {
                return Err(CustomError::GenericError(
                    String::from_str("Hashing error: ").concat(msg.as_str()),
                ));
            },
        };

        let user = User {
            password: hashed_password,
            name: new_user.name,
            id: None,
            email: new_user.email,
        };

        let ghost pre = self.user_db.db();
        let result = self.user_db.create(user);
        proof {
            if let Ok(id) = &result {
                assert(self.user_db.db().remove(id@) =~= pre);
            }
        }
        result
    }

    fn delete(&mut self, id: &str) -> (r: Result<(), CustomError>) {
        self.user_db.delete(id)
    }
}

} // verus!
