//! The transport-facing half of the core: how each service outcome maps to
//! an HTTP status code and body. The adapter that actually speaks HTTP
//! stays outside the verified core and only forwards what these functions
//! decide.

use vstd::prelude::*;

use crate::errors::CustomError;

verus! {

/// The error body every failing route answers with.
#[derive(Debug)]
pub struct ErrorResponse {
    pub message: String,
}

/// The status code for a failed read: `UserNotFound` is the only outcome
/// that maps to 404; everything else is a server-side failure.
pub open spec fn get_user_error_status(e: CustomError) -> u16 {
    match e {
        CustomError::UserNotFound => 404u16,
        _ => 500u16,
    }
}

/// The body text for a failed read.
pub open spec fn get_user_error_text(e: CustomError) -> Seq<char> {
    match e {
        CustomError::UserNotFound => Seq::empty(),
        CustomError::GenericError(msg) => "Generic error "@ + msg@,
        _ => "Unknown error "@ + e.text(),
    }
}

/// Maps a failed read to the reply of `GET /user/{id}`.
pub fn get_user_error_reply(err: &CustomError) -> (r: (u16, ErrorResponse))
    ensures
        r.0 == get_user_error_status(*err),
        r.1.message@ == get_user_error_text(*err),
{
    match err {
        CustomError::UserNotFound => (404, ErrorResponse { message: String::new() }),
        CustomError::GenericError(msg) => (
            500,
            ErrorResponse { message: String::from_str("Generic error ").concat(msg.as_str()) },
        ),
        _ => (
            500,
            ErrorResponse {
                message: String::from_str("Unknown error ").concat(err.message().as_str()),
            },
        ),
    }
}

/// The status code for a failed create or delete: a validation failure is
/// the caller's fault (400); everything else is a server-side failure.
pub open spec fn mutation_error_status(e: CustomError) -> u16 {
    match e {
        CustomError::MissingFields(_) => 400u16,
        _ => 500u16,
    }
}

/// The body text for a failed create or delete.
pub open spec fn mutation_error_text(e: CustomError) -> Seq<char> {
    match e {
        CustomError::GenericError(msg) => msg@,
        CustomError::MissingFields(msg) => "The following properties are required: "@ + msg@,
        _ => e.text(),
    }
}

/// Maps a failed create or delete to the reply of `POST /user` and
/// `DELETE /user/{id}`.
pub fn mutation_error_reply(err: &CustomError) -> (r: (u16, ErrorResponse))
    ensures
        r.0 == mutation_error_status(*err),
        r.1.message@ == mutation_error_text(*err),
{
    match err {
        CustomError::GenericError(msg) => (500, ErrorResponse { message: msg.clone() }),
        CustomError::MissingFields(msg) => (
            400,
            ErrorResponse {
                message: String::from_str("The following properties are required: ").concat(
                    msg.as_str(),
                ),
            },
        ),
        _ => (500, ErrorResponse { message: err.message() }),
    }
}

} // verus!
