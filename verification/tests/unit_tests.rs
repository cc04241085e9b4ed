use user_service::backend::{delete_guard, insert_outcome, lookup_outcome};
use user_service::decimal::u64_to_decimal;
use user_service::errors::CustomError;
use user_service::http::{get_user_error_reply, mutation_error_reply};
use user_service::models::User;

#[test]
fn test_error_messages() {
    assert_eq!(CustomError::UserNotFound.message(), "User not found");
    assert_eq!(CustomError::UserAlreadyExists.message(), "User already exists");
    assert_eq!(
        CustomError::MissingFields("email".to_string()).message(),
        "The following fields are missing: email"
    );
    assert_eq!(
        CustomError::GenericError("boom".to_string()).message(),
        "An error ocurred: boom"
    );
}

#[test]
fn test_decimal_rendering() {
    assert_eq!(u64_to_decimal(0), "0");
    assert_eq!(u64_to_decimal(7), "7");
    assert_eq!(u64_to_decimal(10), "10");
    assert_eq!(u64_to_decimal(409), "409");
    assert_eq!(u64_to_decimal(u64::MAX), "18446744073709551615");
}

#[test]
fn test_get_user_error_reply() {
    let (status, body) = get_user_error_reply(&CustomError::UserNotFound);
    assert_eq!(status, 404);
    assert_eq!(body.message, "");

    let (status, body) = get_user_error_reply(&CustomError::GenericError("down".to_string()));
    assert_eq!(status, 500);
    assert_eq!(body.message, "Generic error down");

    let (status, body) = get_user_error_reply(&CustomError::UserAlreadyExists);
    assert_eq!(status, 500);
    assert_eq!(body.message, "Unknown error User already exists");
}

#[test]
fn test_mutation_error_reply() {
    let (status, body) = mutation_error_reply(&CustomError::MissingFields("email".to_string()));
    assert_eq!(status, 400);
    assert_eq!(body.message, "The following properties are required: email");

    let (status, body) = mutation_error_reply(&CustomError::GenericError("down".to_string()));
    assert_eq!(status, 500);
    assert_eq!(body.message, "down");

    let (status, body) = mutation_error_reply(&CustomError::UserNotFound);
    assert_eq!(status, 500);
    assert_eq!(body.message, "User not found");
}

#[test]
fn test_lookup_outcome() {
    let found = User {
        id: None,
        name: "Test User".to_string(),
        email: "test@example.com".to_string(),
        password: "hashed".to_string(),
    };

    let ok = lookup_outcome("6596be2aed81fa8f5b037c9f", true, Some(found)).unwrap();
    assert_eq!(ok.id.as_deref(), Some("6596be2aed81fa8f5b037c9f"));
    assert_eq!(ok.name, "Test User");
    assert_eq!(ok.email, "test@example.com");

    assert_eq!(
        lookup_outcome("not-an-object-id", false, None).unwrap_err(),
        CustomError::UserNotFound
    );
    assert_eq!(
        lookup_outcome("6596be2aed81fa8f5b037c9f", true, None).unwrap_err(),
        CustomError::UserNotFound
    );
}

#[test]
fn test_insert_outcome() {
    assert_eq!(
        insert_outcome(Some("6596be2aed81fa8f5b037c9f".to_string())).unwrap(),
        "6596be2aed81fa8f5b037c9f"
    );
    assert_eq!(
        insert_outcome(None).unwrap_err(),
        CustomError::GenericError("Inserted ID is not ObjectId".to_string())
    );
}

#[test]
fn test_delete_guard() {
    assert!(delete_guard(true).is_ok());
    assert_eq!(
        delete_guard(false).unwrap_err(),
        CustomError::GenericError("ID is not valid".to_string())
    );
}
