use user_service::errors::CustomError;
use user_service::mock_db::MockUserDB;
use user_service::models::CreateUserRequest;
use user_service::repository::UserDbTrait;
use user_service::service::{UserService, UserServiceTrait};

fn valid_request() -> CreateUserRequest {
    CreateUserRequest {
        name: "Test User".to_string(),
        email: "test@example.com".to_string(),
        plain_password: "1234".to_string(),
    }
}

#[test]
fn test_create_then_get_round_trip() {
    let mut service = UserService::new(MockUserDB::new());

    let id = service.create(valid_request()).unwrap();

    let response = service.get_by_id(&id).unwrap();
    assert_eq!(response.id, id);
    assert_eq!(response.name, "Test User");
    assert_eq!(response.email, "test@example.com");
}

#[test]
fn test_get_user_not_found() {
    let service = UserService::new(MockUserDB::new());

    let result = service.get_by_id("6596be2aed81fa8f5b037c9f");
    assert_eq!(result.unwrap_err(), CustomError::UserNotFound);
}

#[test]
fn test_delete_user() {
    let mut service = UserService::new(MockUserDB::new());

    let id = service.create(valid_request()).unwrap();
    assert!(service.get_by_id(&id).is_ok());

    service.delete(&id).unwrap();

    assert_eq!(service.get_by_id(&id).unwrap_err(), CustomError::UserNotFound);
}

#[test]
fn test_delete_unknown_id_is_idempotent() {
    let mut service = UserService::new(MockUserDB::new());
    assert!(service.delete("no such id").is_ok());
}

#[test]
fn test_password_stored_hashed() {
    let mut service = UserService::new(MockUserDB::new());

    let id = service.create(valid_request()).unwrap();

    let stored = service.user_db.get_by_id(&id).unwrap();
    assert_ne!(stored.password, "1234");
    assert_eq!(stored.password.len(), 60);
    assert!(stored.password.starts_with("$2b$"));
}

#[test]
fn test_minted_ids_are_distinct() {
    let mut service = UserService::new(MockUserDB::new());

    let first = service.create(valid_request()).unwrap();
    let second = service.create(valid_request()).unwrap();
    assert_ne!(first, second);

    assert_eq!(service.get_by_id(&first).unwrap().id, first);
    assert_eq!(service.get_by_id(&second).unwrap().id, second);
}

#[test]
fn test_get_response_has_no_password_field() {
    let mut service = UserService::new(MockUserDB::new());

    let id = service.create(valid_request()).unwrap();
    let response = service.get_by_id(&id).unwrap();

    // The projection carries exactly the identifier, name and email; the
    // stored (hashed) password stays behind the repository boundary.
    let shown = format!("{:?}", response);
    assert!(!shown.contains("password"));
    assert!(!shown.contains("$2b$"));
}
