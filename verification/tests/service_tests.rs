use user_service::errors::CustomError;
use user_service::mock_db::MockUserDB;
use user_service::models::{CreateUserRequest, User};
use user_service::repository::StoredUsers;
use user_service::repository::UserDbTrait;
use user_service::service::{UserService, UserServiceTrait};

/// A hand-written stand-in backend that always acknowledges a create with
/// the same identifier, so the service's own behaviour can be observed.
struct StubDb;

impl UserDbTrait for StubDb {
    // The ghost model of the backend's content; it exists only for proofs
    // and is never evaluated at run time.
    fn db(&self) -> StoredUsers {
        unreachable!()
    }

    fn get_by_id(&self, _id: &str) -> Result<User, CustomError> {
        Err(CustomError::UserNotFound)
    }

    fn create(&mut self, _user: User) -> Result<String, CustomError> {
        Ok("12344321".to_string())
    }

    fn delete(&mut self, _id: &str) -> Result<(), CustomError> {
        Ok(())
    }
}

#[test]
fn test_create_user() {
    let mut user_service = UserService::new(StubDb);

    let test_user = CreateUserRequest {
        name: "Test User".to_string(),
        email: "test@test.com".to_string(),
        plain_password: "1234".to_string(),
    };

    let result = user_service.create(test_user);

    assert_eq!(result.unwrap(), "12344321");
}

#[test]
fn test_create_user_missing_fields() {
    let mut user_service = UserService::new(MockUserDB::new());

    let test_user = CreateUserRequest {
        name: "Test User".to_string(),
        email: "".to_string(),
        plain_password: "1234".to_string(),
    };

    let result = user_service.create(test_user);

    assert_eq!(
        result.unwrap_err(),
        CustomError::MissingFields("email".to_string())
    );
}

#[test]
fn test_create_missing_all_fields() {
    let mut user_service = UserService::new(MockUserDB::new());

    let test_user = CreateUserRequest {
        name: "".to_string(),
        email: "".to_string(),
        plain_password: "".to_string(),
    };

    assert_eq!(
        user_service.create(test_user).unwrap_err(),
        CustomError::MissingFields("name, email, password".to_string())
    );
}

#[test]
fn test_create_missing_name() {
    let mut user_service = UserService::new(MockUserDB::new());

    let test_user = CreateUserRequest {
        name: "".to_string(),
        email: "test@example.com".to_string(),
        plain_password: "1234".to_string(),
    };

    assert_eq!(
        user_service.create(test_user).unwrap_err(),
        CustomError::MissingFields("name".to_string())
    );
}

#[test]
fn test_create_missing_password() {
    let mut user_service = UserService::new(MockUserDB::new());

    let test_user = CreateUserRequest {
        name: "Test User".to_string(),
        email: "test@example.com".to_string(),
        plain_password: "".to_string(),
    };

    assert_eq!(
        user_service.create(test_user).unwrap_err(),
        CustomError::MissingFields("password".to_string())
    );
}

#[test]
fn test_create_missing_name_and_email() {
    let mut user_service = UserService::new(MockUserDB::new());

    let test_user = CreateUserRequest {
        name: "".to_string(),
        email: "".to_string(),
        plain_password: "1234".to_string(),
    };

    assert_eq!(
        user_service.create(test_user).unwrap_err(),
        CustomError::MissingFields("name, email".to_string())
    );
}

#[test]
fn test_create_missing_name_and_password() {
    let mut user_service = UserService::new(MockUserDB::new());

    let test_user = CreateUserRequest {
        name: "".to_string(),
        email: "test@example.com".to_string(),
        plain_password: "".to_string(),
    };

    assert_eq!(
        user_service.create(test_user).unwrap_err(),
        CustomError::MissingFields("name, password".to_string())
    );
}

#[test]
fn test_create_missing_email_and_password() {
    let mut user_service = UserService::new(MockUserDB::new());

    let test_user = CreateUserRequest {
        name: "Test User".to_string(),
        email: "".to_string(),
        plain_password: "".to_string(),
    };

    assert_eq!(
        user_service.create(test_user).unwrap_err(),
        CustomError::MissingFields("email, password".to_string())
    );
}

#[test]
fn test_created_id_not_empty() {
    let mut user_service = UserService::new(MockUserDB::new());

    let test_user = CreateUserRequest {
        name: "Test User".to_string(),
        email: "test@example.com".to_string(),
        plain_password: "1234".to_string(),
    };

    let id = user_service.create(test_user).unwrap();
    assert_ne!(id, "");
}
