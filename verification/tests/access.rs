use libre_user::access::{
    lookup_answer, lookup_refusal, require_admin, require_admin_user, require_requester, Refusal,
};
use libre_user::error::{DbFailure, ServiceError};
use libre_user::jwt::Claims;
use libre_user::models::User;

fn claims(login: &str, admin: bool) -> Claims {
    Claims {
        iss: "libre".to_string(),
        exp: 3600,
        sub: String::new(),
        aud: "libre".to_string(),
        iat: 0,
        jti: String::new(),
        login: login.to_string(),
        name: login.to_string(),
        admin,
    }
}

fn user(admin: bool) -> User {
    User {
        uid: 7,
        login: "carol".to_string(),
        username: "Carol".to_string(),
        avatar: String::new(),
        email: "carol@example.org".to_string(),
        created_at: chrono::DateTime::from_timestamp(0, 0).unwrap().naive_utc(),
        admin,
    }
}

#[test]
fn listing_users_needs_an_admin() {
    assert_eq!(require_admin(None), Err(Refusal::NotAuthenticated));
    assert_eq!(require_admin(Some(&claims("dave", false))), Err(Refusal::NotAdmin));
    assert_eq!(require_admin(Some(&claims("erin", true))), Ok(()));
}

#[test]
fn admin_lookup_needs_an_admin_user() {
    assert_eq!(require_admin_user(None), Err(Refusal::NotAuthenticated));
    assert_eq!(require_admin_user(Some(&user(false))), Err(Refusal::NotAdmin));
    assert_eq!(require_admin_user(Some(&user(true))), Ok(()));
}

#[test]
fn lookup_needs_a_requester() {
    assert_eq!(require_requester(None), Err(Refusal::UnknownRequester));
    assert_eq!(require_requester(Some(&claims("dave", false))), Ok(()));
}

#[test]
fn refusals_carry_status_and_message() {
    let expected = [
        (Refusal::NotAuthenticated, 401, "User not authenticated"),
        (Refusal::UnknownRequester, 401, "User not found"),
        (Refusal::NotAdmin, 401, "User is not an admin"),
        (Refusal::NotAllowed, 403, "Operation not allowed"),
        (Refusal::UserNotFound, 404, "User not found"),
        (Refusal::LoginTaken, 409, "Login already exists"),
        (Refusal::Internal, 500, "Internal Server Error"),
    ];
    for (refusal, status, message) in expected {
        assert_eq!(refusal.status(), status);
        assert_eq!(refusal.message(), message);
    }
}

#[test]
fn failed_lookup_is_not_found_or_internal() {
    assert_eq!(lookup_refusal(&DbFailure::NotFound), Refusal::UserNotFound);
    assert_eq!(lookup_refusal(&DbFailure::Other), Refusal::Internal);
    let unique = DbFailure::UniqueViolation { message: "dup".to_string(), details: None };
    assert_eq!(lookup_refusal(&unique), Refusal::Internal);
}

#[test]
fn unique_violation_is_a_bad_request_with_details() {
    let failure = DbFailure::UniqueViolation {
        message: "duplicate key value violates unique constraint".to_string(),
        details: Some("Key (login)=(alice) already exists.".to_string()),
    };
    assert_eq!(
        ServiceError::from(failure),
        ServiceError::BadRequest("Key (login)=(alice) already exists.".to_string())
    );
}

#[test]
fn unique_violation_without_details_reports_the_message() {
    let failure = DbFailure::UniqueViolation {
        message: "duplicate key value violates unique constraint".to_string(),
        details: None,
    };
    assert_eq!(
        ServiceError::from(failure),
        ServiceError::BadRequest("duplicate key value violates unique constraint".to_string())
    );
}

#[test]
fn other_storage_failures_are_internal() {
    assert_eq!(ServiceError::from(DbFailure::NotFound), ServiceError::InternalServerError);
    assert_eq!(ServiceError::from(DbFailure::Other), ServiceError::InternalServerError);
}

#[test]
fn lookup_finding_nobody_is_not_found() {
    assert_eq!(lookup_answer(0), Err(Refusal::UserNotFound));
    assert_eq!(lookup_answer(1), Ok(()));
    assert_eq!(lookup_answer(3), Ok(()));
}
