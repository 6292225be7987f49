use authstore::errors::ApiError;
use authstore::groups::UserGroups;

#[test]
fn role_canonical_names() {
    assert_eq!(UserGroups::Admin.to_string(), "admin");
    assert_eq!(UserGroups::User.to_string(), "user");
}

#[test]
fn role_parse_exact() {
    assert_eq!(UserGroups::from_str("admin"), Some(UserGroups::Admin));
    assert_eq!(UserGroups::from_str("user"), Some(UserGroups::User));
    assert_eq!(UserGroups::from_str("Admin"), None);
    assert_eq!(UserGroups::from_str("ADMIN"), None);
    assert_eq!(UserGroups::from_str("admin "), None);
    assert_eq!(UserGroups::from_str(""), None);
    assert_eq!(UserGroups::from_str("root"), None);
}

#[test]
fn role_is_valid() {
    assert!(UserGroups::is_valid("admin"));
    assert!(UserGroups::is_valid("user"));
    assert!(!UserGroups::is_valid("guest"));
    assert!(!UserGroups::is_valid(""));
}

#[test]
fn error_status_codes() {
    assert_eq!(ApiError::Unauthenticated.status_code(), 401);
    assert_eq!(ApiError::Forbidden.status_code(), 403);
    assert_eq!(ApiError::BadRequest.status_code(), 400);
    assert_eq!(ApiError::Conflict.status_code(), 409);
    assert_eq!(ApiError::NotFound.status_code(), 404);
    assert_eq!(ApiError::Internal.status_code(), 500);
}

#[test]
fn error_messages() {
    assert_eq!(ApiError::Unauthenticated.message(), "Unauthorized");
    assert_eq!(ApiError::Internal.message(), "Internal Server Error");
    assert_eq!(ApiError::NotFound.message(), "Not Found");
}
