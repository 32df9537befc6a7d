use docbox_manager::auth::verify_password;
use docbox_manager::config::default_root_secret_name;
use docbox_manager::error::classify_sqlstate;
use docbox_manager::error::http_status;
use docbox_manager::DbErrorKind;
use docbox_manager::ServiceError;

#[test]
fn sqlstate_codes_classify_to_their_kinds() {
    assert_eq!(classify_sqlstate("42P04"), DbErrorKind::DuplicateDatabase);
    assert_eq!(classify_sqlstate("42710"), DbErrorKind::DuplicateObject);
    assert_eq!(classify_sqlstate("3D000"), DbErrorKind::UndefinedDatabase);
    assert_eq!(classify_sqlstate("42P01"), DbErrorKind::UndefinedTable);
}

#[test]
fn unknown_codes_classify_to_other() {
    assert_eq!(classify_sqlstate("23505"), DbErrorKind::Other);
    assert_eq!(classify_sqlstate(""), DbErrorKind::Other);
    assert_eq!(classify_sqlstate("42P0"), DbErrorKind::Other);
}

#[test]
fn error_taxonomy_maps_to_statuses() {
    assert_eq!(http_status(&ServiceError::NotFound), 404);
    assert_eq!(http_status(&ServiceError::Auth), 401);
    assert_eq!(http_status(&ServiceError::Connection), 500);
    assert_eq!(http_status(&ServiceError::ResourceExists), 500);
    assert_eq!(http_status(&ServiceError::PartialProvisioning), 500);
    assert_eq!(http_status(&ServiceError::Migration), 500);
    assert_eq!(http_status(&ServiceError::UpstreamProxy), 500);
}

#[test]
fn matching_password_is_accepted() {
    assert!(verify_password("hunter2", "hunter2"));
}

#[test]
fn wrong_password_is_rejected() {
    assert!(!verify_password("hunter", "hunter2"));
    assert!(!verify_password("HUNTER2", "hunter2"));
    assert!(!verify_password("", "hunter2"));
}

#[test]
fn root_secret_name_default() {
    assert_eq!(default_root_secret_name(), "postgres/docbox/config");
}
