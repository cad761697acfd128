use daedalus::models::users::{UserQuery, DEFAULT_PAGE, DEFAULT_PAGE_SIZE};
use daedalus::handlers::web::auth::{login_failure, LoginFailure, LoginFormData};
use daedalus::middleware::session::SessionMiddlewareBuilder;
use daedalus::config::SessionSettings;
use daedalus::result::AppError;
use daedalus::services::users::{check_credentials, check_new_email, hash_optional_password, hash_password};

#[test]
fn created_password_signs_in() {
    let h = hash_password("hunter42").unwrap();
    assert_ne!(h, "hunter42");
    assert!(check_credentials(Some(&h), "hunter42").is_ok());
    match check_credentials(Some(&h), "wrong") {
        Err(AppError::Forbidden { cause }) => assert_eq!(cause, "Invalid email or password"),
        other => panic!("unexpected {:?}", other),
    }
}

#[test]
fn unknown_user_and_unreadable_hash() {
    match check_credentials(None, "x") {
        Err(AppError::Forbidden { cause }) => assert_eq!(cause, "Invalid email or password"),
        other => panic!("unexpected {:?}", other),
    }
    assert!(matches!(check_credentials(Some("not a hash"), "x"), Err(AppError::ServerError { .. })));
}

#[test]
fn optional_password_is_hashed_only_when_given() {
    assert!(hash_optional_password(None).unwrap().is_none());
    let h = hash_optional_password(Some("pw".to_string())).unwrap().unwrap();
    assert!(check_credentials(Some(&h), "pw").is_ok());
}

#[test]
fn taken_email_is_refused() {
    assert!(check_new_email(false, "a@b.c").is_ok());
    match check_new_email(true, "a@b.c") {
        Err(AppError::BadRequest { cause }) => assert_eq!(cause, "User with email a@b.c already exists"),
        other => panic!("unexpected {:?}", other),
    }
}

#[test]
fn login_form_uses_the_first_tenant() {
    let form = LoginFormData { email: "a@b.c".to_string(), password: "pw".to_string() };
    let c = form.credentials();
    assert_eq!((c.tenant_id, c.email.as_str(), c.password.as_str()), (1, "a@b.c", "pw"));
    match login_failure(AppError::server_error("db down"), &form) {
        LoginFailure::Fail(AppError::ServerError { cause }) => assert_eq!(cause, "db down"),
        other => panic!("unexpected {:?}", other),
    }
    match login_failure(AppError::forbidden("Invalid email or password"), &form) {
        LoginFailure::Retry { error, email } => {
            assert_eq!(error, "Invalid email or password");
            assert_eq!(email, "a@b.c");
        }
        other => panic!("unexpected {:?}", other),
    }
}

#[test]
fn session_ttl_is_the_lifetime() {
    let s = SessionSettings { secret: "x".to_string(), secure: true, lifetime: 7200 };
    assert_eq!(SessionMiddlewareBuilder::ttl_seconds(&s), 7200);
    let s = SessionSettings { secret: "x".to_string(), secure: true, lifetime: u64::MAX };
    assert_eq!(SessionMiddlewareBuilder::ttl_seconds(&s), -1);
}

#[test]
fn page_offset() {
    let q = UserQuery { tenant_id: None, email: None, active: true, page: DEFAULT_PAGE, page_size: DEFAULT_PAGE_SIZE };
    assert_eq!(q.offset(), 0);
    let q = UserQuery { page: 3, page_size: 25, ..q };
    assert_eq!(q.offset(), 50);
}

#[test]
fn short_passwords_hash() {
    assert!(hash_password("").is_ok());
}
