use booking_auth::auth::LoginOutcome;
use booking_auth::auth::LogoutOutcome;
use booking_auth::auth::RegisterOutcome;
use booking_auth::models::AuthError;
use booking_auth::models::DbError;
use booking_auth::models::Session;
use booking_auth::models::User;
use booking_auth::pages::contains_tag;
use booking_auth::pages::is_ajax_request;
use booking_auth::pages::login_error_flags;
use booking_auth::pages::login_failure_tags;
use booking_auth::pages::login_status_code;
use booking_auth::pages::logout_status_code;
use booking_auth::pages::register_error_flags;
use booking_auth::pages::register_status_code;
use booking_auth::pages::LoginErrorFlags;
use booking_auth::pages::RegisterErrorFlags;

fn some_user() -> User {
    User { id: Some(1), login: None, name: None, password_hash: None, role: None, score: None }
}

fn some_session() -> Session {
    Session { key: Some("t".to_string()), user_id: Some(1), expires: None }
}

#[test]
fn contains_tag_finds_tags() {
    let tags = vec![AuthError::BadLogin, AuthError::NotFound];
    assert!(contains_tag(&tags, AuthError::BadLogin));
    assert!(contains_tag(&tags, AuthError::NotFound));
    assert!(!contains_tag(&tags, AuthError::BadPassword));
    assert!(!contains_tag(&vec![], AuthError::BadPassword));
}

#[test]
fn register_flags_mark_each_violation() {
    assert_eq!(
        register_error_flags(&vec![AuthError::BadPassword]),
        RegisterErrorFlags { name: false, login: false, password: true, exists: false }
    );
    assert_eq!(
        register_error_flags(&vec![
            AuthError::BadName,
            AuthError::BadLogin,
            AuthError::AlreadyExists,
            AuthError::BadPassword,
        ]),
        RegisterErrorFlags { name: true, login: true, password: true, exists: true }
    );
    assert_eq!(
        register_error_flags(&vec![]),
        RegisterErrorFlags { name: false, login: false, password: false, exists: false }
    );
}

#[test]
fn login_flags_mark_each_violation() {
    assert_eq!(
        login_error_flags(&vec![AuthError::BadLogin, AuthError::NotFound]),
        LoginErrorFlags {
            login: true,
            password: false,
            not_found: true,
            session: false,
            cookie: false,
        }
    );
    assert_eq!(
        login_error_flags(&vec![AuthError::TokenNotGenerated]),
        LoginErrorFlags {
            login: false,
            password: false,
            not_found: false,
            session: true,
            cookie: false,
        }
    );
    assert_eq!(
        login_error_flags(&vec![AuthError::CookieNotWrote, AuthError::BadPassword]),
        LoginErrorFlags {
            login: false,
            password: true,
            not_found: false,
            session: false,
            cookie: true,
        }
    );
}

#[test]
fn register_status_codes() {
    assert_eq!(register_status_code(&RegisterOutcome::Invalid(vec![AuthError::BadName])), 400);
    assert_eq!(register_status_code(&RegisterOutcome::Created(some_user())), 200);
    assert_eq!(register_status_code(&RegisterOutcome::Failed(DbError::PGError)), 500);
}

#[test]
fn login_status_codes() {
    assert_eq!(login_status_code(&LoginOutcome::SignedIn(some_session())), 302);
    assert_eq!(login_status_code(&LoginOutcome::Rejected(vec![AuthError::NotFound])), 400);
    assert_eq!(login_status_code(&LoginOutcome::TokenNotGenerated), 400);
}

#[test]
fn logout_never_reports_an_error() {
    assert_eq!(logout_status_code(LogoutOutcome::SignedOut), 302);
    assert_eq!(logout_status_code(LogoutOutcome::NothingToDo), 302);
}

#[test]
fn login_failure_tags_of_each_outcome() {
    assert_eq!(
        login_failure_tags(&LoginOutcome::Rejected(vec![AuthError::BadLogin, AuthError::NotFound])),
        vec![AuthError::BadLogin, AuthError::NotFound]
    );
    assert_eq!(
        login_failure_tags(&LoginOutcome::TokenNotGenerated),
        vec![AuthError::TokenNotGenerated]
    );
    assert_eq!(login_failure_tags(&LoginOutcome::SignedIn(some_session())), vec![]);
}

#[test]
fn ajax_requests_get_the_bare_page() {
    assert!(is_ajax_request(Some("XMLHttpRequest")));
    assert!(!is_ajax_request(Some("xmlhttprequest")));
    assert!(!is_ajax_request(Some("")));
    assert!(!is_ajax_request(None));
}

#[test]
fn db_error_status_codes() {
    assert_eq!(DbError::NotFound.status_code(), 404);
    assert_eq!(DbError::PGError.status_code(), 500);
    assert_eq!(DbError::PGMError.status_code(), 500);
    assert_eq!(DbError::PoolError.status_code(), 500);
}

#[test]
fn only_a_pool_error_is_described() {
    assert!(DbError::PoolError.reports_detail());
    assert!(!DbError::NotFound.reports_detail());
    assert!(!DbError::PGError.reports_detail());
    assert!(!DbError::PGMError.reports_detail());
}
