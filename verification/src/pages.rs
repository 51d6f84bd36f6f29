//! What the pages show of an outcome: the flags of the forms, the status of
//! the response, and whether a page is wrapped in the site's frame.

use crate::auth::LoginOutcome;
use crate::auth::LogoutOutcome;
use crate::auth::RegisterOutcome;
use crate::text::str_eq;
use crate::models::AuthError;
use vstd::prelude::*;

verus! {

/// Which fields the registration form marks as wrong.
#[derive(Clone, Copy, Debug, PartialEq, Eq, Structural)]
pub struct RegisterErrorFlags {
    pub name: bool,
    pub login: bool,
    pub password: bool,
    pub exists: bool,
}

/// What the login form marks as wrong.
#[derive(Clone, Copy, Debug, PartialEq, Eq, Structural)]
pub struct LoginErrorFlags {
    pub login: bool,
    pub password: bool,
    pub not_found: bool,
    pub session: bool,
    pub cookie: bool,
}

/// Status of a page that was rendered as asked.
pub const STATUS_OK: u16 = 200;

/// Status of a redirect to the start page.
pub const STATUS_FOUND: u16 = 302;

/// Status of a form that is shown again with its errors.
pub const STATUS_BAD_REQUEST: u16 = 400;

/// Status of a failure of the store.
pub const STATUS_INTERNAL_SERVER_ERROR: u16 = 500;

/// The value of `X-Requested-With` that marks a request made by a script.
pub const AJAX_MARK: &'static str = "XMLHttpRequest";

/// The flags of the registration form for a set of violations.
pub open spec fn register_flags_of(tags: Seq<AuthError>) -> RegisterErrorFlags {
    RegisterErrorFlags {
        name: tags.contains(AuthError::BadName),
        login: tags.contains(AuthError::BadLogin),
        password: tags.contains(AuthError::BadPassword),
        exists: tags.contains(AuthError::AlreadyExists),
    }
}

/// The flags of the login form for a set of violations.
pub open spec fn login_flags_of(tags: Seq<AuthError>) -> LoginErrorFlags {
    LoginErrorFlags {
        login: tags.contains(AuthError::BadLogin),
        password: tags.contains(AuthError::BadPassword),
        not_found: tags.contains(AuthError::NotFound),
        session: tags.contains(AuthError::TokenNotGenerated),
        cookie: tags.contains(AuthError::CookieNotWrote),
    }
}

/// The status of the response to a registration.
pub open spec fn register_status(outcome: RegisterOutcome) -> u16 {
    match outcome {
        RegisterOutcome::Invalid(_) => STATUS_BAD_REQUEST,
        RegisterOutcome::Created(_) => STATUS_OK,
        RegisterOutcome::Failed(_) => STATUS_INTERNAL_SERVER_ERROR,
    }
}

/// The tags that the login page shows for an outcome that is not a sign-in.
pub open spec fn login_tags_of(outcome: LoginOutcome) -> Seq<AuthError> {
    match outcome {
        LoginOutcome::Rejected(tags) => tags@,
        LoginOutcome::TokenNotGenerated => seq![AuthError::TokenNotGenerated],
        LoginOutcome::SignedIn(_) => Seq::empty(),
    }
}

/// Whether `tag` is among `tags`.
pub fn contains_tag(tags: &Vec<AuthError>, tag: AuthError) -> (found: bool)
    ensures
        found == tags@.contains(tag),
{
    let mut i: usize = 0;
    while i < tags.len()
        invariant
            i <= tags@.len(),
            forall|j: int| 0 <= j < i ==> tags@[j] != tag,
        decreases tags@.len() - i,
    {
        if tags[i] == tag {
            return true;
        }
        i += 1;
    }
    false
}

/// The fields that the registration form marks for these violations.
pub fn register_error_flags(tags: &Vec<AuthError>) -> (flags: RegisterErrorFlags)
    ensures
        flags == register_flags_of(tags@),
{
    RegisterErrorFlags {
        name: contains_tag(tags, AuthError::BadName),
        login: contains_tag(tags, AuthError::BadLogin),
        password: contains_tag(tags, AuthError::BadPassword),
        exists: contains_tag(tags, AuthError::AlreadyExists),
    }
}

/// What the login form marks for these violations.
pub fn login_error_flags(tags: &Vec<AuthError>) -> (flags: LoginErrorFlags)
    ensures
        flags == login_flags_of(tags@),
{
    LoginErrorFlags {
        login: contains_tag(tags, AuthError::BadLogin),
        password: contains_tag(tags, AuthError::BadPassword),
        not_found: contains_tag(tags, AuthError::NotFound),
        session: contains_tag(tags, AuthError::TokenNotGenerated),
        cookie: contains_tag(tags, AuthError::CookieNotWrote),
    }
}

/// The status of the response to a registration: 400 for a form with
/// violations, 200 for a new account, 500 where the store refused it.
pub fn register_status_code(outcome: &RegisterOutcome) -> (code: u16)
    ensures
        code == register_status(*outcome),
{
    match outcome {
        RegisterOutcome::Invalid(_) => STATUS_BAD_REQUEST,
        RegisterOutcome::Created(_) => STATUS_OK,
        RegisterOutcome::Failed(_) => STATUS_INTERNAL_SERVER_ERROR,
    }
}

/// The status of the response to a login: a redirect for a sign-in, else
/// the form again with status 400.
pub fn login_status_code(outcome: &LoginOutcome) -> (code: u16)
    ensures
        code == if *outcome is SignedIn {
            STATUS_FOUND
        } else {
            STATUS_BAD_REQUEST
        },
{
    match outcome {
        LoginOutcome::SignedIn(_) => STATUS_FOUND,
        _ => STATUS_BAD_REQUEST,
    }
}

/// The status of the response to a logout: a redirect, with or without a
/// token in the cookie.
pub fn logout_status_code(outcome: LogoutOutcome) -> (code: u16)
    ensures
        code == STATUS_FOUND,
{
    STATUS_FOUND
}

/// The tags that the login page shows for an outcome.
pub fn login_failure_tags(outcome: &LoginOutcome) -> (tags: Vec<AuthError>)
    ensures
        tags@ == login_tags_of(*outcome),
{
    match outcome {
        LoginOutcome::Rejected(found) => {
            let mut tags: Vec<AuthError> = Vec::new();
            let mut i: usize = 0;
            while i < found.len()
                invariant
                    i <= found@.len(),
                    tags@ == found@.subrange(0, i as int),
                decreases found@.len() - i,
            {
                tags.push(found[i]);
                assert(tags@ =~= found@.subrange(0, i + 1));
                i += 1;
            }
            assert(tags@ =~= found@);
            tags
        },
        LoginOutcome::TokenNotGenerated => {
            let mut tags: Vec<AuthError> = Vec::new();
            tags.push(AuthError::TokenNotGenerated);
            assert(tags@ =~= seq![AuthError::TokenNotGenerated]);
            tags
        },
        LoginOutcome::SignedIn(_) => Vec::new(),
    }
}

/// Whether the page is sent bare, without the site's frame: it is where the
/// request carries `X-Requested-With: XMLHttpRequest`.
pub fn is_ajax_request(requested_with: Option<&str>) -> (bare: bool)
    ensures
        bare == (requested_with is Some && requested_with->Some_0@ == AJAX_MARK@),
{
    match requested_with {
        Some(value) => str_eq(value, AJAX_MARK),
        None => false,
    }
}

} // verus!
