//! The decisions behind registration, login, logout and "who is signed in".

use crate::hasher::credential_digest;
use crate::hasher::hash_password;
use crate::models::text_view;
use crate::models::AuthError;
use crate::models::DbError;
use crate::models::Session;
use crate::models::SessionView;
use crate::models::User;
use crate::models::UserLoginForm;
use crate::models::UserRegisterForm;
use crate::models::UserView;
use crate::session::generate_session_token;
use crate::session::issue_outcome;
use crate::session::issued;
use crate::store::accepts_user;
use crate::store::add_user;
use crate::store::get_user_by_login;
use crate::store::get_user_by_token;
use crate::store::has_login;
use crate::store::lookup_login;
use crate::store::new_user_row;
use crate::store::remove_session_by_token;
use crate::store::resolve;
use crate::store::result_view;
use crate::store::user_by_login;
use crate::store::valid_store;
use crate::store::with_user;
use crate::store::without_token;
use crate::store::Store;
use crate::store::StoreView;
use crate::text::lemma_encoding_is_not_empty;
use crate::text::str_eq;
use crate::token::token_of_seed;
use crate::validate::check_register_form;
use crate::validate::login_form_violations;
use crate::validate::register_form_violations;
use crate::validate::validate_login_form;
use vstd::prelude::*;

verus! {

/// What was read from the cookie session under the key `"token"`.
#[derive(Debug, PartialEq, Eq)]
pub enum CookieToken {
    /// The cookie holds this text.
    Token(String),
    /// The cookie holds nothing under the key.
    Absent,
    /// The cookie could not be read, or what it holds is not a text.
    Unreadable,
}

/// Why no user is signed in.
#[derive(Clone, Copy, Debug, PartialEq, Eq, Structural)]
pub enum GetCurrentUserError {
    /// The cookie session could not be read.
    SessionGet,
    /// The store has no user for the token.
    Db(DbError),
    /// The cookie session holds no token.
    SessionIsNotString,
}

/// How a registration ended.
#[derive(Debug, PartialEq, Eq)]
pub enum RegisterOutcome {
    /// The form violates these rules; nothing was stored.
    Invalid(Vec<AuthError>),
    /// The account was created; this is its row.
    Created(User),
    /// The form is in order but the store refused the account.
    Failed(DbError),
}

/// How a login ended.
#[derive(Debug, PartialEq, Eq)]
pub enum LoginOutcome {
    /// The form is malformed or no account has this login and password.
    Rejected(Vec<AuthError>),
    /// The credentials are right but the store did not create the session.
    TokenNotGenerated,
    /// The user is signed in with this session; its token goes to the cookie.
    SignedIn(Session),
}

/// How a logout ended.
#[derive(Clone, Copy, Debug, PartialEq, Eq, Structural)]
pub enum LogoutOutcome {
    /// The cookie held a token; its session, if any, was removed.
    SignedOut,
    /// The cookie held no token; nothing was done.
    NothingToDo,
}

/// The key under which the cookie session holds the token.
pub const COOKIE_KEY: &'static str = "token";

/// What the cookie says of the signed-in user, before the store is asked.
pub open spec fn cookie_view(cookie: CookieToken) -> Result<Seq<char>, GetCurrentUserError> {
    match cookie {
        CookieToken::Token(token) => Ok(token@),
        CookieToken::Absent => Err(GetCurrentUserError::SessionIsNotString),
        CookieToken::Unreadable => Err(GetCurrentUserError::SessionGet),
    }
}

/// The user that is signed in, given what the cookie holds.
pub open spec fn current_user(s: StoreView, cookie: CookieToken) -> Result<
    UserView,
    GetCurrentUserError,
> {
    match cookie_view(cookie) {
        Err(e) => Err(e),
        Ok(token) => match resolve(s, token) {
            Ok(user) => Ok(user),
            Err(e) => Err(GetCurrentUserError::Db(e)),
        },
    }
}

/// The account that a registration form asks for.
pub open spec fn registration_info(login: Seq<char>, name: Seq<char>, password: Seq<char>) -> UserView {
    UserView {
        id: None,
        login: Some(login),
        name: Some(name),
        password_hash: Some(credential_digest(password, login)),
        role: None,
        score: None,
    }
}

/// The violations of a registration form against a store.
pub open spec fn registration_violations(
    s: StoreView,
    login: Seq<char>,
    name: Seq<char>,
    password: Seq<char>,
) -> Seq<AuthError> {
    register_form_violations(login, name, password, has_login(s, login))
}

/// Whether a registration creates an account.
pub open spec fn registration_succeeds(
    s: StoreView,
    login: Seq<char>,
    name: Seq<char>,
    password: Seq<char>,
) -> bool {
    &&& registration_violations(s, login, name, password).len() == 0
    &&& accepts_user(s, registration_info(login, name, password))
}

/// The store after a registration.
pub open spec fn registered(
    s: StoreView,
    login: Seq<char>,
    name: Seq<char>,
    password: Seq<char>,
) -> StoreView {
    if registration_succeeds(s, login, name, password) {
        with_user(s, registration_info(login, name, password))
    } else {
        s
    }
}

/// Whether a login and a password are those of the account that was found
/// for the login: the form is well formed, the password is not empty, an
/// account was found, and its stored digest is the digest of this password
/// for this login.
pub open spec fn password_accepted(
    login: Seq<char>,
    password: Seq<char>,
    found: Result<UserView, DbError>,
) -> bool {
    &&& login_form_violations(login, password).len() == 0
    &&& password.len() > 0
    &&& found is Ok
    &&& found->Ok_0.password_hash == Some(credential_digest(password, login))
}

/// Whether a login and a password are those of an account in the store.
pub open spec fn credentials_accepted(s: StoreView, login: Seq<char>, password: Seq<char>) -> bool {
    password_accepted(login, password, lookup_login(s, login))
}

/// The store after a logout with what the cookie held under the key.
pub open spec fn signed_out(s: StoreView, cookie_token: Option<Seq<char>>) -> StoreView {
    match cookie_token {
        Some(token) => without_token(s, token),
        None => s,
    }
}

/// The tags shown when a login is turned down: the violated rules, then
/// `NotFound`.
pub open spec fn rejection_tags(login: Seq<char>, password: Seq<char>) -> Seq<AuthError> {
    login_form_violations(login, password).push(AuthError::NotFound)
}

/// The token that the cookie holds, or why it holds none.
pub fn token_in<'a>(cookie: &'a CookieToken) -> (token: Result<&'a str, GetCurrentUserError>)
    ensures
        match token {
            Ok(text) => cookie_view(*cookie) == Ok::<Seq<char>, GetCurrentUserError>(text@),
            Err(e) => cookie_view(*cookie) == Err::<Seq<char>, GetCurrentUserError>(e),
        },
{
    match cookie {
        CookieToken::Token(token) => Ok(token.as_str()),
        CookieToken::Absent => Err(GetCurrentUserError::SessionIsNotString),
        CookieToken::Unreadable => Err(GetCurrentUserError::SessionGet),
    }
}

/// Resolves the signed-in user from what the cookie holds. An absent or
/// unreadable cookie and a token without a session each give their own
/// error; none of them is a failure of the request.
pub fn get_current_user(store: &Store, cookie: &CookieToken) -> (outcome: Result<
    User,
    GetCurrentUserError,
>)
    requires
        valid_store(store@),
    ensures
        match outcome {
            Ok(user) => current_user(store@, *cookie) == Ok::<UserView, GetCurrentUserError>(
                user@,
            ),
            Err(e) => current_user(store@, *cookie) == Err::<UserView, GetCurrentUserError>(e),
        },
{
    match token_in(cookie) {
        Ok(token) => match get_user_by_token(store, token) {
            Ok(user) => Ok(user),
            Err(e) => Err(GetCurrentUserError::Db(e)),
        },
        Err(e) => Err(e),
    }
}

/// Whether a user is signed in.
pub fn is_authored(store: &Store, cookie: &CookieToken) -> (signed_in: bool)
    requires
        valid_store(store@),
    ensures
        signed_in == current_user(store@, *cookie) is Ok,
{
    get_current_user(store, cookie).is_ok()
}

/// Checks a registration form against the rules on its fields and against
/// the logins in the store. Every rule is evaluated; `Err` holds the tag of
/// each one that is violated.
pub fn validate_register_form(store: &Store, form: &UserRegisterForm) -> (outcome: Result<
    (),
    Vec<AuthError>,
>)
    requires
        valid_store(store@),
    ensures
        outcome is Ok <==> registration_violations(
            store@,
            form.login@,
            form.name@,
            form.password@,
        ).len() == 0,
        outcome is Err ==> outcome->Err_0@ == registration_violations(
            store@,
            form.login@,
            form.name@,
            form.password@,
        ),
{
    let login_taken = get_user_by_login(store, form.login.as_str()).is_ok();
    check_register_form(form, login_taken)
}

/// The account that a registration form asks for: its login and name, and
/// the digest of its password for its login; the store chooses the rest.
pub fn registration_record(form: &UserRegisterForm) -> (record: User)
    ensures
        record@ == registration_info(form.login@, form.name@, form.password@),
{
    let digest = hash_password(form.password.as_str(), form.login.as_str());
    User {
        id: None,
        role: None,
        score: None,
        name: Some(form.name.clone()),
        login: Some(form.login.clone()),
        password_hash: Some(digest),
    }
}

/// Decides what a registration does, given whether its login is taken:
/// `Ok` holds the account to add where the form violates no rule, `Err` the
/// tag of every rule that it violates.
pub fn plan_registration(form: &UserRegisterForm, login_taken: bool) -> (plan: Result<
    User,
    Vec<AuthError>,
>)
    ensures
        match plan {
            Ok(record) => register_form_violations(
                form.login@,
                form.name@,
                form.password@,
                login_taken,
            ).len() == 0 && record@ == registration_info(form.login@, form.name@, form.password@),
            Err(tags) => tags@.len() > 0 && tags@ == register_form_violations(
                form.login@,
                form.name@,
                form.password@,
                login_taken,
            ),
        },
{
    match check_register_form(form, login_taken) {
        Ok(_) => Ok(registration_record(form)),
        Err(tags) => Err(tags),
    }
}

/// How a registration ends once the store has answered: with the new
/// account, or with the store's refusal.
pub fn registration_outcome(added: Result<User, DbError>) -> (outcome: RegisterOutcome)
    ensures
        match added {
            Ok(user) => outcome == RegisterOutcome::Created(user),
            Err(e) => outcome == RegisterOutcome::Failed(e),
        },
{
    match added {
        Ok(user) => RegisterOutcome::Created(user),
        Err(e) => RegisterOutcome::Failed(e),
    }
}

/// How a login with the right credentials ends once the store has answered:
/// signed in with the session, or without a token, whatever the failure.
pub fn sign_in_outcome(issued: Result<Session, DbError>) -> (outcome: LoginOutcome)
    ensures
        match issued {
            Ok(session) => outcome == LoginOutcome::SignedIn(session),
            Err(_) => outcome == LoginOutcome::TokenNotGenerated,
        },
{
    match issued {
        Ok(session) => LoginOutcome::SignedIn(session),
        Err(_) => LoginOutcome::TokenNotGenerated,
    }
}

/// How a logout ends, given what the cookie held under the key: it is a
/// sign-out where there was a token, and nothing where there was none.
pub fn logout_outcome(cookie_token: &Option<String>) -> (outcome: LogoutOutcome)
    ensures
        outcome == if *cookie_token is Some {
            LogoutOutcome::SignedOut
        } else {
            LogoutOutcome::NothingToDo
        },
{
    match cookie_token {
        Some(_) => LogoutOutcome::SignedOut,
        None => LogoutOutcome::NothingToDo,
    }
}

/// Registers an account: validates the form, hashes the password with the
/// login, and adds the user. Nothing is stored unless the account is
/// created.
pub fn register(store: &mut Store, form: &UserRegisterForm) -> (outcome: RegisterOutcome)
    requires
        valid_store(old(store)@),
    ensures
        valid_store(final(store)@),
        final(store)@ == registered(old(store)@, form.login@, form.name@, form.password@),
        match outcome {
            RegisterOutcome::Invalid(tags) => tags@.len() > 0 && tags@ == registration_violations(
                old(store)@,
                form.login@,
                form.name@,
                form.password@,
            ),
            RegisterOutcome::Created(user) => registration_succeeds(
                old(store)@,
                form.login@,
                form.name@,
                form.password@,
            ) && user@ == new_user_row(
                old(store)@,
                registration_info(form.login@, form.name@, form.password@),
            ),
            RegisterOutcome::Failed(e) => e == DbError::PGError && registration_violations(
                old(store)@,
                form.login@,
                form.name@,
                form.password@,
            ).len() == 0 && !registration_succeeds(
                old(store)@,
                form.login@,
                form.name@,
                form.password@,
            ),
        },
{
    let login_taken = get_user_by_login(store, form.login.as_str()).is_ok();
    match plan_registration(form, login_taken) {
        Err(tags) => RegisterOutcome::Invalid(tags),
        Ok(record) => registration_outcome(add_user(store, record)),
    }
}

/// Checks a login form and its password against `found`, the outcome of
/// looking the login up. `Ok` holds the account where one was found and the
/// password's digest is the stored one. A malformed form, an unknown login
/// and a wrong password are all turned down with `NotFound`, after the tags
/// of the violated rules. No digest is computed of an empty password.
pub fn check_credentials(form: &UserLoginForm, found: Result<User, DbError>) -> (outcome: Result<
    User,
    Vec<AuthError>,
>)
    ensures
        match outcome {
            Ok(user) => password_accepted(form.login@, form.password@, result_view(found))
                && result_view(found) == Ok::<UserView, DbError>(user@),
            Err(tags) => !password_accepted(form.login@, form.password@, result_view(found))
                && tags@ == rejection_tags(form.login@, form.password@),
        },
{
    let mut tags = match validate_login_form(form) {
        Ok(_) => {
            if form.password.as_str().as_bytes().len() > 0 {
                match found {
                    Ok(user) => {
                        let digest = hash_password(form.password.as_str(), form.login.as_str());
                        let right = match &user.password_hash {
                            Some(stored) => str_eq(stored.as_str(), digest.as_str()),
                            None => false,
                        };
                        if right {
                            return Ok(user);
                        }
                    },
                    Err(_) => {},
                }
            } else {
                proof {
                    if form.password@.len() > 0 {
                        lemma_encoding_is_not_empty(form.password@);
                    }
                }
            }
            Vec::new()
        },
        Err(tags) => tags,
    };
    tags.push(AuthError::NotFound);
    Err(tags)
}

/// Checks a login form and the credentials in it against the store. The
/// login is looked up only where the form is well formed.
pub fn authenticate(store: &Store, form: &UserLoginForm) -> (outcome: Result<User, Vec<AuthError>>)
    requires
        valid_store(store@),
    ensures
        match outcome {
            Ok(user) => credentials_accepted(store@, form.login@, form.password@) && user@
                == user_by_login(store@, form.login@),
            Err(tags) => !credentials_accepted(store@, form.login@, form.password@) && tags@
                == rejection_tags(form.login@, form.password@),
        },
{
    let found = match validate_login_form(form) {
        Ok(_) => get_user_by_login(store, form.login.as_str()),
        Err(_) => Err(DbError::NotFound),
    };
    check_credentials(form, found)
}

/// Signs a user in: checks the credentials and issues a session without
/// expiry, with a fresh random token. With the right credentials the user
/// is signed in, unless the token that was drawn names a session already.
pub fn login(store: &mut Store, form: &UserLoginForm) -> (outcome: LoginOutcome)
    requires
        valid_store(old(store)@),
    ensures
        valid_store(final(store)@),
        match outcome {
            LoginOutcome::Rejected(tags) => !credentials_accepted(
                old(store)@,
                form.login@,
                form.password@,
            ) && tags@ == rejection_tags(form.login@, form.password@) && final(store)@ == old(
                store,
            )@,
            LoginOutcome::TokenNotGenerated => credentials_accepted(
                old(store)@,
                form.login@,
                form.password@,
            ) && final(store)@ == old(store)@ && exists|seed: u128, now: i64|
                (#[trigger] issue_outcome(
                    old(store)@,
                    user_by_login(old(store)@, form.login@),
                    None,
                    token_of_seed(seed),
                    now,
                )) is Err,
            LoginOutcome::SignedIn(session) => credentials_accepted(
                old(store)@,
                form.login@,
                form.password@,
            ) && exists|seed: u128, now: i64|
                {
                    &&& Ok::<SessionView, DbError>(session@)
                        == #[trigger] issue_outcome(
                        old(store)@,
                        user_by_login(old(store)@, form.login@),
                        None,
                        token_of_seed(seed),
                        now,
                    )
                    &&& final(store)@ == issued(
                        old(store)@,
                        user_by_login(old(store)@, form.login@),
                        None,
                        token_of_seed(seed),
                        now,
                    )
                },
        },
{
    match authenticate(store, form) {
        Err(tags) => LoginOutcome::Rejected(tags),
        Ok(user) => sign_in_outcome(generate_session_token(store, user, None)),
    }
}

/// Signs a user out: removes the session that the cookie's token names.
/// Without a token in the cookie nothing is done, and that is no error.
pub fn logout(store: &mut Store, cookie_token: Option<String>) -> (outcome: LogoutOutcome)
    requires
        valid_store(old(store)@),
    ensures
        valid_store(final(store)@),
        final(store)@ == signed_out(old(store)@, text_view(cookie_token)),
        outcome == if cookie_token is Some {
            LogoutOutcome::SignedOut
        } else {
            LogoutOutcome::NothingToDo
        },
{
    let outcome = logout_outcome(&cookie_token);
    match cookie_token {
        Some(token) => remove_session_by_token(store, token.as_str()),
        None => {},
    }
    outcome
}

} // verus!
