//! The records of the account system and their mathematical views.

use vstd::prelude::*;

verus! {

/// An account. `id` is assigned by the store when the account is created.
#[derive(Debug, PartialEq, Eq)]
pub struct User {
    pub id: Option<i32>,
    pub login: Option<String>,
    pub name: Option<String>,
    pub password_hash: Option<String>,
    pub role: Option<i32>,
    pub score: Option<i32>,
}

/// What a [`User`] is in contracts: its fields, with texts as character
/// sequences.
pub struct UserView {
    pub id: Option<i32>,
    pub login: Option<Seq<char>>,
    pub name: Option<Seq<char>>,
    pub password_hash: Option<Seq<char>>,
    pub role: Option<i32>,
    pub score: Option<i32>,
}

/// A session: an opaque token bound to a user, with an optional expiry as a
/// UTC timestamp in seconds.
#[derive(Debug, PartialEq, Eq)]
pub struct Session {
    pub key: Option<String>,
    pub user_id: Option<i32>,
    pub expires: Option<i64>,
}

/// What a [`Session`] is in contracts.
pub struct SessionView {
    pub key: Option<Seq<char>>,
    pub user_id: Option<i32>,
    pub expires: Option<i64>,
}

/// The fields of the registration form.
#[derive(Debug, PartialEq, Eq)]
pub struct UserRegisterForm {
    pub login: String,
    pub name: String,
    pub password: String,
}

/// The fields of the login form.
#[derive(Debug, PartialEq, Eq)]
pub struct UserLoginForm {
    pub login: String,
    pub password: String,
}

/// The view of an optional text.
pub open spec fn text_view(text: Option<String>) -> Option<Seq<char>> {
    match text {
        Some(s) => Some(s@),
        None => None,
    }
}

impl View for User {
    type V = UserView;

    open spec fn view(&self) -> UserView {
        UserView {
            id: self.id,
            login: text_view(self.login),
            name: text_view(self.name),
            password_hash: text_view(self.password_hash),
            role: self.role,
            score: self.score,
        }
    }
}

impl View for Session {
    type V = SessionView;

    open spec fn view(&self) -> SessionView {
        SessionView { key: text_view(self.key), user_id: self.user_id, expires: self.expires }
    }
}

/// Copies an optional text.
pub fn clone_text(text: &Option<String>) -> (copy: Option<String>)
    ensures
        text_view(copy) == text_view(*text),
{
    match text {
        Some(s) => Some(s.clone()),
        None => None,
    }
}

impl Clone for User {
    fn clone(&self) -> (copy: User)
        ensures
            copy@ == self@,
    {
        User {
            id: self.id,
            login: clone_text(&self.login),
            name: clone_text(&self.name),
            password_hash: clone_text(&self.password_hash),
            role: self.role,
            score: self.score,
        }
    }
}

impl Clone for Session {
    fn clone(&self) -> (copy: Session)
        ensures
            copy@ == self@,
    {
        Session { key: clone_text(&self.key), user_id: self.user_id, expires: self.expires }
    }
}

impl Clone for UserRegisterForm {
    fn clone(&self) -> (copy: UserRegisterForm)
        ensures
            copy.login@ == self.login@,
            copy.name@ == self.name@,
            copy.password@ == self.password@,
    {
        UserRegisterForm {
            login: self.login.clone(),
            name: self.name.clone(),
            password: self.password.clone(),
        }
    }
}

impl Clone for UserLoginForm {
    fn clone(&self) -> (copy: UserLoginForm)
        ensures
            copy.login@ == self.login@,
            copy.password@ == self.password@,
    {
        UserLoginForm { login: self.login.clone(), password: self.password.clone() }
    }
}

/// A reason for which a form or a login attempt is turned down.
#[derive(Clone, Copy, Debug, PartialEq, Eq, Structural)]
pub enum AuthError {
    /// The display name is too long, empty, or holds a character that is
    /// not allowed.
    BadName,
    /// The login is too long, empty, or holds a character that is not
    /// allowed.
    BadLogin,
    /// The password is too short, too long, or holds a character that is
    /// not allowed.
    BadPassword,
    /// The login is already registered.
    AlreadyExists,
    /// No account has this login and password.
    NotFound,
    /// The store did not create the session.
    TokenNotGenerated,
    /// The token could not be written to the cookie session.
    CookieNotWrote,
}

/// Why a store operation failed.
#[derive(Clone, Copy, Debug, PartialEq, Eq, Structural)]
pub enum DbError {
    /// A lookup found no row.
    NotFound,
    /// The store refused or failed the statement.
    PGError,
    /// A row could not be decoded into a record.
    PGMError,
    /// No connection could be had from the pool.
    PoolError,
}

impl DbError {
    /// The HTTP status that reports this error: 404 for a missing row, 500
    /// for every failure of the store or the pool.
    pub open spec fn spec_status_code(self) -> u16 {
        match self {
            DbError::NotFound => 404,
            _ => 500,
        }
    }

    /// The HTTP status that reports this error.
    pub fn status_code(&self) -> (code: u16)
        ensures
            code == self.spec_status_code(),
    {
        match self {
            DbError::NotFound => 404,
            _ => 500,
        }
    }

    /// Whether the response carries the error's text as its body: only a
    /// failure of the pool is described to the client.
    pub fn reports_detail(&self) -> (shown: bool)
        ensures
            shown == (*self == DbError::PoolError),
    {
        match self {
            DbError::PoolError => true,
            _ => false,
        }
    }
}

} // verus!
