//! Issuing sessions: who a session is for, when it expires, and the token
//! that names it.

use crate::models::DbError;
use crate::models::Session;
use crate::models::SessionView;
use crate::models::User;
use crate::models::UserView;
use crate::store::get_user_by_id;
use crate::store::get_user_by_login;
use crate::store::has_login;
use crate::store::has_session;
use crate::store::has_user_id;
use crate::store::insert_session;
use crate::store::result_view;
use crate::store::user_by_login;
use crate::store::valid_store;
use crate::store::with_session;
use crate::store::Store;
use crate::store::StoreView;
use crate::token::random_seed;
use crate::token::token_from_seed;
use crate::token::token_of_seed;
use chrono::Utc;
use vstd::prelude::*;

verus! {

/// The user that a session is issued to: the one with the given id, or,
/// without an id, the one with the given login. `NotFound` where neither is
/// given or no such user exists.
pub open spec fn session_owner(s: StoreView, user: UserView) -> Result<i32, DbError> {
    match user.id {
        Some(id) => if has_user_id(s, id) {
            Ok(id)
        } else {
            Err(DbError::NotFound)
        },
        None => match user.login {
            Some(login) => if has_login(s, login) {
                Ok(user_by_login(s, login).id->Some_0)
            } else {
                Err(DbError::NotFound)
            },
            None => Err(DbError::NotFound),
        },
    }
}

/// When a session issued at `now` expires: never without a lifetime, else at
/// `now + lifetime`; a time that no timestamp can hold is refused.
pub open spec fn expiry_of(now: i64, lifetime: Option<i64>) -> Result<Option<i64>, DbError> {
    match lifetime {
        None => Ok(None),
        Some(seconds) => if i64::MIN <= now + seconds <= i64::MAX {
            Ok(Some((now + seconds) as i64))
        } else {
            Err(DbError::PGError)
        },
    }
}

/// What issuing a session with the token `token` at the time `now` returns.
pub open spec fn issue_outcome(
    s: StoreView,
    user: UserView,
    lifetime: Option<i64>,
    token: Seq<char>,
    now: i64,
) -> Result<SessionView, DbError> {
    match session_owner(s, user) {
        Err(e) => Err(e),
        Ok(owner) => match expiry_of(now, lifetime) {
            Err(e) => Err(e),
            Ok(expires) => if has_session(s, token) {
                Err(DbError::PGError)
            } else {
                Ok(SessionView { key: Some(token), user_id: Some(owner), expires })
            },
        },
    }
}

/// The store after issuing: with the new session where one was issued, else
/// as it was.
pub open spec fn issued(
    s: StoreView,
    user: UserView,
    lifetime: Option<i64>,
    token: Seq<char>,
    now: i64,
) -> StoreView {
    match issue_outcome(s, user, lifetime, token, now) {
        Ok(session) => with_session(s, session),
        Err(_) => s,
    }
}

/// Reads the clock: `chrono::Utc::now().timestamp()`, the seconds since the
/// Unix epoch.
///
/// Trusted: nothing is claimed of the value; every caller is verified for
/// whatever time comes back.
#[verifier::external_body]
pub(crate) fn unix_now() -> (seconds: i64) {
    Utc::now().timestamp()
}

/// How the owner of a new session is to be found.
#[derive(Debug, PartialEq, Eq)]
pub enum OwnerPlan {
    /// The user gives an id: the user with this id is looked up.
    ById(i32),
    /// The user gives no id but a login: the user with it is looked up.
    ByLogin(String),
    /// The user gives neither: there is nobody to issue a session to.
    Nobody,
}

/// The owner that a lookup gives: the id of the user found, and the error of
/// a lookup that failed, unchanged.
pub open spec fn owner_found(found: Result<UserView, DbError>) -> Result<i32, DbError> {
    match found {
        Ok(user) => match user.id {
            Some(id) => Ok(id),
            None => Err(DbError::NotFound),
        },
        Err(e) => Err(e),
    }
}

/// Decides how the owner of a session for `user` is found: by its id where
/// it has one, else by its login.
pub fn plan_owner(user: &User) -> (plan: OwnerPlan)
    ensures
        match plan {
            OwnerPlan::ById(id) => user@.id == Some(id),
            OwnerPlan::ByLogin(login) => user@.id is None && user@.login == Some(login@),
            OwnerPlan::Nobody => user@.id is None && user@.login is None,
        },
{
    match user.id {
        Some(id) => OwnerPlan::ById(id),
        None => match &user.login {
            Some(login) => OwnerPlan::ByLogin(login.clone()),
            None => OwnerPlan::Nobody,
        },
    }
}

/// Reads the owner of a session off the outcome of looking the user up.
pub fn owner_of_found(found: &Result<User, DbError>) -> (owner: Result<i32, DbError>)
    ensures
        owner == owner_found(result_view(*found)),
{
    match found {
        Ok(user) => match user.id {
            Some(id) => Ok(id),
            None => Err(DbError::NotFound),
        },
        Err(e) => Err(*e),
    }
}

/// Finds the user that a session for `user` is bound to.
pub fn find_session_owner(store: &Store, user: &User) -> (owner: Result<i32, DbError>)
    requires
        valid_store(store@),
    ensures
        owner == session_owner(store@, user@),
{
    match plan_owner(user) {
        OwnerPlan::ById(id) => {
            owner_of_found(&get_user_by_id(store, id))
        },
        OwnerPlan::ByLogin(login) => owner_of_found(&get_user_by_login(store, login.as_str())),
        OwnerPlan::Nobody => Err(DbError::NotFound),
    }
}

/// Computes the expiry of a session issued at `now`.
pub fn expiry_from(now: i64, lifetime: Option<i64>) -> (expires: Result<Option<i64>, DbError>)
    ensures
        expires == expiry_of(now, lifetime),
{
    match lifetime {
        None => Ok(None),
        Some(seconds) => match now.checked_add(seconds) {
            Some(at) => Ok(Some(at)),
            None => Err(DbError::PGError),
        },
    }
}

/// Issues a session for `user` with the token derived from `seed`, at the
/// time `now`. The session is stored and returned with its token; on any
/// failure nothing is stored.
pub fn issue_session(
    store: &mut Store,
    user: User,
    lifetime: Option<i64>,
    seed: u128,
    now: i64,
) -> (outcome: Result<Session, DbError>)
    requires
        valid_store(old(store)@),
    ensures
        valid_store(final(store)@),
        result_view(outcome) == issue_outcome(
            old(store)@,
            user@,
            lifetime,
            token_of_seed(seed),
            now,
        ),
        final(store)@ == issued(old(store)@, user@, lifetime, token_of_seed(seed), now),
{
    let owner = match find_session_owner(store, &user) {
        Ok(owner) => owner,
        Err(e) => {
            return Err(e);
        },
    };
    let token = token_from_seed(seed);
    let expires = match expiry_from(now, lifetime) {
        Ok(expires) => expires,
        Err(e) => {
            return Err(e);
        },
    };
    insert_session(store, token, owner, expires)
}

/// Issues a session for `user` with a fresh random token. Without an id the
/// user is looked up by its login. With a lifetime, in seconds, the session
/// expires that long after the current time.
///
/// The seed and the time are drawn here, so the contract holds for some seed
/// and some time: the outcome and the new store are those of
/// [`issue_session`] with them.
pub fn generate_session_token(store: &mut Store, user: User, lifetime: Option<i64>) -> (outcome:
    Result<Session, DbError>)
    requires
        valid_store(old(store)@),
    ensures
        valid_store(final(store)@),
        exists|seed: u128, now: i64|
            {
                &&& result_view(outcome) == #[trigger] issue_outcome(
                    old(store)@,
                    user@,
                    lifetime,
                    token_of_seed(seed),
                    now,
                )
                &&& final(store)@ == issued(old(store)@, user@, lifetime, token_of_seed(seed), now)
            },
{
    let seed = random_seed();
    let now = unix_now();
    issue_session(store, user, lifetime, seed, now)
}

} // verus!
