//! What holds of the session relation across several operations.

use crate::auth::credentials_accepted;
use crate::auth::registered;
use crate::auth::registration_info;
use crate::auth::registration_succeeds;
use crate::auth::registration_violations;
use crate::auth::signed_out;
use crate::models::AuthError;
use crate::models::DbError;
use crate::models::SessionView;
use crate::models::UserView;
use crate::session::issue_outcome;
use crate::session::issued;
use crate::store::has_login;
use crate::store::has_session;
use crate::store::has_user_id;
use crate::store::keeping_sessions;
use crate::store::lemma_id_is_unique;
use crate::store::lemma_keeping_sessions_valid;
use crate::store::lemma_login_is_unique;
use crate::store::lemma_token_is_unique;
use crate::store::lemma_with_user_valid;
use crate::store::lemma_with_session_valid;
use crate::store::lookup_id;
use crate::store::owner_differs;
use crate::store::resolve;
use crate::store::session_by_token;
use crate::store::token_differs;
use crate::store::user_by_id;
use crate::store::user_by_login;
use crate::store::valid_store;
use crate::store::with_session;
use crate::store::without_sessions_of;
use crate::store::without_token;
use crate::store::StoreView;
use crate::validate::name_ok;
use crate::validate::password_ok;
use vstd::prelude::*;

verus! {

/// A sequence whose members all pass a filter is left whole by it.
pub proof fn lemma_filter_of_all<A>(items: Seq<A>, keep: spec_fn(A) -> bool)
    requires
        forall|i: int| 0 <= i < items.len() ==> keep(#[trigger] items[i]),
    ensures
        items.filter(keep) == items,
    decreases items.len(),
{
    reveal(Seq::filter);
    if items.len() > 0 {
        let rest = items.drop_last();
        assert forall|i: int| 0 <= i < rest.len() implies keep(#[trigger] rest[i]) by {
            assert(rest[i] == items[i]);
        }
        lemma_filter_of_all(rest, keep);
        assert(keep(items[items.len() - 1]));
        assert(rest.push(items.last()) =~= items);
    }
}

/// After sessions were removed, a token names a session exactly where it did
/// before and that session was kept, and then it names the same session.
pub proof fn lemma_kept_session(s: StoreView, keep: spec_fn(SessionView) -> bool, token: Seq<char>)
    requires
        valid_store(s),
    ensures
        has_session(keeping_sessions(s, keep), token) <==> has_session(s, token) && keep(
            session_by_token(s, token),
        ),
        has_session(keeping_sessions(s, keep), token) ==> session_by_token(
            keeping_sessions(s, keep),
            token,
        ) == session_by_token(s, token),
{
    let after = keeping_sessions(s, keep);
    lemma_keeping_sessions_valid(s, keep);
    if has_session(s, token) && keep(session_by_token(s, token)) {
        let k = choose|k: int|
            0 <= k < s.sessions.len() && (#[trigger] s.sessions[k]).key == Some(token);
        lemma_token_is_unique(s, token, k);
        s.sessions.lemma_filter_contains(keep, k);
        let j = choose|j: int| 0 <= j < after.sessions.len() && after.sessions[j] == s.sessions[k];
        lemma_token_is_unique(after, token, j);
    }
    if has_session(after, token) {
        let j = choose|j: int|
            0 <= j < after.sessions.len() && (#[trigger] after.sessions[j]).key == Some(token);
        lemma_token_is_unique(after, token, j);
        let x = after.sessions[j];
        s.sessions.lemma_filter_pred(keep, j);
        assert(after.sessions.contains(x));
        s.sessions.lemma_filter_contains_rev(keep, x);
        let k = choose|k: int| 0 <= k < s.sessions.len() && s.sessions[k] == x;
        lemma_token_is_unique(s, token, k);
    }
}

/// Removing a token invalidates it: once removed, a token resolves to
/// nothing.
pub proof fn law_removed_token_is_not_found(s: StoreView, token: Seq<char>)
    requires
        valid_store(s),
    ensures
        valid_store(without_token(s, token)),
        !has_session(without_token(s, token), token),
        resolve(without_token(s, token), token) == Err::<UserView, DbError>(DbError::NotFound),
{
    lemma_keeping_sessions_valid(s, token_differs(token));
    lemma_kept_session(s, token_differs(token), token);
    if has_session(s, token) {
        let k = choose|k: int|
            0 <= k < s.sessions.len() && (#[trigger] s.sessions[k]).key == Some(token);
        lemma_token_is_unique(s, token, k);
    }
}

/// Removing a token that names no session changes nothing.
pub proof fn law_removing_absent_token_changes_nothing(s: StoreView, token: Seq<char>)
    requires
        !has_session(s, token),
    ensures
        without_token(s, token) == s,
{
    lemma_filter_of_all(s.sessions, token_differs(token));
}

/// Removing a token twice is the same as removing it once.
pub proof fn law_removing_token_is_idempotent(s: StoreView, token: Seq<char>)
    requires
        valid_store(s),
    ensures
        without_token(without_token(s, token), token) == without_token(s, token),
{
    law_removed_token_is_not_found(s, token);
    law_removing_absent_token_changes_nothing(without_token(s, token), token);
}

/// Removing one token leaves every other token as it was.
pub proof fn law_removing_token_keeps_the_others(s: StoreView, token: Seq<char>, other: Seq<char>)
    requires
        valid_store(s),
        other != token,
    ensures
        resolve(without_token(s, token), other) == resolve(s, other),
{
    lemma_kept_session(s, token_differs(token), other);
    if has_session(s, other) {
        let k = choose|k: int|
            0 <= k < s.sessions.len() && (#[trigger] s.sessions[k]).key == Some(other);
        lemma_token_is_unique(s, other, k);
    }
    lemma_same_users_same_lookup(s, without_token(s, token));
}

/// Two stores with the same users answer every lookup by id alike.
pub proof fn lemma_same_users_same_lookup(a: StoreView, b: StoreView)
    requires
        a.users == b.users,
    ensures
        forall|id: i32| #[trigger] lookup_id(a, id) == lookup_id(b, id),
{
    assert forall|id: i32| #[trigger] lookup_id(a, id) == lookup_id(b, id) by {
        assert(has_user_id(a, id) == has_user_id(b, id));
        assert(user_by_id(a, id) == user_by_id(b, id));
    }
}

/// After all sessions of a user were removed, no token resolves to that
/// user, and the sessions of the other users resolve as before.
pub proof fn law_user_without_sessions(s: StoreView, owner: i32, token: Seq<char>)
    requires
        valid_store(s),
    ensures
        valid_store(without_sessions_of(s, Some(owner))),
        resolve(without_sessions_of(s, Some(owner)), token) == if has_session(s, token)
            && session_by_token(s, token).user_id == Some(owner) {
            Err::<UserView, DbError>(DbError::NotFound)
        } else {
            resolve(s, token)
        },
{
    let keep = owner_differs(Some(owner));
    lemma_keeping_sessions_valid(s, keep);
    lemma_kept_session(s, keep, token);
    lemma_same_users_same_lookup(s, without_sessions_of(s, Some(owner)));
}

/// Removing the sessions of a user twice is the same as removing them once,
/// and for a user without an id nothing is removed.
pub proof fn law_removing_user_sessions_is_idempotent(s: StoreView, owner: Option<i32>)
    ensures
        without_sessions_of(without_sessions_of(s, owner), owner) == without_sessions_of(
            s,
            owner,
        ),
        owner is None ==> without_sessions_of(s, owner) == s,
{
    let keep = owner_differs(owner);
    let once = s.sessions.filter(keep);
    assert forall|i: int| 0 <= i < once.len() implies keep(#[trigger] once[i]) by {
        s.sessions.lemma_filter_pred(keep, i);
    }
    lemma_filter_of_all(once, keep);
    if owner is None {
        lemma_filter_of_all(s.sessions, keep);
    }
}

/// A session that was issued resolves to the user it was issued to, and
/// after its token is removed it resolves to nothing.
pub proof fn law_issue_resolve_remove(
    s: StoreView,
    user: UserView,
    lifetime: Option<i64>,
    token: Seq<char>,
    now: i64,
)
    requires
        valid_store(s),
        issue_outcome(s, user, lifetime, token, now) is Ok,
    ensures
        valid_store(issued(s, user, lifetime, token, now)),
        resolve(issued(s, user, lifetime, token, now), token) == lookup_id(
            s,
            issue_outcome(s, user, lifetime, token, now)->Ok_0.user_id->Some_0,
        ),
        resolve(issued(s, user, lifetime, token, now), token) is Ok,
        resolve(without_token(issued(s, user, lifetime, token, now), token), token) == Err::<
            UserView,
            DbError,
        >(DbError::NotFound),
{
    let session = issue_outcome(s, user, lifetime, token, now)->Ok_0;
    let after = issued(s, user, lifetime, token, now);
    let owner = session.user_id->Some_0;
    assert(after == with_session(s, session));
    assert(has_user_id(s, owner)) by {
        if user.id is Some {
        } else {
            let login = user.login->Some_0;
            let c = choose|c: int|
                0 <= c < s.users.len() && (#[trigger] s.users[c]).login == Some(login);
            lemma_id_is_unique(s, s.users[c].id->Some_0, c);
        }
    }
    lemma_with_session_valid(s, session);
    let last = s.sessions.len() as int;
    assert(after.sessions[last] == session);
    lemma_token_is_unique(after, token, last);
    lemma_same_users_same_lookup(s, after);
    law_removed_token_is_not_found(after, token);
}

/// No two live sessions share a token: a token that names a session is
/// never issued again while that session is there.
pub proof fn law_live_token_is_not_reissued(
    s: StoreView,
    user: UserView,
    lifetime: Option<i64>,
    token: Seq<char>,
    now: i64,
)
    requires
        has_session(s, token),
    ensures
        issue_outcome(s, user, lifetime, token, now) is Err,
        issued(s, user, lifetime, token, now) == s,
{
}

/// Two sessions issued one after the other have different tokens.
pub proof fn law_issued_tokens_differ(
    s: StoreView,
    first_user: UserView,
    first_lifetime: Option<i64>,
    first_token: Seq<char>,
    first_now: i64,
    second_user: UserView,
    second_lifetime: Option<i64>,
    second_token: Seq<char>,
    second_now: i64,
)
    requires
        valid_store(s),
        issue_outcome(s, first_user, first_lifetime, first_token, first_now) is Ok,
        issue_outcome(
            issued(s, first_user, first_lifetime, first_token, first_now),
            second_user,
            second_lifetime,
            second_token,
            second_now,
        ) is Ok,
    ensures
        first_token != second_token,
{
    let session = issue_outcome(s, first_user, first_lifetime, first_token, first_now)->Ok_0;
    let after = issued(s, first_user, first_lifetime, first_token, first_now);
    assert(after.sessions[s.sessions.len() as int] == session);
    assert(has_session(after, first_token));
}

/// Once a login is registered, a second registration with it is turned down
/// with `AlreadyExists`, and with nothing else where its other fields are in
/// order; the store then stays as it is.
pub proof fn law_second_registration_already_exists(
    s: StoreView,
    login: Seq<char>,
    name: Seq<char>,
    password: Seq<char>,
    second_name: Seq<char>,
    second_password: Seq<char>,
)
    requires
        valid_store(s),
        registration_succeeds(s, login, name, password),
    ensures
        valid_store(registered(s, login, name, password)),
        has_login(registered(s, login, name, password), login),
        registration_violations(
            registered(s, login, name, password),
            login,
            second_name,
            second_password,
        ).contains(AuthError::AlreadyExists),
        name_ok(second_name) && password_ok(second_password) ==> registration_violations(
            registered(s, login, name, password),
            login,
            second_name,
            second_password,
        ) == seq![AuthError::AlreadyExists],
        registered(registered(s, login, name, password), login, second_name, second_password)
            == registered(s, login, name, password),
{
    let info = registration_info(login, name, password);
    let after = registered(s, login, name, password);
    lemma_with_user_valid(s, info);
    let last = s.users.len() as int;
    assert(after.users[last].login == Some(login));
    lemma_login_is_unique(after, login, last);
    let tags = registration_violations(after, login, second_name, second_password);
    let at = if name_ok(second_name) {
        0int
    } else {
        1int
    };
    assert(tags[at] == AuthError::AlreadyExists);
    if name_ok(second_name) && password_ok(second_password) {
        assert(tags =~= seq![AuthError::AlreadyExists]);
    }
}

/// A logout without a token in the cookie changes nothing, and a logout
/// repeated with the same cookie changes nothing more.
pub proof fn law_logout_is_idempotent(s: StoreView, cookie_token: Option<Seq<char>>)
    requires
        valid_store(s),
    ensures
        valid_store(signed_out(s, cookie_token)),
        signed_out(s, None) == s,
        signed_out(signed_out(s, cookie_token), cookie_token) == signed_out(s, cookie_token),
{
    match cookie_token {
        Some(token) => {
            law_removed_token_is_not_found(s, token);
            law_removing_token_is_idempotent(s, token);
        },
        None => {},
    }
}

/// A user who signs in is the one that the new token resolves to, and after
/// signing out with that token it resolves to nobody.
pub proof fn law_sign_in_then_out(
    s: StoreView,
    login: Seq<char>,
    password: Seq<char>,
    token: Seq<char>,
    now: i64,
)
    requires
        valid_store(s),
        credentials_accepted(s, login, password),
        issue_outcome(s, user_by_login(s, login), None, token, now) is Ok,
    ensures
        resolve(issued(s, user_by_login(s, login), None, token, now), token) == Ok::<
            UserView,
            DbError,
        >(user_by_login(s, login)),
        resolve(
            signed_out(issued(s, user_by_login(s, login), None, token, now), Some(token)),
            token,
        ) == Err::<UserView, DbError>(DbError::NotFound),
{
    let user = user_by_login(s, login);
    let c = choose|c: int| 0 <= c < s.users.len() && (#[trigger] s.users[c]).login == Some(login);
    lemma_login_is_unique(s, login, c);
    lemma_id_is_unique(s, user.id->Some_0, c);
    law_issue_resolve_remove(s, user, None, token, now);
}

} // verus!
