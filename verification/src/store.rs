//! The user and session relations, held in memory, with the rules that the
//! account system relies on: logins, ids and tokens are unique, and every
//! session belongs to an existing user.

use crate::text::str_eq;
use crate::models::DbError;
use crate::models::Session;
use crate::models::SessionView;
use crate::models::User;
use crate::models::UserView;
use vstd::prelude::*;

verus! {

/// The users and sessions of the site.
pub struct Store {
    users: Vec<User>,
    sessions: Vec<Session>,
    next_id: i32,
}

/// What a [`Store`] is in contracts: its rows in the order in which they were
/// inserted, and the id that the next new user gets.
pub struct StoreView {
    pub users: Seq<UserView>,
    pub sessions: Seq<SessionView>,
    pub next_id: int,
}

/// The role of a user that registered without one.
pub const DEFAULT_ROLE: i32 = 2;

/// The score of a new user.
pub const INITIAL_SCORE: i32 = 0;

/// The views of a vector of users.
pub open spec fn user_views(users: Seq<User>) -> Seq<UserView> {
    Seq::new(users.len(), |i: int| users[i]@)
}

/// The views of a vector of sessions.
pub open spec fn session_views(sessions: Seq<Session>) -> Seq<SessionView> {
    Seq::new(sessions.len(), |i: int| sessions[i]@)
}

/// Whether some user has this login.
pub open spec fn has_login(s: StoreView, login: Seq<char>) -> bool {
    exists|i: int| 0 <= i < s.users.len() && (#[trigger] s.users[i]).login == Some(login)
}

/// The user with this login, where there is one.
pub open spec fn user_by_login(s: StoreView, login: Seq<char>) -> UserView {
    s.users[choose|i: int| 0 <= i < s.users.len() && (#[trigger] s.users[i]).login == Some(login)]
}

/// Whether some user has this id.
pub open spec fn has_user_id(s: StoreView, id: i32) -> bool {
    exists|i: int| 0 <= i < s.users.len() && (#[trigger] s.users[i]).id == Some(id)
}

/// The user with this id, where there is one.
pub open spec fn user_by_id(s: StoreView, id: i32) -> UserView {
    s.users[choose|i: int| 0 <= i < s.users.len() && (#[trigger] s.users[i]).id == Some(id)]
}

/// Whether some session has this token.
pub open spec fn has_session(s: StoreView, token: Seq<char>) -> bool {
    exists|i: int| 0 <= i < s.sessions.len() && (#[trigger] s.sessions[i]).key == Some(token)
}

/// The session with this token, where there is one.
pub open spec fn session_by_token(s: StoreView, token: Seq<char>) -> SessionView {
    s.sessions[choose|i: int|
        0 <= i < s.sessions.len() && (#[trigger] s.sessions[i]).key == Some(token)]
}

/// The rules that every store obeys.
pub open spec fn valid_store(s: StoreView) -> bool {
    &&& 1 <= s.next_id <= i32::MAX
    &&& forall|i: int|
        0 <= i < s.users.len() ==> {
            &&& (#[trigger] s.users[i]).id is Some
            &&& s.users[i].login is Some
            &&& 1 <= s.users[i].id->Some_0 < s.next_id
        }
    &&& forall|i: int, j: int|
        0 <= i < j < s.users.len() ==> {
            &&& (#[trigger] s.users[i]).id != (#[trigger] s.users[j]).id
            &&& s.users[i].login != s.users[j].login
        }
    &&& forall|i: int|
        0 <= i < s.sessions.len() ==> {
            &&& (#[trigger] s.sessions[i]).key is Some
            &&& s.sessions[i].user_id is Some
            &&& has_user_id(s, s.sessions[i].user_id->Some_0)
        }
    &&& distinct_tokens(s.sessions)
}

/// What looking a login up gives.
pub open spec fn lookup_login(s: StoreView, login: Seq<char>) -> Result<UserView, DbError> {
    if has_login(s, login) {
        Ok(user_by_login(s, login))
    } else {
        Err(DbError::NotFound)
    }
}

/// What looking an id up gives.
pub open spec fn lookup_id(s: StoreView, id: i32) -> Result<UserView, DbError> {
    if has_user_id(s, id) {
        Ok(user_by_id(s, id))
    } else {
        Err(DbError::NotFound)
    }
}

/// What resolving a token gives: the user that its session is bound to. An
/// expiry on the session is not looked at.
pub open spec fn resolve(s: StoreView, token: Seq<char>) -> Result<UserView, DbError> {
    if has_session(s, token) {
        lookup_id(s, session_by_token(s, token).user_id->Some_0)
    } else {
        Err(DbError::NotFound)
    }
}

/// An outcome with its record replaced by the record's view.
pub open spec fn result_view<T: View>(outcome: Result<T, DbError>) -> Result<T::V, DbError> {
    match outcome {
        Ok(record) => Ok(record@),
        Err(e) => Err(e),
    }
}

/// Whether no two sessions of a sequence have the same token.
pub open spec fn distinct_tokens(sessions: Seq<SessionView>) -> bool {
    forall|i: int, j: int|
        0 <= i < j < sessions.len() ==> (#[trigger] sessions[i]).key != (#[trigger] sessions[j]).key
}

/// The row that a new user gets: the next id, the role asked for or the
/// default one, and the initial score.
pub open spec fn new_user_row(s: StoreView, info: UserView) -> UserView {
    UserView {
        id: Some(s.next_id as i32),
        login: info.login,
        name: info.name,
        password_hash: info.password_hash,
        role: Some(
            match info.role {
                Some(role) => role,
                None => DEFAULT_ROLE,
            },
        ),
        score: Some(INITIAL_SCORE),
    }
}

/// Whether the store takes a new user: it has a login, the login is free, and
/// an id is left.
pub open spec fn accepts_user(s: StoreView, info: UserView) -> bool {
    &&& info.login is Some
    &&& !has_login(s, info.login->Some_0)
    &&& s.next_id < i32::MAX
}

/// The store after the user was added.
pub open spec fn with_user(s: StoreView, info: UserView) -> StoreView {
    StoreView {
        users: s.users.push(new_user_row(s, info)),
        sessions: s.sessions,
        next_id: s.next_id + 1,
    }
}

/// Whether the store takes a new session: its user exists and its token is
/// free.
pub open spec fn accepts_session(s: StoreView, token: Seq<char>, user_id: i32) -> bool {
    has_user_id(s, user_id) && !has_session(s, token)
}

/// Why the store does not take a session, where it does not: `NotFound`
/// without the user, else the refusal of a token that is in use.
pub open spec fn session_refusal(s: StoreView, user_id: i32) -> DbError {
    if has_user_id(s, user_id) {
        DbError::PGError
    } else {
        DbError::NotFound
    }
}

/// The store after the session was added.
pub open spec fn with_session(s: StoreView, session: SessionView) -> StoreView {
    StoreView { users: s.users, sessions: s.sessions.push(session), next_id: s.next_id }
}

/// The sessions whose token is not `token`.
pub open spec fn token_differs(token: Seq<char>) -> spec_fn(SessionView) -> bool {
    |x: SessionView| x.key != Some(token)
}

/// The sessions that do not belong to `owner`; without an owner, all of them.
pub open spec fn owner_differs(owner: Option<i32>) -> spec_fn(SessionView) -> bool {
    |x: SessionView| owner is None || x.user_id != owner
}

/// The store with only the sessions that `keep` holds of.
pub open spec fn keeping_sessions(s: StoreView, keep: spec_fn(SessionView) -> bool) -> StoreView {
    StoreView { users: s.users, sessions: s.sessions.filter(keep), next_id: s.next_id }
}

/// The store after the session with this token was removed.
pub open spec fn without_token(s: StoreView, token: Seq<char>) -> StoreView {
    keeping_sessions(s, token_differs(token))
}

/// The store after every session of this user was removed.
pub open spec fn without_sessions_of(s: StoreView, owner: Option<i32>) -> StoreView {
    keeping_sessions(s, owner_differs(owner))
}

impl View for Store {
    type V = StoreView;

    closed spec fn view(&self) -> StoreView {
        StoreView {
            users: user_views(self.users@),
            sessions: session_views(self.sessions@),
            next_id: self.next_id as int,
        }
    }
}

impl Store {
    /// A store without users or sessions; the first user gets the id 1.
    pub fn new() -> (store: Store)
        ensures
            valid_store(store@),
            store@.users.len() == 0,
            store@.sessions.len() == 0,
            store@.next_id == 1,
    {
        Store { users: Vec::new(), sessions: Vec::new(), next_id: 1 }
    }

    /// The number of sessions in the store.
    pub fn session_count(&self) -> (n: usize)
        ensures
            n == self@.sessions.len(),
    {
        self.sessions.len()
    }

    /// The number of users in the store.
    pub fn user_count(&self) -> (n: usize)
        ensures
            n == self@.users.len(),
    {
        self.users.len()
    }

    fn find_login(&self, login: &str) -> (found: Option<usize>)
        ensures
            match found {
                Some(i) => i < self@.users.len() && self@.users[i as int].login == Some(login@),
                None => !has_login(self@, login@),
            },
    {
        let mut i: usize = 0;
        while i < self.users.len()
            invariant
                i <= self.users@.len(),
                forall|j: int| 0 <= j < i ==> (#[trigger] self@.users[j]).login != Some(login@),
            decreases self.users@.len() - i,
        {
            let hit = match &self.users[i].login {
                Some(l) => str_eq(l.as_str(), login),
                None => false,
            };
            if hit {
                return Some(i);
            }
            i += 1;
        }
        None
    }

    fn find_id(&self, id: i32) -> (found: Option<usize>)
        ensures
            match found {
                Some(i) => i < self@.users.len() && self@.users[i as int].id == Some(id),
                None => !has_user_id(self@, id),
            },
    {
        let mut i: usize = 0;
        while i < self.users.len()
            invariant
                i <= self.users@.len(),
                forall|j: int| 0 <= j < i ==> (#[trigger] self@.users[j]).id != Some(id),
            decreases self.users@.len() - i,
        {
            let hit = match self.users[i].id {
                Some(v) => v == id,
                None => false,
            };
            if hit {
                return Some(i);
            }
            i += 1;
        }
        None
    }

    fn find_token(&self, token: &str) -> (found: Option<usize>)
        ensures
            match found {
                Some(i) => i < self@.sessions.len() && self@.sessions[i as int].key == Some(
                    token@,
                ),
                None => !has_session(self@, token@),
            },
    {
        let mut i: usize = 0;
        while i < self.sessions.len()
            invariant
                i <= self.sessions@.len(),
                forall|j: int| 0 <= j < i ==> (#[trigger] self@.sessions[j]).key != Some(token@),
            decreases self.sessions@.len() - i,
        {
            let hit = match &self.sessions[i].key {
                Some(k) => str_eq(k.as_str(), token),
                None => false,
            };
            if hit {
                return Some(i);
            }
            i += 1;
        }
        None
    }
}

/// In a valid store a login names one user: the user found at any index with
/// that login is the user that [`user_by_login`] picks.
pub proof fn lemma_login_is_unique(s: StoreView, login: Seq<char>, i: int)
    requires
        valid_store(s),
        0 <= i < s.users.len(),
        s.users[i].login == Some(login),
    ensures
        has_login(s, login),
        user_by_login(s, login) == s.users[i],
{
    let c = choose|c: int| 0 <= c < s.users.len() && (#[trigger] s.users[c]).login == Some(login);
    if c < i {
        assert(s.users[c].login != s.users[i].login);
    } else if i < c {
        assert(s.users[i].login != s.users[c].login);
    }
}

/// In a valid store an id names one user.
pub proof fn lemma_id_is_unique(s: StoreView, id: i32, i: int)
    requires
        valid_store(s),
        0 <= i < s.users.len(),
        s.users[i].id == Some(id),
    ensures
        has_user_id(s, id),
        user_by_id(s, id) == s.users[i],
{
    let c = choose|c: int| 0 <= c < s.users.len() && (#[trigger] s.users[c]).id == Some(id);
    if c < i {
        assert(s.users[c].id != s.users[i].id);
    } else if i < c {
        assert(s.users[i].id != s.users[c].id);
    }
}

/// In a valid store a token names one session.
pub proof fn lemma_token_is_unique(s: StoreView, token: Seq<char>, i: int)
    requires
        valid_store(s),
        0 <= i < s.sessions.len(),
        s.sessions[i].key == Some(token),
    ensures
        has_session(s, token),
        session_by_token(s, token) == s.sessions[i],
{
    let c = choose|c: int|
        0 <= c < s.sessions.len() && (#[trigger] s.sessions[c]).key == Some(token);
    if c < i {
        assert(s.sessions[c].key != s.sessions[i].key);
    } else if i < c {
        assert(s.sessions[i].key != s.sessions[c].key);
    }
}

/// All users, in the order in which they were created.
pub fn get_users(store: &Store) -> (users: Result<Vec<User>, DbError>)
    requires
        valid_store(store@),
    ensures
        users is Ok,
        user_views(users->Ok_0@) == store@.users,
{
    let mut out: Vec<User> = Vec::new();
    let mut i: usize = 0;
    while i < store.users.len()
        invariant
            i <= store.users@.len(),
            out@.len() == i,
            forall|j: int| 0 <= j < i ==> (#[trigger] out@[j])@ == store.users@[j]@,
        decreases store.users@.len() - i,
    {
        out.push(store.users[i].clone());
        i += 1;
    }
    assert(user_views(out@) =~= store@.users);
    Ok(out)
}

/// The user with the id `id`, or `NotFound`.
pub fn get_user_by_id(store: &Store, id: i32) -> (outcome: Result<User, DbError>)
    requires
        valid_store(store@),
    ensures
        result_view(outcome) == lookup_id(store@, id),
{
    match store.find_id(id) {
        Some(i) => {
            proof {
                lemma_id_is_unique(store@, id, i as int);
            }
            Ok(store.users[i].clone())
        },
        None => Err(DbError::NotFound),
    }
}

/// The user with the login `login`, or `NotFound`.
pub fn get_user_by_login(store: &Store, login: &str) -> (outcome: Result<User, DbError>)
    requires
        valid_store(store@),
    ensures
        result_view(outcome) == lookup_login(store@, login@),
{
    match store.find_login(login) {
        Some(i) => {
            proof {
                lemma_login_is_unique(store@, login@, i as int);
            }
            Ok(store.users[i].clone())
        },
        None => Err(DbError::NotFound),
    }
}

/// The user that the session with the token `token` is bound to, or
/// `NotFound` where no session has this token. An expiry on the session is
/// not looked at: a session stays good until it is removed.
pub fn get_user_by_token(store: &Store, token: &str) -> (outcome: Result<User, DbError>)
    requires
        valid_store(store@),
    ensures
        result_view(outcome) == resolve(store@, token@),
{
    match store.find_token(token) {
        Some(i) => {
            proof {
                lemma_token_is_unique(store@, token@, i as int);
            }
            match store.sessions[i].user_id {
                Some(id) => get_user_by_id(store, id),
                None => Err(DbError::NotFound),
            }
        },
        None => Err(DbError::NotFound),
    }
}

/// Filtering keeps tokens distinct.
pub proof fn lemma_filter_keeps_tokens_distinct(
    sessions: Seq<SessionView>,
    keep: spec_fn(SessionView) -> bool,
)
    requires
        distinct_tokens(sessions),
    ensures
        distinct_tokens(sessions.filter(keep)),
    decreases sessions.len(),
{
    reveal(Seq::filter);
    if sessions.len() > 0 {
        let rest = sessions.drop_last();
        let last = sessions.last();
        assert(distinct_tokens(rest)) by {
            assert forall|i: int, j: int| 0 <= i < j < rest.len() implies (#[trigger] rest[i]).key
                != (#[trigger] rest[j]).key by {
                assert(rest[i] == sessions[i]);
                assert(rest[j] == sessions[j]);
            }
        }
        lemma_filter_keeps_tokens_distinct(rest, keep);
        if keep(last) {
            let kept = rest.filter(keep);
            let out = sessions.filter(keep);
            assert(out == kept.push(last));
            assert forall|i: int, j: int| 0 <= i < j < out.len() implies (#[trigger] out[i]).key
                != (#[trigger] out[j]).key by {
                if j < kept.len() {
                    assert(out[i] == kept[i]);
                    assert(out[j] == kept[j]);
                } else {
                    assert(out[i] == kept[i]);
                    assert(kept.contains(kept[i]));
                    rest.lemma_filter_contains_rev(keep, kept[i]);
                    let k = choose|k: int| 0 <= k < rest.len() && rest[k] == kept[i];
                    assert(sessions[k] == rest[k]);
                    assert(sessions[sessions.len() - 1] == last);
                    assert(sessions[k].key != sessions[sessions.len() - 1].key);
                }
            }
        }
    }
}

/// Removing sessions keeps a store valid.
pub proof fn lemma_keeping_sessions_valid(s: StoreView, keep: spec_fn(SessionView) -> bool)
    requires
        valid_store(s),
    ensures
        valid_store(keeping_sessions(s, keep)),
{
    let after = keeping_sessions(s, keep);
    lemma_filter_keeps_tokens_distinct(s.sessions, keep);
    assert forall|i: int| 0 <= i < after.sessions.len() implies {
        &&& (#[trigger] after.sessions[i]).key is Some
        &&& after.sessions[i].user_id is Some
        &&& has_user_id(after, after.sessions[i].user_id->Some_0)
    } by {
        let x = after.sessions[i];
        assert(after.sessions.contains(x));
        s.sessions.lemma_filter_contains_rev(keep, x);
        let k = choose|k: int| 0 <= k < s.sessions.len() && s.sessions[k] == x;
        assert(has_user_id(s, s.sessions[k].user_id->Some_0));
        let uid = x.user_id->Some_0;
        let u = choose|u: int| 0 <= u < s.users.len() && (#[trigger] s.users[u]).id == Some(uid);
        assert(after.users[u].id == Some(uid));
    }
}

/// Adds a user. The store gives it the next id, the default role where none
/// is asked for, and the initial score, and returns the new row. A user
/// without a login, with a login that is taken, or for whom no id is left is
/// refused, and the store stays as it was.
pub fn add_user(store: &mut Store, user_info: User) -> (outcome: Result<User, DbError>)
    requires
        valid_store(old(store)@),
    ensures
        valid_store(final(store)@),
        accepts_user(old(store)@, user_info@) ==> final(store)@ == with_user(
            old(store)@,
            user_info@,
        ) && result_view(outcome) == Ok::<UserView, DbError>(
            new_user_row(old(store)@, user_info@),
        ),
        !accepts_user(old(store)@, user_info@) ==> final(store)@ == old(store)@ && outcome == Err::<
            User,
            DbError,
        >(DbError::PGError),
{
    let taken = match &user_info.login {
        Some(login) => store.find_login(login.as_str()).is_some(),
        None => true,
    };
    if taken || store.next_id == i32::MAX {
        return Err(DbError::PGError);
    }
    let role = match user_info.role {
        Some(role) => role,
        None => DEFAULT_ROLE,
    };
    let row = User {
        id: Some(store.next_id),
        login: user_info.login,
        name: user_info.name,
        password_hash: user_info.password_hash,
        role: Some(role),
        score: Some(INITIAL_SCORE),
    };
    let copy = row.clone();
    store.users.push(row);
    store.next_id = store.next_id + 1;
    proof {
        let before = old(store)@;
        let after = store@;
        assert(after.users =~= before.users.push(new_user_row(before, user_info@)));
        assert(after.sessions =~= before.sessions);
        assert(after == with_user(before, user_info@));
        lemma_with_user_valid(before, user_info@);
    }
    Ok(copy)
}

/// Adding an accepted user keeps a store valid.
pub proof fn lemma_with_user_valid(s: StoreView, info: UserView)
    requires
        valid_store(s),
        accepts_user(s, info),
    ensures
        valid_store(with_user(s, info)),
{
    let after = with_user(s, info);
    let n = s.users.len() as int;
    assert forall|i: int| 0 <= i < after.users.len() implies {
        &&& (#[trigger] after.users[i]).id is Some
        &&& after.users[i].login is Some
        &&& 1 <= after.users[i].id->Some_0 < after.next_id
    } by {
        if i < n {
            assert(after.users[i] == s.users[i]);
        }
    }
    assert forall|i: int, j: int| 0 <= i < j < after.users.len() implies {
        &&& (#[trigger] after.users[i]).id != (#[trigger] after.users[j]).id
        &&& after.users[i].login != after.users[j].login
    } by {
        assert(after.users[i] == s.users[i]);
        if j < n {
            assert(after.users[j] == s.users[j]);
        }
    }
    assert forall|i: int| 0 <= i < after.sessions.len() implies has_user_id(
        after,
        (#[trigger] after.sessions[i]).user_id->Some_0,
    ) by {
        let uid = s.sessions[i].user_id->Some_0;
        assert(has_user_id(s, uid));
        let u = choose|u: int| 0 <= u < s.users.len() && (#[trigger] s.users[u]).id == Some(uid);
        assert(after.users[u] == s.users[u]);
    }
}

/// Adding an accepted session keeps a store valid.
pub proof fn lemma_with_session_valid(s: StoreView, session: SessionView)
    requires
        valid_store(s),
        session.key is Some,
        session.user_id is Some,
        accepts_session(s, session.key->Some_0, session.user_id->Some_0),
    ensures
        valid_store(with_session(s, session)),
{
    let after = with_session(s, session);
    let n = s.sessions.len() as int;
    assert forall|i: int| 0 <= i < after.sessions.len() implies {
        &&& (#[trigger] after.sessions[i]).key is Some
        &&& after.sessions[i].user_id is Some
        &&& has_user_id(after, after.sessions[i].user_id->Some_0)
    } by {
        let uid = after.sessions[i].user_id->Some_0;
        if i < n {
            assert(after.sessions[i] == s.sessions[i]);
        }
        assert(has_user_id(s, uid));
        let u = choose|u: int| 0 <= u < s.users.len() && (#[trigger] s.users[u]).id == Some(uid);
        assert(after.users[u].id == Some(uid));
    }
    assert forall|i: int, j: int| 0 <= i < j < after.sessions.len() implies (
    #[trigger] after.sessions[i]).key != (#[trigger] after.sessions[j]).key by {
        assert(after.sessions[i] == s.sessions[i]);
        if j < n {
            assert(after.sessions[j] == s.sessions[j]);
        }
    }
}

/// Adds the session `{token, user_id, expires}` in one step and returns it.
/// Without the user the outcome is `NotFound`; a token that is in use is
/// refused; either way the store stays as it was.
pub fn insert_session(store: &mut Store, token: String, user_id: i32, expires: Option<i64>) -> (outcome:
    Result<Session, DbError>)
    requires
        valid_store(old(store)@),
    ensures
        valid_store(final(store)@),
        accepts_session(old(store)@, token@, user_id) ==> result_view(outcome) == Ok::<
            SessionView,
            DbError,
        >(SessionView { key: Some(token@), user_id: Some(user_id), expires })
            && final(store)@ == with_session(
            old(store)@,
            SessionView { key: Some(token@), user_id: Some(user_id), expires },
        ),
        !accepts_session(old(store)@, token@, user_id) ==> final(store)@ == old(store)@
            && outcome == Err::<Session, DbError>(session_refusal(old(store)@, user_id)),
{
    if store.find_id(user_id).is_none() {
        return Err(DbError::NotFound);
    }
    if store.find_token(token.as_str()).is_some() {
        return Err(DbError::PGError);
    }
    let row = Session { key: Some(token), user_id: Some(user_id), expires };
    let copy = row.clone();
    store.sessions.push(row);
    proof {
        let before = old(store)@;
        let after = store@;
        let session = SessionView { key: Some(token@), user_id: Some(user_id), expires };
        assert(after.sessions =~= before.sessions.push(session));
        assert(after.users =~= before.users);
        assert(after == with_session(before, session));
        lemma_with_session_valid(before, session);
    }
    Ok(copy)
}

/// Removes the session with the token `token`. Where there is none, nothing
/// changes.
pub fn remove_session_by_token(store: &mut Store, token: &str)
    requires
        valid_store(old(store)@),
    ensures
        valid_store(final(store)@),
        final(store)@ == without_token(old(store)@, token@),
{
    let ghost before = store@;
    let ghost keep = token_differs(token@);
    let mut kept: Vec<Session> = Vec::new();
    let mut i: usize = 0;
    while i < store.sessions.len()
        invariant
            store@ == before,
            keep == token_differs(token@),
            i <= store.sessions@.len(),
            session_views(kept@) == before.sessions.subrange(0, i as int).filter(keep),
        decreases store.sessions@.len() - i,
    {
        let ghost prefix = before.sessions.subrange(0, i as int);
        let ghost row = before.sessions[i as int];
        proof {
            prefix.lemma_filter_push(row, keep);
            assert(prefix.push(row) =~= before.sessions.subrange(0, i + 1));
        }
        let hit = match &store.sessions[i].key {
            Some(k) => str_eq(k.as_str(), token),
            None => false,
        };
        if !hit {
            kept.push(store.sessions[i].clone());
            assert(session_views(kept@) =~= prefix.filter(keep).push(row));
        }
        i += 1;
    }
    proof {
        assert(before.sessions.subrange(0, i as int) =~= before.sessions);
        lemma_keeping_sessions_valid(before, keep);
    }
    store.sessions = kept;
    assert(store@.users =~= before.users);
}

/// Removes every session of the user `user`, taken by its id. Where the user
/// has no id or no session, nothing changes.
pub fn remove_user_sessions(store: &mut Store, user: User)
    requires
        valid_store(old(store)@),
    ensures
        valid_store(final(store)@),
        final(store)@ == without_sessions_of(old(store)@, user@.id),
{
    let ghost before = store@;
    let ghost keep = owner_differs(user.id);
    let mut kept: Vec<Session> = Vec::new();
    let mut i: usize = 0;
    while i < store.sessions.len()
        invariant
            store@ == before,
            keep == owner_differs(user.id),
            i <= store.sessions@.len(),
            session_views(kept@) == before.sessions.subrange(0, i as int).filter(keep),
        decreases store.sessions@.len() - i,
    {
        let ghost prefix = before.sessions.subrange(0, i as int);
        let ghost row = before.sessions[i as int];
        proof {
            prefix.lemma_filter_push(row, keep);
            assert(prefix.push(row) =~= before.sessions.subrange(0, i + 1));
        }
        let hit = match (user.id, store.sessions[i].user_id) {
            (Some(owner), Some(bound)) => owner == bound,
            (Some(_), None) => false,
            (None, _) => false,
        };
        if !hit {
            kept.push(store.sessions[i].clone());
            assert(session_views(kept@) =~= prefix.filter(keep).push(row));
        }
        i += 1;
    }
    proof {
        assert(before.sessions.subrange(0, i as int) =~= before.sessions);
        lemma_keeping_sessions_valid(before, keep);
    }
    store.sessions = kept;
    assert(store@.users =~= before.users);
}

} // verus!
