use booking_auth::models::DbError;
use booking_auth::models::Session;
use booking_auth::models::User;
use booking_auth::store::add_user;
use booking_auth::store::get_user_by_id;
use booking_auth::store::get_user_by_login;
use booking_auth::store::get_user_by_token;
use booking_auth::store::get_users;
use booking_auth::store::insert_session;
use booking_auth::store::remove_session_by_token;
use booking_auth::store::remove_user_sessions;
use booking_auth::store::Store;

fn new_user(login: &str) -> User {
    User {
        id: None,
        login: Some(login.to_string()),
        name: Some("Имя".to_string()),
        password_hash: Some("digest".to_string()),
        role: None,
        score: None,
    }
}

fn store_with(logins: &[&str]) -> Store {
    let mut store = Store::new();
    for login in logins {
        add_user(&mut store, new_user(login)).unwrap();
    }
    store
}

#[test]
fn new_store_is_empty() {
    let store = Store::new();
    assert_eq!(store.user_count(), 0);
    assert_eq!(store.session_count(), 0);
    assert_eq!(get_users(&store), Ok(vec![]));
}

#[test]
fn add_user_assigns_ids_role_and_score() {
    let mut store = Store::new();
    let first = add_user(&mut store, new_user("anna")).unwrap();
    assert_eq!(
        first,
        User {
            id: Some(1),
            login: Some("anna".to_string()),
            name: Some("Имя".to_string()),
            password_hash: Some("digest".to_string()),
            role: Some(2),
            score: Some(0),
        }
    );
    let mut admin = new_user("boris");
    admin.role = Some(1);
    admin.id = Some(77);
    admin.score = Some(500);
    let second = add_user(&mut store, admin).unwrap();
    assert_eq!(second.id, Some(2));
    assert_eq!(second.role, Some(1));
    assert_eq!(second.score, Some(0));
    assert_eq!(store.user_count(), 2);
}

#[test]
fn add_user_refuses_a_taken_login() {
    let mut store = store_with(&["anna"]);
    assert_eq!(add_user(&mut store, new_user("anna")), Err(DbError::PGError));
    assert_eq!(store.user_count(), 1);
    let later = add_user(&mut store, new_user("boris")).unwrap();
    assert_eq!(later.id, Some(2));
}

#[test]
fn add_user_refuses_a_user_without_login() {
    let mut store = Store::new();
    let mut user = new_user("x");
    user.login = None;
    assert_eq!(add_user(&mut store, user), Err(DbError::PGError));
    assert_eq!(store.user_count(), 0);
}

#[test]
fn get_users_lists_in_order_of_creation() {
    let store = store_with(&["anna", "boris", "vera"]);
    let users = get_users(&store).unwrap();
    let logins: Vec<Option<String>> = users.iter().map(|u| u.login.clone()).collect();
    assert_eq!(
        logins,
        vec![Some("anna".to_string()), Some("boris".to_string()), Some("vera".to_string())]
    );
    let ids: Vec<Option<i32>> = users.iter().map(|u| u.id).collect();
    assert_eq!(ids, vec![Some(1), Some(2), Some(3)]);
}

#[test]
fn lookups_find_users_or_report_not_found() {
    let store = store_with(&["anna", "boris"]);
    assert_eq!(get_user_by_id(&store, 2).unwrap().login, Some("boris".to_string()));
    assert_eq!(get_user_by_id(&store, 3), Err(DbError::NotFound));
    assert_eq!(get_user_by_id(&store, 0), Err(DbError::NotFound));
    assert_eq!(get_user_by_login(&store, "anna").unwrap().id, Some(1));
    assert_eq!(get_user_by_login(&store, "Anna"), Err(DbError::NotFound));
    assert_eq!(get_user_by_login(&store, ""), Err(DbError::NotFound));
}

#[test]
fn insert_session_stores_and_returns_the_session() {
    let mut store = store_with(&["anna", "boris"]);
    let session = insert_session(&mut store, "tok-1".to_string(), 2, Some(1700000000)).unwrap();
    assert_eq!(
        session,
        Session { key: Some("tok-1".to_string()), user_id: Some(2), expires: Some(1700000000) }
    );
    assert_eq!(store.session_count(), 1);
    assert_eq!(get_user_by_token(&store, "tok-1").unwrap().login, Some("boris".to_string()));
}

#[test]
fn insert_session_refuses_an_unknown_user() {
    let mut store = store_with(&["anna"]);
    assert_eq!(insert_session(&mut store, "tok".to_string(), 9, None), Err(DbError::NotFound));
    assert_eq!(store.session_count(), 0);
}

#[test]
fn insert_session_refuses_a_token_in_use() {
    let mut store = store_with(&["anna", "boris"]);
    insert_session(&mut store, "tok".to_string(), 1, None).unwrap();
    assert_eq!(insert_session(&mut store, "tok".to_string(), 2, None), Err(DbError::PGError));
    assert_eq!(store.session_count(), 1);
    assert_eq!(get_user_by_token(&store, "tok").unwrap().id, Some(1));
}

#[test]
fn unknown_token_is_not_found() {
    let mut store = store_with(&["anna"]);
    insert_session(&mut store, "tok".to_string(), 1, None).unwrap();
    assert_eq!(get_user_by_token(&store, "other"), Err(DbError::NotFound));
    assert_eq!(get_user_by_token(&store, ""), Err(DbError::NotFound));
}

#[test]
fn removed_token_is_not_found() {
    let mut store = store_with(&["anna"]);
    insert_session(&mut store, "tok".to_string(), 1, None).unwrap();
    remove_session_by_token(&mut store, "tok");
    assert_eq!(get_user_by_token(&store, "tok"), Err(DbError::NotFound));
    assert_eq!(store.session_count(), 0);
}

#[test]
fn removing_a_token_twice_changes_nothing_more() {
    let mut store = store_with(&["anna"]);
    insert_session(&mut store, "a".to_string(), 1, None).unwrap();
    insert_session(&mut store, "b".to_string(), 1, None).unwrap();
    remove_session_by_token(&mut store, "a");
    remove_session_by_token(&mut store, "a");
    remove_session_by_token(&mut store, "never-issued");
    assert_eq!(store.session_count(), 1);
    assert_eq!(get_user_by_token(&store, "b").unwrap().id, Some(1));
}

#[test]
fn removing_a_token_keeps_the_others() {
    let mut store = store_with(&["anna", "boris"]);
    insert_session(&mut store, "a".to_string(), 1, None).unwrap();
    insert_session(&mut store, "b".to_string(), 2, None).unwrap();
    insert_session(&mut store, "c".to_string(), 1, None).unwrap();
    remove_session_by_token(&mut store, "b");
    assert_eq!(get_user_by_token(&store, "a").unwrap().id, Some(1));
    assert_eq!(get_user_by_token(&store, "b"), Err(DbError::NotFound));
    assert_eq!(get_user_by_token(&store, "c").unwrap().id, Some(1));
}

#[test]
fn a_removed_token_can_be_inserted_again() {
    let mut store = store_with(&["anna", "boris"]);
    insert_session(&mut store, "a".to_string(), 1, None).unwrap();
    remove_session_by_token(&mut store, "a");
    insert_session(&mut store, "a".to_string(), 2, None).unwrap();
    assert_eq!(get_user_by_token(&store, "a").unwrap().id, Some(2));
}

#[test]
fn removing_the_sessions_of_a_user_keeps_those_of_others() {
    let mut store = store_with(&["anna", "boris"]);
    insert_session(&mut store, "a1".to_string(), 1, None).unwrap();
    insert_session(&mut store, "b1".to_string(), 2, None).unwrap();
    insert_session(&mut store, "a2".to_string(), 1, Some(5)).unwrap();
    let anna = get_user_by_id(&store, 1).unwrap();
    remove_user_sessions(&mut store, anna.clone());
    assert_eq!(store.session_count(), 1);
    assert_eq!(get_user_by_token(&store, "a1"), Err(DbError::NotFound));
    assert_eq!(get_user_by_token(&store, "a2"), Err(DbError::NotFound));
    assert_eq!(get_user_by_token(&store, "b1").unwrap().id, Some(2));
    remove_user_sessions(&mut store, anna);
    assert_eq!(store.session_count(), 1);
}

#[test]
fn removing_the_sessions_of_a_user_without_id_changes_nothing() {
    let mut store = store_with(&["anna"]);
    insert_session(&mut store, "a1".to_string(), 1, None).unwrap();
    remove_user_sessions(&mut store, new_user("anna"));
    assert_eq!(store.session_count(), 1);
}

#[test]
fn an_expired_session_still_resolves() {
    // Expiry is stored but not enforced when a token is resolved: a session
    // stays good until it is removed.
    let mut store = store_with(&["anna"]);
    insert_session(&mut store, "old".to_string(), 1, Some(1)).unwrap();
    assert_eq!(get_user_by_token(&store, "old").unwrap().id, Some(1));
}

#[test]
fn clone_of_a_user_is_equal() {
    let user = new_user("anna");
    assert_eq!(user.clone(), user);
}
