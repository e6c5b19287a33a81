use sf_auth::store::Database;
use sf_auth::types::{AuthError, DbApplication, DbApplicationGrant, DbSession, DbUser};

fn user(id: &str, name: &str) -> DbUser {
    DbUser { id: id.to_owned(), username: name.to_owned(), password_hash: "h".to_owned() }
}

fn app(id: &str, name: &str) -> DbApplication {
    DbApplication {
        id: id.to_owned(),
        name: name.to_owned(),
        secret: "s".to_owned(),
        redirect_uris: vec![],
    }
}

fn grant(code: &str) -> DbApplicationGrant {
    DbApplicationGrant {
        client_id: "c".to_owned(),
        code: code.to_owned(),
        user_id: "u".to_owned(),
        expires: 10,
    }
}

fn session(key: &str) -> DbSession {
    DbSession {
        user_id: "u".to_owned(),
        client_id: "c".to_owned(),
        expires: 10,
        session_key: key.to_owned(),
        id_token: "t".to_owned(),
    }
}

#[test]
fn users_are_unique_by_name_and_id() {
    let mut db = Database::new();
    assert_eq!(db.insert_user(user("1", "alice")), Ok(()));
    assert_eq!(db.insert_user(user("2", "alice")), Err(AuthError::StoreError));
    assert_eq!(db.insert_user(user("1", "bob")), Err(AuthError::StoreError));
    assert_eq!(db.insert_user(user("2", "bob")), Ok(()));
    assert_eq!(db.user_by_username("alice").unwrap().id, "1");
    assert_eq!(db.user_by_username("bob").unwrap().id, "2");
    assert!(db.user_by_username("carol").is_none());
}

#[test]
fn applications_are_unique_by_id_and_name() {
    let mut db = Database::new();
    assert_eq!(db.insert_application(app("a", "one")), Ok(()));
    assert_eq!(db.insert_application(app("a", "two")), Err(AuthError::StoreError));
    assert_eq!(db.insert_application(app("b", "one")), Err(AuthError::StoreError));
    assert_eq!(db.app_by_name("one").unwrap().id, "a");
    assert_eq!(db.app_by_client_id("a").unwrap().name, "one");
    assert!(db.app_by_client_id("b").is_none());
}

#[test]
fn grants_are_taken_once() {
    let mut db = Database::new();
    assert_eq!(db.insert_application_grant(grant("x")), Ok(()));
    assert_eq!(db.insert_application_grant(grant("x")), Err(AuthError::StoreError));
    assert_eq!(db.insert_application_grant(grant("y")), Ok(()));
    assert_eq!(db.take_application_grant("x"), Some(grant("x")));
    assert_eq!(db.take_application_grant("x"), None);
    assert_eq!(db.get_application_grant("y"), Some(&grant("y")));
    db.remove_application_grant("y");
    assert!(db.get_application_grant("y").is_none());
}

#[test]
fn sessions_are_unique_by_key() {
    let mut db = Database::new();
    assert_eq!(db.insert_session(session("k")), Ok(()));
    assert_eq!(db.insert_session(session("k")), Err(AuthError::StoreError));
    assert_eq!(db.session_from_key("k"), Some(&session("k")));
    assert!(db.session_from_key("j").is_none());
}

#[test]
fn taking_a_grant_keeps_the_others() {
    let mut db = Database::new();
    for code in ["x", "y", "z"] {
        assert_eq!(db.insert_application_grant(grant(code)), Ok(()));
    }
    assert_eq!(db.take_application_grant("y"), Some(grant("y")));
    assert_eq!(db.get_application_grant("x"), Some(&grant("x")));
    assert_eq!(db.get_application_grant("z"), Some(&grant("z")));
    let before = db.clone();
    db.remove_application_grant("y");
    assert_eq!(db, before);
}
