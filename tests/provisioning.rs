use sf_auth::code::{code_char, generate_random_code};
use sf_auth::password::check_password;
use sf_auth::routes::admin::{create_application, create_user, panel, parse_redirect_uris};
use sf_auth::store::Database;
use sf_auth::types::{AdminCreateApplicationRequest, AdminCreateUserRequest, AuthError, Config};

fn config(enabled: bool) -> Config {
    Config {
        mongodb_uri: String::new(),
        jwt_secret: "k".to_owned(),
        listen_address: String::new(),
        admin_panel_enabled: enabled,
    }
}

#[test]
fn panel_needs_switch() {
    assert!(panel(&config(true)).is_ok());
    assert_eq!(panel(&config(false)), Err(AuthError::AdminDisabled));
}

#[test]
fn create_user_stores_hash() {
    let mut db = Database::new();
    let request = AdminCreateUserRequest {
        username: "alice".to_owned(),
        password: "correct-horse".to_owned(),
    };
    assert_eq!(
        create_user(&mut db, &config(false), &request),
        Err(AuthError::AdminDisabled)
    );
    let id = create_user(&mut db, &config(true), &request).unwrap();
    assert_eq!(id.len(), 24);
    assert!(id.chars().all(|c| c.is_ascii_digit() || ('a'..='f').contains(&c)));
    let user = db.user_by_username("alice").unwrap();
    assert_eq!(user.id, id);
    assert_ne!(user.password_hash, "correct-horse");
    assert!(check_password(&user.password_hash, "correct-horse"));
}

#[test]
fn create_application_splits_uris() {
    let mut db = Database::new();
    let request = AdminCreateApplicationRequest {
        app_name: "demo".to_owned(),
        redirect_uris: " https://a.example/cb , https://b.example/cb".to_owned(),
    };
    let app = create_application(&mut db, &config(true), &request).unwrap();
    assert_eq!(app.redirect_uris, vec!["https://a.example/cb", "https://b.example/cb"]);
    assert_eq!(app.secret.len(), 128);
    assert_eq!(app.id.len(), 24);
    let stored = db.app_by_client_id(&app.id).unwrap();
    assert_eq!(stored, &app);
    assert_eq!(
        create_application(&mut db, &config(true), &request),
        Err(AuthError::StoreError)
    );
    assert_eq!(
        create_application(&mut db, &config(false), &request),
        Err(AuthError::AdminDisabled)
    );
}

#[test]
fn redirect_list_pieces() {
    assert_eq!(parse_redirect_uris(""), vec![""]);
    assert_eq!(parse_redirect_uris("a,b"), vec!["a", "b"]);
    assert_eq!(parse_redirect_uris("a,,b,"), vec!["a", "", "b", ""]);
    assert_eq!(parse_redirect_uris("\t x \n"), vec!["x"]);
}

#[test]
fn alphabet_and_codes() {
    assert_eq!(code_char(0), 'a');
    assert_eq!(code_char(25), 'z');
    assert_eq!(code_char(26), 'A');
    assert_eq!(code_char(51), 'Z');
    assert_eq!(code_char(52), '0');
    assert_eq!(code_char(61), '9');
    let code = generate_random_code(64);
    assert_eq!(code.len(), 64);
    assert!(code.chars().all(|c| c.is_ascii_alphanumeric()));
    assert_eq!(generate_random_code(0), "");
    assert_ne!(generate_random_code(128), generate_random_code(128));
}
