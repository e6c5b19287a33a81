use sf_auth::password::hash_password;
use sf_auth::routes::auth::{
    authenticate, bearer_token, error_hash_map, exchange, login, resolve, token, user_info,
    GRANT_CODE_LEN, GRANT_LIFETIME_MINUTES, SESSION_KEY_LEN, SESSION_LIFETIME_MINUTES,
};
use sf_auth::routes::auth::auth;
use sf_auth::store::Database;
use sf_auth::types::{
    AuthError, AuthRequest, Config, DbApplication, DbUser, LoginRequest, TokenRequest,
};

const ALICE_ID: &str = "64b7f0c2a1e4d5f6a7b8c9d0";
const NOW: u64 = 1_000_000;

fn setup() -> Database {
    let mut db = Database::new();
    db.insert_user(DbUser {
        id: ALICE_ID.to_owned(),
        username: "alice".to_owned(),
        password_hash: hash_password("correct-horse").unwrap(),
    })
    .unwrap();
    db.insert_application(DbApplication {
        id: "client-42".to_owned(),
        name: "demo".to_owned(),
        secret: "s3cr3t".to_owned(),
        redirect_uris: vec!["https://app.example/cb".to_owned()],
    })
    .unwrap();
    db
}

fn config() -> Config {
    Config {
        mongodb_uri: String::new(),
        jwt_secret: "server-secret".to_owned(),
        listen_address: "0.0.0.0:8080".to_owned(),
        admin_panel_enabled: false,
    }
}

fn is_code(s: &str) -> bool {
    s.chars().all(|c| c.is_ascii_alphanumeric())
}

#[test]
fn full_flow_alice() {
    let mut db = setup();
    let grant = authenticate(
        &mut db,
        "alice",
        "correct-horse",
        "client-42",
        "https://app.example/cb",
        NOW,
    )
    .unwrap();
    assert_eq!(grant.user_id, ALICE_ID);
    assert_eq!(grant.client_id, "client-42");
    assert_eq!(grant.code.chars().count(), GRANT_CODE_LEN);
    assert!(is_code(&grant.code));
    assert_eq!(grant.expires, NOW + GRANT_LIFETIME_MINUTES);
    assert!(db.get_application_grant(&grant.code).is_some());

    let response = exchange(&mut db, &grant.code, "server-secret", NOW + 1).unwrap();
    assert!(!response.access_token.is_empty());
    assert_eq!(response.access_token.chars().count(), SESSION_KEY_LEN);
    assert!(is_code(&response.access_token));
    assert_eq!(response.token_type, "Bearer");
    assert_eq!(response.expires_in, 43200);
    assert_eq!(response.id_token.split('.').count(), 3);

    assert_eq!(
        exchange(&mut db, &grant.code, "server-secret", NOW + 2),
        Err(AuthError::InvalidGrant)
    );

    let info = resolve(&db, &response.access_token, NOW + 3).unwrap();
    assert_eq!(info.sub, ALICE_ID);
    assert_eq!(resolve(&db, "garbage", NOW + 3), Err(AuthError::InvalidSession));
}

#[test]
fn foreign_redirect_is_rejected_without_grant() {
    let mut db = setup();
    let before = db.clone();
    let r = authenticate(
        &mut db,
        "alice",
        "correct-horse",
        "client-42",
        "https://evil.example",
        NOW,
    );
    assert_eq!(r, Err(AuthError::InvalidClientConfig));
    assert_eq!(db, before);
}

#[test]
fn wrong_password_and_unknown_user() {
    let mut db = setup();
    assert_eq!(
        authenticate(&mut db, "alice", "correct-horsf", "client-42", "https://app.example/cb", NOW),
        Err(AuthError::InvalidCredentials)
    );
    assert_eq!(
        authenticate(&mut db, "bob", "correct-horse", "client-42", "https://app.example/cb", NOW),
        Err(AuthError::InvalidCredentials)
    );
}

#[test]
fn unknown_client_is_config_error() {
    let mut db = setup();
    assert_eq!(
        authenticate(&mut db, "alice", "correct-horse", "client-43", "https://app.example/cb", NOW),
        Err(AuthError::InvalidClientConfig)
    );
}

#[test]
fn redirect_match_is_exact() {
    let mut db = setup();
    assert_eq!(
        authenticate(&mut db, "alice", "correct-horse", "client-42", "https://app.example/cb/", NOW),
        Err(AuthError::InvalidClientConfig)
    );
}

#[test]
fn unknown_code_is_invalid_grant() {
    let mut db = setup();
    assert_eq!(
        exchange(&mut db, "no-such-code", "server-secret", NOW),
        Err(AuthError::InvalidGrant)
    );
}

#[test]
fn expired_grant_is_refused_and_spent() {
    let mut db = setup();
    let grant = authenticate(&mut db, "alice", "correct-horse", "client-42", "https://app.example/cb", NOW)
        .unwrap();
    assert_eq!(
        exchange(&mut db, &grant.code, "server-secret", NOW + GRANT_LIFETIME_MINUTES),
        Err(AuthError::InvalidGrant)
    );
    assert!(db.get_application_grant(&grant.code).is_none());
}

#[test]
fn session_expires() {
    let mut db = setup();
    let grant = authenticate(&mut db, "alice", "correct-horse", "client-42", "https://app.example/cb", NOW)
        .unwrap();
    let response = exchange(&mut db, &grant.code, "server-secret", NOW).unwrap();
    let last = NOW + SESSION_LIFETIME_MINUTES - 1;
    assert_eq!(resolve(&db, &response.access_token, last).unwrap().sub, ALICE_ID);
    assert_eq!(
        resolve(&db, &response.access_token, last + 1),
        Err(AuthError::InvalidSession)
    );
}

#[test]
fn login_redirects() {
    let mut db = setup();
    let mut request = LoginRequest {
        username: "alice".to_owned(),
        password: "correct-horse".to_owned(),
        redirect_uri: "https://app.example/cb".to_owned(),
        client_id: "client-42".to_owned(),
    };
    let location = login(&mut db, &request, NOW);
    let prefix = "https://app.example/cb?code=";
    assert!(location.starts_with(prefix));
    let code = &location[prefix.len()..];
    assert_eq!(code.len(), GRANT_CODE_LEN);
    assert!(db.get_application_grant(code).is_some());

    request.password = "nope".to_owned();
    assert_eq!(
        login(&mut db, &request, NOW),
        "/auth?client_id=client-42&redirect_uri=https://app.example/cb&invalid_creds=1"
    );
    request.password = "correct-horse".to_owned();
    request.redirect_uri = "https://evil.example".to_owned();
    assert_eq!(
        login(&mut db, &request, NOW),
        "/auth?client_id=client-42&redirect_uri=https://evil.example&invalid_config=1"
    );
}

#[test]
fn token_endpoint_uses_configured_secret() {
    let mut db = setup();
    let grant = authenticate(&mut db, "alice", "correct-horse", "client-42", "https://app.example/cb", NOW)
        .unwrap();
    let request = TokenRequest {
        grant_type: "authorization_code".to_owned(),
        code: grant.code.clone(),
        redirect_uri: "https://app.example/cb".to_owned(),
    };
    let first = token(&mut db, &request, &config(), NOW).unwrap();
    let expected = sf_auth::token::sign_identity_token("server-secret", ALICE_ID).unwrap();
    assert_eq!(first.id_token, expected);
    assert_eq!(token(&mut db, &request, &config(), NOW), Err(AuthError::InvalidGrant));
}

#[test]
fn user_info_reads_bearer_header() {
    let mut db = setup();
    let grant = authenticate(&mut db, "alice", "correct-horse", "client-42", "https://app.example/cb", NOW)
        .unwrap();
    let response = exchange(&mut db, &grant.code, "server-secret", NOW).unwrap();
    let header = format!("Bearer {}", response.access_token);
    assert_eq!(user_info(&db, Some(&header), NOW).unwrap().sub, ALICE_ID);
    let with_extra = format!("Bearer {} extra", response.access_token);
    assert_eq!(user_info(&db, Some(&with_extra), NOW).unwrap().sub, ALICE_ID);
    assert_eq!(user_info(&db, None, NOW), Err(AuthError::InvalidRequest));
    assert_eq!(
        user_info(&db, Some(&format!("Basic {}", response.access_token)), NOW),
        Err(AuthError::InvalidRequest)
    );
    assert_eq!(
        user_info(&db, Some("Bearer garbage"), NOW),
        Err(AuthError::InvalidSession)
    );
}

#[test]
fn bearer_header_shapes() {
    assert_eq!(bearer_token("Bearer abc"), Some("abc"));
    assert_eq!(bearer_token("Bearer abc def"), Some("abc"));
    assert_eq!(bearer_token("Bearer "), Some(""));
    assert_eq!(bearer_token("Bearer"), None);
    assert_eq!(bearer_token("bearer abc"), None);
    assert_eq!(bearer_token(""), None);
}

#[test]
fn auth_prompt_echoes_parameters() {
    let t = auth(&AuthRequest {
        redirect_uri: "https://app.example/cb".to_owned(),
        client_id: "client-42".to_owned(),
    });
    assert_eq!(t.redirect_uri, "https://app.example/cb");
    assert_eq!(t.client_id, "client-42");
}

#[test]
fn error_body_has_one_entry() {
    let body = error_hash_map("No such grant");
    assert_eq!(body, vec![("error".to_owned(), "No such grant".to_owned())]);
}
