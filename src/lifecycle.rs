//! Facts about the grant lifecycle that span several operations.
use vstd::prelude::*;

use crate::password::argon2_accepts;
use crate::routes::auth::{
    authenticate_post, exchange_post, expiry_after, login_check, resolve_spec, session_record,
    uri_allowed, SESSION_KEY_LEN, SESSION_LIFETIME_MINUTES,
};
use crate::code::is_code;
use crate::token::{hs256_token_of, identity_claims};
use crate::store::{
    by_code, by_session_key, find_app, find_grant, find_session, find_user, grant_with_code,
    has_session_key, lemma_unique_at, session_with_key, Database,
};
use crate::types::{AuthError, DbApplication, DbApplicationGrant, DbUser, TokenResponse};

verus! {

/// A grant code is redeemed at most once: after one exchange of `code`,
/// whatever its outcome, a second exchange of the same code fails with
/// `InvalidGrant` and leaves the store as it was.
pub proof fn exchanged_code_is_spent(
    db0: Database,
    db1: Database,
    db2: Database,
    secret1: Seq<char>,
    secret2: Seq<char>,
    code: Seq<char>,
    now1: u64,
    now2: u64,
    r1: Result<TokenResponse, AuthError>,
    r2: Result<TokenResponse, AuthError>,
)
    requires
        exchange_post(db0, db1, secret1, code, now1, r1),
        exchange_post(db1, db2, secret2, code, now2, r2),
    ensures
        r2 == Err::<TokenResponse, AuthError>(AuthError::InvalidGrant),
        db2 == db1,
{
    assert(find_grant(db1.grants(), code) is None);
}

/// Correct credentials with a redirect target outside the application's
/// allow-list give `InvalidClientConfig`, never `InvalidCredentials`, and
/// store no grant.
pub proof fn foreign_redirect_is_config_error(
    old: Database,
    new: Database,
    username: Seq<char>,
    password: Seq<char>,
    client_id: Seq<char>,
    redirect_uri: Seq<char>,
    now: u64,
    r: Result<DbApplicationGrant, AuthError>,
    user: DbUser,
    app: DbApplication,
)
    requires
        authenticate_post(old, new, username, password, client_id, redirect_uri, now, r),
        find_user(old.users(), username) == Some(user),
        argon2_accepts(user.password_hash@, password),
        find_app(old.apps(), client_id) == Some(app),
        !uri_allowed(app.redirect_uris@, redirect_uri),
    ensures
        r == Err::<DbApplicationGrant, AuthError>(AuthError::InvalidClientConfig),
        new == old,
{
}

/// A session opened by a successful exchange resolves, until it expires,
/// to the user of the grant that was redeemed.
pub proof fn exchanged_session_resolves(
    db0: Database,
    db1: Database,
    secret: Seq<char>,
    code: Seq<char>,
    now: u64,
    response: TokenResponse,
    grant: DbApplicationGrant,
    later: u64,
)
    requires
        exchange_post(db0, db1, secret, code, now, Ok(response)),
        find_grant(db0.grants(), code) == Some(grant),
        later < expiry_after(now, SESSION_LIFETIME_MINUTES),
    ensures
        resolve_spec(db1, response.access_token@, later) == Ok::<Seq<char>, AuthError>(
            grant.user_id@,
        ),
{
    let sessions = db1.sessions();
    let key = response.access_token@;
    let n = db0.sessions().len() as int;
    let session = session_record(grant, response.access_token, response.id_token, now);
    assert(sessions[n] == session);
    assert(session_with_key(sessions, n, key));
    let k = choose|k: int| session_with_key(sessions, k, key);
    lemma_unique_at(sessions, by_session_key(), k, n);
    assert(find_session(sessions, key) == Some(session));
}

/// A grant issued by a successful login can be redeemed within its
/// lifetime: unless signing fails or the drawn bearer key is already taken,
/// the exchange succeeds, and until it expires its session resolves to the
/// user who logged in.
pub proof fn issued_grant_redeems(
    db0: Database,
    db1: Database,
    db2: Database,
    username: Seq<char>,
    password: Seq<char>,
    client_id: Seq<char>,
    redirect_uri: Seq<char>,
    now: u64,
    grant: DbApplicationGrant,
    secret: Seq<char>,
    now2: u64,
    r: Result<TokenResponse, AuthError>,
    later: u64,
)
    requires
        authenticate_post(db0, db1, username, password, client_id, redirect_uri, now, Ok(grant)),
        exchange_post(db1, db2, secret, grant.code@, now2, r),
        now2 < grant.expires,
        hs256_token_of(secret, identity_claims(grant.user_id@)) is Some,
        later < expiry_after(now2, SESSION_LIFETIME_MINUTES),
    ensures
        login_check(db0, username, password, client_id, redirect_uri) == Ok::<Seq<char>, AuthError>(
            grant.user_id@,
        ),
        r is Ok || (r == Err::<TokenResponse, AuthError>(AuthError::StoreError) && exists|
            key: Seq<char>,
        | key.len() == SESSION_KEY_LEN && is_code(key) && has_session_key(db1.sessions(), key)),
        r matches Ok(response) ==> resolve_spec(db2, response.access_token@, later) == Ok::<
            Seq<char>,
            AuthError,
        >(grant.user_id@),
{
    let grants = db1.grants();
    let n = db0.grants().len() as int;
    assert(grants[n] == grant);
    assert(grant_with_code(grants, n, grant.code@));
    let k = choose|k: int| grant_with_code(grants, k, grant.code@);
    lemma_unique_at(grants, by_code(), k, n);
    assert(find_grant(grants, grant.code@) == Some(grant));
    if let Ok(response) = r {
        exchanged_session_resolves(db1, db2, secret, grant.code@, now2, response, grant, later);
    }
}

} // verus!
