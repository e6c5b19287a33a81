//! Authorization-code grant: issuing grants, exchanging them for sessions,
//! and resolving bearer keys.
use vstd::prelude::*;

use crate::code::{generate_random_code, is_code};
use crate::password::{argon2_accepts, check_password};
use crate::store::{
    find_app, find_grant, find_session, find_user, has_code, has_session_key, Database,
};
use crate::token::{hs256_token_of, identity_claims, sign_identity_token};
use crate::types::{
    AuthError, AuthRequest, AuthTemplate, Config, DbApplicationGrant, DbSession, LoginRequest,
    TokenRequest, TokenResponse, UserInfoResponse,
};

verus! {

/// Length of a grant code.
pub const GRANT_CODE_LEN: usize = 128;

/// Length of a bearer session key.
pub const SESSION_KEY_LEN: usize = 512;

/// Minutes during which a grant code can be exchanged.
pub const GRANT_LIFETIME_MINUTES: u64 = 10;

/// Minutes during which a session is accepted (thirty days).
pub const SESSION_LIFETIME_MINUTES: u64 = 43200;

/// `now + lifetime`, held at `u64::MAX`.
pub open spec fn expiry_after(now: u64, lifetime: u64) -> u64 {
    if now as int + lifetime as int > u64::MAX as int {
        u64::MAX
    } else {
        (now + lifetime) as u64
    }
}

fn add_lifetime(now: u64, lifetime: u64) -> (r: u64)
    ensures
        r == expiry_after(now, lifetime),
{
    if now > u64::MAX - lifetime {
        u64::MAX
    } else {
        now + lifetime
    }
}

/// `uri` is one of `uris`, character for character.
pub open spec fn uri_allowed(uris: Seq<String>, uri: Seq<char>) -> bool {
    exists|i: int| 0 <= i < uris.len() && (#[trigger] uris[i])@ == uri
}

fn uri_listed(uris: &Vec<String>, uri: &str) -> (r: bool)
    ensures
        r == uri_allowed(uris@, uri@),
{
    let wanted = uri.to_owned();
    let mut i: usize = 0;
    while i < uris.len()
        invariant
            i <= uris@.len(),
            wanted@ == uri@,
            forall|j: int| 0 <= j < i ==> (#[trigger] uris@[j])@ != uri@,
        decreases uris@.len() - i,
    {
        if uris[i] == wanted {
            return true;
        }
        i = i + 1;
    }
    false
}

/// What the checks before issuing a grant decide: the user's id, or why
/// no grant is issued.
pub open spec fn login_check(
    db: Database,
    username: Seq<char>,
    password: Seq<char>,
    client_id: Seq<char>,
    redirect_uri: Seq<char>,
) -> Result<Seq<char>, AuthError> {
    match find_user(db.users(), username) {
        None => Err(AuthError::InvalidCredentials),
        Some(user) => if !argon2_accepts(user.password_hash@, password) {
            Err(AuthError::InvalidCredentials)
        } else {
            match find_app(db.apps(), client_id) {
                None => Err(AuthError::InvalidClientConfig),
                Some(app) => if !uri_allowed(app.redirect_uris@, redirect_uri) {
                    Err(AuthError::InvalidClientConfig)
                } else {
                    Ok(user.id@)
                },
            }
        },
    }
}

/// `new` is `old` with `grant` stored in addition.
pub open spec fn grant_stored(old: Database, new: Database, grant: DbApplicationGrant) -> bool {
    &&& new.grants() == old.grants().push(grant)
    &&& new.users() == old.users()
    &&& new.apps() == old.apps()
    &&& new.sessions() == old.sessions()
}

/// What `authenticate` does, from the store before to the store after.
pub open spec fn authenticate_post(
    old: Database,
    new: Database,
    username: Seq<char>,
    password: Seq<char>,
    client_id: Seq<char>,
    redirect_uri: Seq<char>,
    now: u64,
    r: Result<DbApplicationGrant, AuthError>,
) -> bool {
    &&& new.wf()
    &&& match login_check(old, username, password, client_id, redirect_uri) {
        Err(e) => r == Err::<DbApplicationGrant, AuthError>(e) && new == old,
        Ok(user_id) => match r {
            Ok(g) => {
                &&& g.user_id@ == user_id
                &&& g.client_id@ == client_id
                &&& g.code@.len() == GRANT_CODE_LEN
                &&& is_code(g.code@)
                &&& g.expires == expiry_after(now, GRANT_LIFETIME_MINUTES)
                &&& grant_stored(old, new, g)
            },
            Err(e) => {
                &&& e == AuthError::StoreError
                &&& new == old
                &&& exists|code: Seq<char>|
                    code.len() == GRANT_CODE_LEN && is_code(code) && has_code(old.grants(), code)
            },
        },
    }
}

/// The prompt for credentials echoes the client and its redirect target.
pub fn auth(request: &AuthRequest) -> (r: AuthTemplate)
    ensures
        r.redirect_uri@ == request.redirect_uri@,
        r.client_id@ == request.client_id@,
{
    AuthTemplate {
        redirect_uri: request.redirect_uri.clone(),
        client_id: request.client_id.clone(),
    }
}

/// Stores a grant of `code` to `user_id` for `client_id`, live until
/// `GRANT_LIFETIME_MINUTES` after `now`; fails if the code is taken.
pub fn issue_grant(
    db: &mut Database,
    user_id: String,
    client_id: String,
    code: String,
    now: u64,
) -> (r: Result<DbApplicationGrant, AuthError>)
    requires
        old(db).wf(),
    ensures
        final(db).wf(),
        r is Ok <==> !has_code(old(db).grants(), code@),
        r matches Ok(g) ==> g.user_id == user_id && g.client_id == client_id && g.code == code
            && g.expires == expiry_after(now, GRANT_LIFETIME_MINUTES) && grant_stored(
            *old(db),
            *final(db),
            g,
        ),
        r is Err ==> r == Err::<DbApplicationGrant, AuthError>(AuthError::StoreError) && *final(db)
            == *old(db),
{
    let expires = add_lifetime(now, GRANT_LIFETIME_MINUTES);
    let grant = DbApplicationGrant {
        client_id: client_id.clone(),
        code: code.clone(),
        user_id: user_id.clone(),
        expires,
    };
    let stored = DbApplicationGrant { client_id, code, user_id, expires };
    match db.insert_application_grant(stored) {
        Ok(()) => Ok(grant),
        Err(e) => Err(e),
    }
}

/// Checks the user's credentials and the client's redirect target, then
/// issues a fresh grant code for them.
pub fn authenticate(
    db: &mut Database,
    username: &str,
    password: &str,
    client_id: &str,
    redirect_uri: &str,
    now: u64,
) -> (r: Result<DbApplicationGrant, AuthError>)
    requires
        old(db).wf(),
    ensures
        authenticate_post(
            *old(db),
            *final(db),
            username@,
            password@,
            client_id@,
            redirect_uri@,
            now,
            r,
        ),
{
    let user_id = match db.user_by_username(username) {
        None => return Err(AuthError::InvalidCredentials),
        Some(user) => {
            if !check_password(user.password_hash.as_str(), password) {
                return Err(AuthError::InvalidCredentials);
            }
            user.id.clone()
        },
    };
    match db.app_by_client_id(client_id) {
        None => return Err(AuthError::InvalidClientConfig),
        Some(app) => {
            if !uri_listed(&app.redirect_uris, redirect_uri) {
                return Err(AuthError::InvalidClientConfig);
            }
        },
    }
    let code = generate_random_code(GRANT_CODE_LEN);
    let ghost code_view = code@;
    let r = issue_grant(db, user_id, client_id.to_owned(), code, now);
    proof {
        if r is Err {
            assert(has_code(db.grants(), code_view));
        }
    }
    r
}

/// The login prompt again, with `flag` saying what went wrong.
pub open spec fn prompt_location(client_id: Seq<char>, redirect_uri: Seq<char>, flag: Seq<char>) -> Seq<char> {
    "/auth?client_id="@ + client_id + "&redirect_uri="@ + redirect_uri + flag
}

/// Where the user agent is sent after a login attempt that ended in `r`.
pub open spec fn login_location(
    client_id: Seq<char>,
    redirect_uri: Seq<char>,
    r: Result<DbApplicationGrant, AuthError>,
) -> Seq<char> {
    match r {
        Ok(g) => redirect_uri + "?code="@ + g.code@,
        Err(AuthError::InvalidCredentials) => prompt_location(
            client_id,
            redirect_uri,
            "&invalid_creds=1"@,
        ),
        Err(_) => prompt_location(client_id, redirect_uri, "&invalid_config=1"@),
    }
}

fn prompt_redirect(client_id: &str, redirect_uri: &str, flag: &str) -> (r: String)
    ensures
        r@ == prompt_location(client_id@, redirect_uri@, flag@),
{
    let mut location = "/auth?client_id=".to_owned();
    location.append(client_id);
    location.append("&redirect_uri=");
    location.append(redirect_uri);
    location.append(flag);
    location
}

/// Handles a submitted login form: authenticates, issues a grant, and
/// returns the location the user agent is redirected to.
pub fn login(db: &mut Database, request: &LoginRequest, now: u64) -> (r: String)
    requires
        old(db).wf(),
    ensures
        exists|outcome: Result<DbApplicationGrant, AuthError>|
            authenticate_post(
                *old(db),
                *final(db),
                request.username@,
                request.password@,
                request.client_id@,
                request.redirect_uri@,
                now,
                outcome,
            ) && r@ == login_location(request.client_id@, request.redirect_uri@, outcome),
{
    let ghost before = *db;
    let outcome = authenticate(
        db,
        request.username.as_str(),
        request.password.as_str(),
        request.client_id.as_str(),
        request.redirect_uri.as_str(),
        now,
    );
    let location = match &outcome {
        Ok(grant) => {
            let mut location = request.redirect_uri.clone();
            location.append("?code=");
            location.append(grant.code.as_str());
            location
        },
        Err(AuthError::InvalidCredentials) => prompt_redirect(
            request.client_id.as_str(),
            request.redirect_uri.as_str(),
            "&invalid_creds=1",
        ),
        Err(_) => prompt_redirect(
            request.client_id.as_str(),
            request.redirect_uri.as_str(),
            "&invalid_config=1",
        ),
    };
    assert(location@ == login_location(request.client_id@, request.redirect_uri@, outcome));
    assert(authenticate_post(
        before,
        *db,
        request.username@,
        request.password@,
        request.client_id@,
        request.redirect_uri@,
        now,
        outcome,
    ));
    location
}

/// The session that redeeming `grant` at minute `now` opens.
pub open spec fn session_record(
    grant: DbApplicationGrant,
    session_key: String,
    id_token: String,
    now: u64,
) -> DbSession {
    DbSession {
        user_id: grant.user_id,
        client_id: grant.client_id,
        expires: expiry_after(now, SESSION_LIFETIME_MINUTES),
        session_key,
        id_token,
    }
}

/// `new` is `old` with `session` stored in addition.
pub open spec fn session_stored(old: Database, new: Database, session: DbSession) -> bool {
    &&& new.sessions() == old.sessions().push(session)
    &&& new.users() == old.users()
    &&& new.apps() == old.apps()
    &&& new.grants() == old.grants()
}

/// `new` is `old` without the grant that carries `code`.
pub open spec fn grant_spent(old: Database, new: Database, code: Seq<char>) -> bool {
    &&& !has_code(new.grants(), code)
    &&& forall|c: Seq<char>|
        c != code ==> #[trigger] find_grant(new.grants(), c) == find_grant(old.grants(), c)
    &&& new.users() == old.users()
    &&& new.apps() == old.apps()
}

/// Stores the session that redeeming `grant` opens under `session_key`, and
/// returns the token response for it; fails if the key is taken.
pub fn open_session(
    db: &mut Database,
    grant: &DbApplicationGrant,
    id_token: String,
    session_key: String,
    now: u64,
) -> (r: Result<TokenResponse, AuthError>)
    requires
        old(db).wf(),
    ensures
        final(db).wf(),
        r is Ok <==> !has_session_key(old(db).sessions(), session_key@),
        r matches Ok(resp) ==> {
            &&& resp.access_token == session_key
            &&& resp.id_token == id_token
            &&& resp.token_type@ == "Bearer"@
            &&& resp.expires_in == SESSION_LIFETIME_MINUTES
            &&& session_stored(
                *old(db),
                *final(db),
                session_record(*grant, session_key, id_token, now),
            )
        },
        r is Err ==> r == Err::<TokenResponse, AuthError>(AuthError::StoreError) && *final(db)
            == *old(db),
{
    let session = DbSession {
        user_id: grant.user_id.clone(),
        client_id: grant.client_id.clone(),
        expires: add_lifetime(now, SESSION_LIFETIME_MINUTES),
        session_key: session_key.clone(),
        id_token: id_token.clone(),
    };
    match db.insert_session(session) {
        Ok(()) => Ok(
            TokenResponse {
                access_token: session_key,
                token_type: "Bearer".to_owned(),
                id_token,
                expires_in: SESSION_LIFETIME_MINUTES,
            },
        ),
        Err(e) => Err(e),
    }
}

/// What `exchange` does, from the store before to the store after.
pub open spec fn exchange_post(
    old: Database,
    new: Database,
    secret: Seq<char>,
    code: Seq<char>,
    now: u64,
    r: Result<TokenResponse, AuthError>,
) -> bool {
    &&& new.wf()
    &&& match find_grant(old.grants(), code) {
        None => r == Err::<TokenResponse, AuthError>(AuthError::InvalidGrant) && new == old,
        Some(g) => {
            &&& grant_spent(old, new, code)
            &&& if now >= g.expires {
                r == Err::<TokenResponse, AuthError>(AuthError::InvalidGrant) && new.sessions()
                    == old.sessions()
            } else {
                match hs256_token_of(secret, identity_claims(g.user_id@)) {
                    None => r == Err::<TokenResponse, AuthError>(AuthError::SigningError)
                        && new.sessions() == old.sessions(),
                    Some(id_token) => match r {
                        Ok(resp) => {
                            &&& resp.id_token@ == id_token
                            &&& resp.access_token@.len() == SESSION_KEY_LEN
                            &&& is_code(resp.access_token@)
                            &&& resp.token_type@ == "Bearer"@
                            &&& resp.expires_in == SESSION_LIFETIME_MINUTES
                            &&& new.sessions() == old.sessions().push(
                                session_record(g, resp.access_token, resp.id_token, now),
                            )
                        },
                        Err(e) => {
                            &&& e == AuthError::StoreError
                            &&& new.sessions() == old.sessions()
                            &&& exists|key: Seq<char>|
                                key.len() == SESSION_KEY_LEN && is_code(key) && has_session_key(
                                    old.sessions(),
                                    key,
                                )
                        },
                    },
                }
            }
        },
    }
}

/// Redeems the grant code `code` at minute `now`: the grant is removed
/// whatever follows, an identity token is signed with `secret`, and a new
/// session is opened under a fresh bearer key.
pub fn exchange(db: &mut Database, code: &str, secret: &str, now: u64) -> (r: Result<
    TokenResponse,
    AuthError,
>)
    requires
        old(db).wf(),
    ensures
        exchange_post(*old(db), *final(db), secret@, code@, now, r),
{
    let grant = match db.take_application_grant(code) {
        None => return Err(AuthError::InvalidGrant),
        Some(g) => g,
    };
    if now >= grant.expires {
        return Err(AuthError::InvalidGrant);
    }
    let id_token = match sign_identity_token(secret, grant.user_id.as_str()) {
        None => return Err(AuthError::SigningError),
        Some(t) => t,
    };
    let session_key = generate_random_code(SESSION_KEY_LEN);
    let ghost key_view = session_key@;
    let r = open_session(db, &grant, id_token, session_key, now);
    proof {
        if r is Err {
            assert(has_session_key(db.sessions(), key_view));
        }
    }
    r
}

/// The token endpoint: redeems the request's grant code.
pub fn token(db: &mut Database, request: &TokenRequest, config: &Config, now: u64) -> (r: Result<
    TokenResponse,
    AuthError,
>)
    requires
        old(db).wf(),
    ensures
        exchange_post(*old(db), *final(db), config.jwt_secret@, request.code@, now, r),
{
    exchange(db, request.code.as_str(), config.jwt_secret.as_str(), now)
}

/// Who the bearer key `key` identifies at minute `now`: the session's user,
/// or `InvalidSession` where no session carries the key or it has expired.
pub open spec fn resolve_spec(db: Database, key: Seq<char>, now: u64) -> Result<
    Seq<char>,
    AuthError,
> {
    match find_session(db.sessions(), key) {
        Some(session) => if now < session.expires {
            Ok(session.user_id@)
        } else {
            Err(AuthError::InvalidSession)
        },
        None => Err(AuthError::InvalidSession),
    }
}

/// The identity behind the bearer key `bearer_token` at minute `now`.
pub fn resolve(db: &Database, bearer_token: &str, now: u64) -> (r: Result<
    UserInfoResponse,
    AuthError,
>)
    requires
        db.wf(),
    ensures
        match resolve_spec(*db, bearer_token@, now) {
            Ok(user_id) => r matches Ok(info) && info.sub@ == user_id,
            Err(e) => r == Err::<UserInfoResponse, AuthError>(e),
        },
{
    match db.session_from_key(bearer_token) {
        None => Err(AuthError::InvalidSession),
        Some(session) => {
            if now < session.expires {
                Ok(UserInfoResponse { sub: session.user_id.clone() })
            } else {
                Err(AuthError::InvalidSession)
            }
        },
    }
}

/// `e` ends the word that follows `"Bearer "` in `h`.
pub open spec fn bearer_end(h: Seq<char>, e: int) -> bool {
    &&& 7 <= e <= h.len()
    &&& (e == h.len() || h[e] == ' ')
    &&& forall|j: int| 7 <= j < e ==> h[j] != ' '
}

/// The bearer key of an authorization header `Bearer <key>[ ...]`: the
/// text after `"Bearer "` up to the next space.
pub open spec fn bearer_of(h: Seq<char>) -> Option<Seq<char>> {
    if h.len() >= 7 && h.subrange(0, 7) == "Bearer "@ {
        Some(h.subrange(7, choose|e: int| bearer_end(h, e)))
    } else {
        None
    }
}

/// The bearer key of an authorization header, if it has the right shape.
pub fn bearer_token(header: &str) -> (r: Option<&str>)
    ensures
        match r {
            Some(k) => bearer_of(header@) == Some(k@),
            None => bearer_of(header@) is None,
        },
{
    let len = header.unicode_len();
    if len < 7 {
        return None;
    }
    let scheme = header.substring_char(0, 7).to_owned();
    if scheme != "Bearer ".to_owned() {
        return None;
    }
    let mut e: usize = 7;
    while e < len && header.get_char(e) != ' '
        invariant
            7 <= e <= len,
            len == header@.len(),
            forall|j: int| 7 <= j < e ==> header@[j] != ' ',
        decreases len - e,
    {
        e = e + 1;
    }
    proof {
        let h = header@;
        assert(bearer_end(h, e as int));
        let c = choose|c: int| bearer_end(h, c);
        if c < e {
            assert(h[c] != ' ');
        }
        if e < c {
            assert(h[e as int] != ' ');
        }
    }
    Some(header.substring_char(7, e))
}

/// The user-info endpoint: the identity behind the header
/// `Authorization: Bearer <key>` at minute `now`.
pub fn user_info(db: &Database, authorization: Option<&str>, now: u64) -> (r: Result<
    UserInfoResponse,
    AuthError,
>)
    requires
        db.wf(),
    ensures
        match authorization {
            None => r == Err::<UserInfoResponse, AuthError>(AuthError::InvalidRequest),
            Some(h) => match bearer_of(h@) {
                None => r == Err::<UserInfoResponse, AuthError>(AuthError::InvalidRequest),
                Some(key) => match resolve_spec(*db, key, now) {
                    Ok(user_id) => r matches Ok(info) && info.sub@ == user_id,
                    Err(e) => r == Err::<UserInfoResponse, AuthError>(e),
                },
            },
        },
{
    let header = match authorization {
        None => return Err(AuthError::InvalidRequest),
        Some(h) => h,
    };
    match bearer_token(header) {
        None => Err(AuthError::InvalidRequest),
        Some(key) => resolve(db, key, now),
    }
}

/// The JSON body of an error response: one `error` entry holding `message`.
pub fn error_hash_map(message: &str) -> (r: Vec<(String, String)>)
    ensures
        r@.len() == 1,
        r@[0].0@ == "error"@,
        r@[0].1@ == message@,
{
    vec![("error".to_owned(), message.to_owned())]
}

} // verus!
