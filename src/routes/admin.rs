//! Administration: provisioning users and client applications.
use vstd::prelude::*;

use crate::code::{generate_random_code, is_code, string_from_chars};
use crate::password::{argon2_accepts, argon2_phc_of, base64_standard_of, hash_password, SALT_LEN};
use crate::store::{has_app_id, has_app_name, has_user_id, has_username, Database};
use crate::types::{
    AdminCreateApplicationRequest, AdminCreateUserRequest, AdminPanelTemplate, AuthError, Config,
    DbApplication, DbUser,
};

verus! {

/// Length of a client secret.
pub const CLIENT_SECRET_LEN: usize = 128;

/// Length of the hex text of a record id.
pub const RECORD_ID_LEN: usize = 24;

/// `s` with leading and trailing white space removed.
pub uninterp spec fn trim_of(s: Seq<char>) -> Seq<char>;

/// Every character of `s` is a lower-case hex digit.
pub open spec fn is_lower_hex(s: Seq<char>) -> bool {
    forall|i: int| 0 <= i < s.len() ==> ('0' <= #[trigger] s[i] <= '9' || 'a' <= s[i] <= 'f')
}

/// Relies on bson's `ObjectId::new` and `to_hex` (hex's `encode`, lower
/// case): a fresh object id (time, process and counter) as 24 hex digits.
#[verifier::external_body]
fn new_record_id() -> (r: String)
    ensures
        r@.len() == RECORD_ID_LEN,
        is_lower_hex(r@),
{
    bson::oid::ObjectId::new().to_hex()
}

/// Relies on std's `str::trim`: the text without leading and trailing white
/// space, which depends on the text alone.
#[verifier::external_body]
fn trim(s: &str) -> (r: String)
    ensures
        r@ == trim_of(s@),
{
    s.trim().to_owned()
}

/// The pieces of `s` between commas, as `str::split(",")` cuts them: an
/// empty text is one empty piece.
pub open spec fn split_commas(s: Seq<char>) -> Seq<Seq<char>>
    decreases s.len(),
{
    if s.len() == 0 {
        seq![Seq::<char>::empty()]
    } else {
        let prev = split_commas(s.drop_last());
        if s.last() == ',' {
            prev.push(Seq::<char>::empty())
        } else {
            prev.update(prev.len() - 1, prev.last().push(s.last()))
        }
    }
}

proof fn lemma_split_commas_nonempty(s: Seq<char>)
    ensures
        split_commas(s).len() >= 1,
    decreases s.len(),
{
    if s.len() > 0 {
        lemma_split_commas_nonempty(s.drop_last());
    }
}

/// The allow-list written as a comma-separated text: each piece, trimmed.
pub fn parse_redirect_uris(text: &str) -> (r: Vec<String>)
    ensures
        r@.len() == split_commas(text@).len(),
        forall|j: int| 0 <= j < r@.len() ==> (#[trigger] r@[j])@ == trim_of(split_commas(text@)[j]),
{
    let len = text.unicode_len();
    let mut pieces: Vec<String> = Vec::new();
    let mut current: Vec<char> = Vec::new();
    let ghost mut done: Seq<Seq<char>> = Seq::empty();
    let mut i: usize = 0;
    while i < len
        invariant
            i <= len,
            len == text@.len(),
            split_commas(text@.subrange(0, i as int)) == done.push(current@),
            pieces@.len() == done.len(),
            forall|j: int| 0 <= j < done.len() ==> (#[trigger] pieces@[j])@ == trim_of(done[j]),
        decreases len - i,
    {
        let c = text.get_char(i);
        proof {
            let prefix = text@.subrange(0, i + 1);
            assert(prefix.drop_last() =~= text@.subrange(0, i as int));
            assert(prefix.last() == c);
            lemma_split_commas_nonempty(text@.subrange(0, i as int));
        }
        if c == ',' {
            let piece = string_from_chars(&current);
            pieces.push(trim(piece.as_str()));
            proof {
                done = done.push(current@);
            }
            current = Vec::new();
            proof {
                assert(split_commas(text@.subrange(0, i + 1)) =~= done.push(current@));
            }
        } else {
            current.push(c);
            proof {
                assert(split_commas(text@.subrange(0, i + 1)) =~= done.push(current@));
            }
        }
        i = i + 1;
    }
    let piece = string_from_chars(&current);
    pieces.push(trim(piece.as_str()));
    proof {
        assert(text@.subrange(0, len as int) =~= text@);
        done = done.push(current@);
    }
    pieces
}

/// The administration panel, where it is switched on.
pub fn panel(config: &Config) -> (r: Result<AdminPanelTemplate, AuthError>)
    ensures
        r is Ok <==> config.admin_panel_enabled,
        r is Err ==> r == Err::<AdminPanelTemplate, AuthError>(AuthError::AdminDisabled),
{
    if !config.admin_panel_enabled {
        return Err(AuthError::AdminDisabled);
    }
    Ok(AdminPanelTemplate {})
}

/// Registers a user under a fresh id, with a salted hash of the password;
/// returns the id.
pub fn create_user(db: &mut Database, config: &Config, request: &AdminCreateUserRequest) -> (r:
    Result<String, AuthError>)
    requires
        old(db).wf(),
    ensures
        final(db).wf(),
        !config.admin_panel_enabled ==> r == Err::<String, AuthError>(AuthError::AdminDisabled),
        r is Err ==> *final(db) == *old(db),
        r == Err::<String, AuthError>(AuthError::StoreError) ==> has_username(
            old(db).users(),
            request.username@,
        ) || exists|id: Seq<char>| id.len() == RECORD_ID_LEN && has_user_id(old(db).users(), id),
        r matches Err(e) ==> e == AuthError::AdminDisabled || e == AuthError::HashingError || e
            == AuthError::StoreError,
        r == Err::<String, AuthError>(AuthError::HashingError) ==> exists|salt: Seq<u8>|
            salt.len() == SALT_LEN && argon2_phc_of(request.password@, base64_standard_of(salt))
                is None,
        r matches Ok(id) ==> {
            &&& config.admin_panel_enabled
            &&& id@.len() == RECORD_ID_LEN
            &&& is_lower_hex(id@)
            &&& exists|user: DbUser|
                {
                    &&& final(db).users() == old(db).users().push(user)
                    &&& user.id == id
                    &&& user.username@ == request.username@
                    &&& argon2_accepts(user.password_hash@, request.password@)
                }
            &&& final(db).apps() == old(db).apps()
            &&& final(db).grants() == old(db).grants()
            &&& final(db).sessions() == old(db).sessions()
        },
{
    if !config.admin_panel_enabled {
        return Err(AuthError::AdminDisabled);
    }
    let password_hash = match hash_password(request.password.as_str()) {
        Some(h) => h,
        None => return Err(AuthError::HashingError),
    };
    let id = new_record_id();
    let user = DbUser { id: id.clone(), username: request.username.clone(), password_hash };
    let ghost user_view = user;
    match db.insert_user(user) {
        Ok(()) => {
            assert(db.users() == old(db).users().push(user_view));
            Ok(id)
        },
        Err(e) => {
            proof {
                if !has_username(old(db).users(), request.username@) {
                    assert(has_user_id(old(db).users(), user_view.id@));
                }
            }
            Err(e)
        },
    }
}

/// Registers a client application under a fresh client id and a fresh
/// secret, allowing the comma-separated redirect targets of the request;
/// returns the stored record.
pub fn create_application(
    db: &mut Database,
    config: &Config,
    request: &AdminCreateApplicationRequest,
) -> (r: Result<DbApplication, AuthError>)
    requires
        old(db).wf(),
    ensures
        final(db).wf(),
        !config.admin_panel_enabled ==> r == Err::<DbApplication, AuthError>(
            AuthError::AdminDisabled,
        ),
        r is Err ==> *final(db) == *old(db),
        r matches Err(e) ==> e == AuthError::AdminDisabled || (e == AuthError::StoreError && (
        has_app_name(old(db).apps(), request.app_name@) || exists|id: Seq<char>|
            id.len() == RECORD_ID_LEN && has_app_id(old(db).apps(), id))),
        r matches Ok(app) ==> {
            &&& config.admin_panel_enabled
            &&& exists|stored: DbApplication|
                {
                    &&& final(db).apps() == old(db).apps().push(stored)
                    &&& stored.id == app.id
                    &&& stored.name == app.name
                    &&& stored.secret == app.secret
                    &&& stored.redirect_uris@ == app.redirect_uris@
                }
            &&& app.id@.len() == RECORD_ID_LEN
            &&& is_lower_hex(app.id@)
            &&& app.name@ == request.app_name@
            &&& app.secret@.len() == CLIENT_SECRET_LEN
            &&& is_code(app.secret@)
            &&& app.redirect_uris@.len() == split_commas(request.redirect_uris@).len()
            &&& forall|j: int|
                0 <= j < app.redirect_uris@.len() ==> (#[trigger] app.redirect_uris@[j])@
                    == trim_of(split_commas(request.redirect_uris@)[j])
            &&& final(db).users() == old(db).users()
            &&& final(db).grants() == old(db).grants()
            &&& final(db).sessions() == old(db).sessions()
        },
{
    if !config.admin_panel_enabled {
        return Err(AuthError::AdminDisabled);
    }
    let id = new_record_id();
    let secret = generate_random_code(CLIENT_SECRET_LEN);
    let uris = parse_redirect_uris(request.redirect_uris.as_str());
    let mut stored_uris: Vec<String> = Vec::new();
    let mut i: usize = 0;
    while i < uris.len()
        invariant
            i <= uris@.len(),
            stored_uris@ == uris@.subrange(0, i as int),
        decreases uris@.len() - i,
    {
        stored_uris.push(uris[i].clone());
        assert(stored_uris@ =~= uris@.subrange(0, i + 1));
        i = i + 1;
    }
    assert(stored_uris@ =~= uris@);
    let application = DbApplication {
        id: id.clone(),
        name: request.app_name.clone(),
        secret: secret.clone(),
        redirect_uris: stored_uris,
    };
    let ghost app_view = application;
    match db.insert_application(application) {
        Ok(()) => {
            assert(db.apps() == old(db).apps().push(app_view));
            Ok(DbApplication { id, name: request.app_name.clone(), secret, redirect_uris: uris })
        },
        Err(e) => {
            proof {
                if !has_app_name(old(db).apps(), request.app_name@) {
                    assert(has_app_id(old(db).apps(), app_view.id@));
                }
            }
            Err(e)
        },
    }
}

} // verus!
