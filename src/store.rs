//! An in-memory store of users, client applications, grants and sessions.
//!
//! Each record kind is keyed: user names, user ids, application ids,
//! application names, grant codes and session keys are unique within their
//! kind. Inserting a record whose key is taken fails with `StoreError`.
use vstd::prelude::*;

use crate::types::{AuthError, DbApplication, DbApplicationGrant, DbSession, DbUser};

verus! {

// ---- keys ----

/// No two records of `s` have the same key.
pub open spec fn keys_unique<T>(s: Seq<T>, key: spec_fn(T) -> Seq<char>) -> bool {
    forall|i: int, j: int|
        #![trigger key(s[i]), key(s[j])]
        0 <= i < s.len() && 0 <= j < s.len() && key(s[i]) == key(s[j]) ==> i == j
}

pub proof fn lemma_unique_at<T>(s: Seq<T>, key: spec_fn(T) -> Seq<char>, i: int, j: int)
    requires
        keys_unique(s, key),
        0 <= i < s.len(),
        0 <= j < s.len(),
        key(s[i]) == key(s[j]),
    ensures
        i == j,
{
}

/// Appending a record whose key is new keeps the keys unique.
proof fn lemma_push_unique<T>(s: Seq<T>, x: T, key: spec_fn(T) -> Seq<char>)
    requires
        keys_unique(s, key),
        forall|i: int| 0 <= i < s.len() ==> key(#[trigger] s[i]) != key(x),
    ensures
        keys_unique(s.push(x), key),
{
    let t = s.push(x);
    assert forall|a: int, b: int|
        #![trigger key(t[a]), key(t[b])]
        0 <= a < t.len() && 0 <= b < t.len() && key(t[a]) == key(t[b]) implies a == b by {
        if a < s.len() {
            assert(t[a] == s[a]);
        }
        if b < s.len() {
            assert(t[b] == s[b]);
        }
    }
}

/// Removing a record keeps the keys unique.
proof fn lemma_remove_unique<T>(s: Seq<T>, i: int, key: spec_fn(T) -> Seq<char>)
    requires
        keys_unique(s, key),
        0 <= i < s.len(),
    ensures
        keys_unique(s.remove(i), key),
{
    let t = s.remove(i);
    assert forall|a: int, b: int|
        #![trigger key(t[a]), key(t[b])]
        0 <= a < t.len() && 0 <= b < t.len() && key(t[a]) == key(t[b]) implies a == b by {
        let a0 = if a < i { a } else { a + 1 };
        let b0 = if b < i { b } else { b + 1 };
        assert(t[a] == s[a0]);
        assert(t[b] == s[b0]);
    }
}

pub open spec fn by_username() -> spec_fn(DbUser) -> Seq<char> {
    |u: DbUser| u.username@
}

pub open spec fn by_user_id() -> spec_fn(DbUser) -> Seq<char> {
    |u: DbUser| u.id@
}

pub open spec fn by_app_id() -> spec_fn(DbApplication) -> Seq<char> {
    |a: DbApplication| a.id@
}

pub open spec fn by_app_name() -> spec_fn(DbApplication) -> Seq<char> {
    |a: DbApplication| a.name@
}

pub open spec fn by_code() -> spec_fn(DbApplicationGrant) -> Seq<char> {
    |g: DbApplicationGrant| g.code@
}

pub open spec fn by_session_key() -> spec_fn(DbSession) -> Seq<char> {
    |s: DbSession| s.session_key@
}

// ---- users ----

pub open spec fn user_named(users: Seq<DbUser>, i: int, name: Seq<char>) -> bool {
    0 <= i < users.len() && users[i].username@ == name
}

pub open spec fn has_username(users: Seq<DbUser>, name: Seq<char>) -> bool {
    exists|i: int| user_named(users, i, name)
}

pub open spec fn has_user_id(users: Seq<DbUser>, id: Seq<char>) -> bool {
    exists|i: int| 0 <= i < users.len() && (#[trigger] users[i]).id@ == id
}

/// The user called `name`, if any.
pub open spec fn find_user(users: Seq<DbUser>, name: Seq<char>) -> Option<DbUser> {
    if has_username(users, name) {
        Some(users[choose|i: int| user_named(users, i, name)])
    } else {
        None
    }
}

pub open spec fn users_unique(users: Seq<DbUser>) -> bool {
    keys_unique(users, by_username()) && keys_unique(users, by_user_id())
}

// ---- applications ----

pub open spec fn app_with_id(apps: Seq<DbApplication>, i: int, id: Seq<char>) -> bool {
    0 <= i < apps.len() && apps[i].id@ == id
}

pub open spec fn app_named(apps: Seq<DbApplication>, i: int, name: Seq<char>) -> bool {
    0 <= i < apps.len() && apps[i].name@ == name
}

pub open spec fn has_app_id(apps: Seq<DbApplication>, id: Seq<char>) -> bool {
    exists|i: int| app_with_id(apps, i, id)
}

pub open spec fn has_app_name(apps: Seq<DbApplication>, name: Seq<char>) -> bool {
    exists|i: int| app_named(apps, i, name)
}

/// The application whose client id is `id`, if any.
pub open spec fn find_app(apps: Seq<DbApplication>, id: Seq<char>) -> Option<DbApplication> {
    if has_app_id(apps, id) {
        Some(apps[choose|i: int| app_with_id(apps, i, id)])
    } else {
        None
    }
}

/// The application called `name`, if any.
pub open spec fn find_app_by_name(apps: Seq<DbApplication>, name: Seq<char>) -> Option<
    DbApplication,
> {
    if has_app_name(apps, name) {
        Some(apps[choose|i: int| app_named(apps, i, name)])
    } else {
        None
    }
}

pub open spec fn apps_unique(apps: Seq<DbApplication>) -> bool {
    keys_unique(apps, by_app_id()) && keys_unique(apps, by_app_name())
}

// ---- grants ----

pub open spec fn grant_with_code(grants: Seq<DbApplicationGrant>, i: int, code: Seq<char>) -> bool {
    0 <= i < grants.len() && grants[i].code@ == code
}

pub open spec fn has_code(grants: Seq<DbApplicationGrant>, code: Seq<char>) -> bool {
    exists|i: int| grant_with_code(grants, i, code)
}

/// The grant that carries `code`, if any.
pub open spec fn find_grant(grants: Seq<DbApplicationGrant>, code: Seq<char>) -> Option<
    DbApplicationGrant,
> {
    if has_code(grants, code) {
        Some(grants[choose|i: int| grant_with_code(grants, i, code)])
    } else {
        None
    }
}

pub open spec fn grants_unique(grants: Seq<DbApplicationGrant>) -> bool {
    keys_unique(grants, by_code())
}

// ---- sessions ----

pub open spec fn session_with_key(sessions: Seq<DbSession>, i: int, key: Seq<char>) -> bool {
    0 <= i < sessions.len() && sessions[i].session_key@ == key
}

pub open spec fn has_session_key(sessions: Seq<DbSession>, key: Seq<char>) -> bool {
    exists|i: int| session_with_key(sessions, i, key)
}

/// The session whose bearer key is `key`, if any.
pub open spec fn find_session(sessions: Seq<DbSession>, key: Seq<char>) -> Option<DbSession> {
    if has_session_key(sessions, key) {
        Some(sessions[choose|i: int| session_with_key(sessions, i, key)])
    } else {
        None
    }
}

pub open spec fn sessions_unique(sessions: Seq<DbSession>) -> bool {
    keys_unique(sessions, by_session_key())
}

/// The records held by the store.
#[derive(Clone, Debug, PartialEq, Eq)]
pub struct Database {
    users: Vec<DbUser>,
    apps: Vec<DbApplication>,
    grants: Vec<DbApplicationGrant>,
    sessions: Vec<DbSession>,
}

impl Database {
    pub closed spec fn users(&self) -> Seq<DbUser> {
        self.users@
    }

    pub closed spec fn apps(&self) -> Seq<DbApplication> {
        self.apps@
    }

    pub closed spec fn grants(&self) -> Seq<DbApplicationGrant> {
        self.grants@
    }

    pub closed spec fn sessions(&self) -> Seq<DbSession> {
        self.sessions@
    }

    /// Every key is unique within its kind.
    pub open spec fn wf(&self) -> bool {
        &&& users_unique(self.users())
        &&& apps_unique(self.apps())
        &&& grants_unique(self.grants())
        &&& sessions_unique(self.sessions())
    }

    /// An empty store.
    pub fn new() -> (r: Database)
        ensures
            r.wf(),
            r.users() == Seq::<DbUser>::empty(),
            r.apps() == Seq::<DbApplication>::empty(),
            r.grants() == Seq::<DbApplicationGrant>::empty(),
            r.sessions() == Seq::<DbSession>::empty(),
    {
        Database { users: Vec::new(), apps: Vec::new(), grants: Vec::new(), sessions: Vec::new() }
    }

    /// The user called `username`, if any.
    pub fn user_by_username(&self, username: &str) -> (r: Option<&DbUser>)
        requires
            self.wf(),
        ensures
            match r {
                Some(u) => find_user(self.users(), username@) == Some(*u),
                None => find_user(self.users(), username@) is None,
            },
    {
        let name = username.to_owned();
        let mut i: usize = 0;
        while i < self.users.len()
            invariant
                self.wf(),
                i <= self.users@.len(),
                name@ == username@,
                forall|j: int| 0 <= j < i ==> !user_named(self.users@, j, username@),
            decreases self.users@.len() - i,
        {
            if self.users[i].username == name {
                proof {
                    let k = choose|k: int| user_named(self.users@, k, username@);
                    assert(user_named(self.users@, i as int, username@));
                    lemma_unique_at(self.users@, by_username(), k, i as int);
                }
                return Some(&self.users[i]);
            }
            i = i + 1;
        }
        None
    }

    /// The application whose client id is `client_id`, if any.
    pub fn app_by_client_id(&self, client_id: &str) -> (r: Option<&DbApplication>)
        requires
            self.wf(),
        ensures
            match r {
                Some(a) => find_app(self.apps(), client_id@) == Some(*a),
                None => find_app(self.apps(), client_id@) is None,
            },
    {
        let id = client_id.to_owned();
        let mut i: usize = 0;
        while i < self.apps.len()
            invariant
                self.wf(),
                i <= self.apps@.len(),
                id@ == client_id@,
                forall|j: int| 0 <= j < i ==> !app_with_id(self.apps@, j, client_id@),
            decreases self.apps@.len() - i,
        {
            if self.apps[i].id == id {
                proof {
                    let k = choose|k: int| app_with_id(self.apps@, k, client_id@);
                    assert(app_with_id(self.apps@, i as int, client_id@));
                    lemma_unique_at(self.apps@, by_app_id(), k, i as int);
                }
                return Some(&self.apps[i]);
            }
            i = i + 1;
        }
        None
    }

    /// The application called `name`, if any.
    pub fn app_by_name(&self, name: &str) -> (r: Option<&DbApplication>)
        requires
            self.wf(),
        ensures
            match r {
                Some(a) => find_app_by_name(self.apps(), name@) == Some(*a),
                None => find_app_by_name(self.apps(), name@) is None,
            },
    {
        let wanted = name.to_owned();
        let mut i: usize = 0;
        while i < self.apps.len()
            invariant
                self.wf(),
                i <= self.apps@.len(),
                wanted@ == name@,
                forall|j: int| 0 <= j < i ==> !app_named(self.apps@, j, name@),
            decreases self.apps@.len() - i,
        {
            if self.apps[i].name == wanted {
                proof {
                    let k = choose|k: int| app_named(self.apps@, k, name@);
                    assert(app_named(self.apps@, i as int, name@));
                    lemma_unique_at(self.apps@, by_app_name(), k, i as int);
                }
                return Some(&self.apps[i]);
            }
            i = i + 1;
        }
        None
    }

    /// Position of the grant that carries `code`, if any.
    fn grant_index(&self, code: &str) -> (r: Option<usize>)
        requires
            self.wf(),
        ensures
            match r {
                Some(i) => grant_with_code(self.grants(), i as int, code@) && find_grant(
                    self.grants(),
                    code@,
                ) == Some(self.grants()[i as int]),
                None => !has_code(self.grants(), code@) && find_grant(self.grants(), code@) is None,
            },
    {
        let wanted = code.to_owned();
        let mut i: usize = 0;
        while i < self.grants.len()
            invariant
                self.wf(),
                i <= self.grants@.len(),
                wanted@ == code@,
                forall|j: int| 0 <= j < i ==> !grant_with_code(self.grants@, j, code@),
            decreases self.grants@.len() - i,
        {
            if self.grants[i].code == wanted {
                proof {
                    let k = choose|k: int| grant_with_code(self.grants@, k, code@);
                    assert(grant_with_code(self.grants@, i as int, code@));
                    lemma_unique_at(self.grants@, by_code(), k, i as int);
                }
                return Some(i);
            }
            i = i + 1;
        }
        None
    }

    /// The grant that carries `code`, if any.
    pub fn get_application_grant(&self, code: &str) -> (r: Option<&DbApplicationGrant>)
        requires
            self.wf(),
        ensures
            match r {
                Some(g) => find_grant(self.grants(), code@) == Some(*g),
                None => find_grant(self.grants(), code@) is None,
            },
    {
        match self.grant_index(code) {
            Some(i) => Some(&self.grants[i]),
            None => None,
        }
    }

    /// The session whose bearer key is `key`, if any.
    pub fn session_from_key(&self, key: &str) -> (r: Option<&DbSession>)
        requires
            self.wf(),
        ensures
            match r {
                Some(s) => find_session(self.sessions(), key@) == Some(*s),
                None => find_session(self.sessions(), key@) is None,
            },
    {
        let wanted = key.to_owned();
        let mut i: usize = 0;
        while i < self.sessions.len()
            invariant
                self.wf(),
                i <= self.sessions@.len(),
                wanted@ == key@,
                forall|j: int| 0 <= j < i ==> !session_with_key(self.sessions@, j, key@),
            decreases self.sessions@.len() - i,
        {
            if self.sessions[i].session_key == wanted {
                proof {
                    let k = choose|k: int| session_with_key(self.sessions@, k, key@);
                    assert(session_with_key(self.sessions@, i as int, key@));
                    lemma_unique_at(self.sessions@, by_session_key(), k, i as int);
                }
                return Some(&self.sessions[i]);
            }
            i = i + 1;
        }
        None
    }
    fn user_id_taken(&self, id: &String) -> (r: bool)
        ensures
            r == has_user_id(self.users(), id@),
    {
        let mut i: usize = 0;
        while i < self.users.len()
            invariant
                i <= self.users@.len(),
                forall|j: int| 0 <= j < i ==> (#[trigger] self.users@[j]).id@ != id@,
            decreases self.users@.len() - i,
        {
            if self.users[i].id == *id {
                return true;
            }
            i = i + 1;
        }
        false
    }

    /// Adds `user`, unless its name or its id is already taken.
    pub fn insert_user(&mut self, user: DbUser) -> (r: Result<(), AuthError>)
        requires
            old(self).wf(),
        ensures
            final(self).wf(),
            r is Ok <==> !has_username(old(self).users(), user.username@) && !has_user_id(
                old(self).users(),
                user.id@,
            ),
            r is Ok ==> final(self).users() == old(self).users().push(user),
            r is Err ==> r == Err::<(), AuthError>(AuthError::StoreError) && *final(self) == *old(
                self,
            ),
            final(self).apps() == old(self).apps(),
            final(self).grants() == old(self).grants(),
            final(self).sessions() == old(self).sessions(),
    {
        if self.user_by_username(user.username.as_str()).is_some() || self.user_id_taken(&user.id) {
            return Err(AuthError::StoreError);
        }
        proof {
            assert(!has_username(self.users@, user.username@));
        }
        proof {
            assert forall|i: int| 0 <= i < self.users@.len() implies by_username()(#[trigger] self.users@[i])
                != by_username()(user) by {
                assert(!user_named(self.users@, i, user.username@));
            }
            lemma_push_unique(self.users@, user, by_username());
            assert forall|i: int| 0 <= i < self.users@.len() implies by_user_id()(#[trigger] self.users@[i])
                != by_user_id()(user) by {
            }
            lemma_push_unique(self.users@, user, by_user_id());
        }
        self.users.push(user);
        Ok(())
    }

    fn app_id_taken(&self, id: &String) -> (r: bool)
        requires
            self.wf(),
        ensures
            r == has_app_id(self.apps(), id@),
    {
        self.app_by_client_id(id.as_str()).is_some()
    }

    /// Adds `application`, unless its client id or its name is already taken.
    pub fn insert_application(&mut self, application: DbApplication) -> (r: Result<(), AuthError>)
        requires
            old(self).wf(),
        ensures
            final(self).wf(),
            r is Ok <==> !has_app_id(old(self).apps(), application.id@) && !has_app_name(
                old(self).apps(),
                application.name@,
            ),
            r is Ok ==> final(self).apps() == old(self).apps().push(application),
            r is Err ==> r == Err::<(), AuthError>(AuthError::StoreError) && *final(self) == *old(
                self,
            ),
            final(self).users() == old(self).users(),
            final(self).grants() == old(self).grants(),
            final(self).sessions() == old(self).sessions(),
    {
        if self.app_id_taken(&application.id) || self.app_by_name(application.name.as_str()).is_some() {
            return Err(AuthError::StoreError);
        }
        proof {
            assert(!has_app_id(self.apps@, application.id@));
            assert(!has_app_name(self.apps@, application.name@));
        }
        proof {
            assert forall|i: int| 0 <= i < self.apps@.len() implies by_app_id()(#[trigger] self.apps@[i])
                != by_app_id()(application) by {
                assert(!app_with_id(self.apps@, i, application.id@));
            }
            lemma_push_unique(self.apps@, application, by_app_id());
            assert forall|i: int| 0 <= i < self.apps@.len() implies by_app_name()(#[trigger] self.apps@[i])
                != by_app_name()(application) by {
                assert(!app_named(self.apps@, i, application.name@));
            }
            lemma_push_unique(self.apps@, application, by_app_name());
        }
        self.apps.push(application);
        Ok(())
    }

    /// Adds `grant`, unless its code is already taken.
    pub fn insert_application_grant(&mut self, grant: DbApplicationGrant) -> (r: Result<
        (),
        AuthError,
    >)
        requires
            old(self).wf(),
        ensures
            final(self).wf(),
            r is Ok <==> !has_code(old(self).grants(), grant.code@),
            r is Ok ==> final(self).grants() == old(self).grants().push(grant),
            r is Err ==> r == Err::<(), AuthError>(AuthError::StoreError) && *final(self) == *old(
                self,
            ),
            final(self).users() == old(self).users(),
            final(self).apps() == old(self).apps(),
            final(self).sessions() == old(self).sessions(),
    {
        if self.grant_index(grant.code.as_str()).is_some() {
            return Err(AuthError::StoreError);
        }
        proof {
            assert forall|i: int| 0 <= i < self.grants@.len() implies by_code()(#[trigger] self.grants@[i])
                != by_code()(grant) by {
                assert(!grant_with_code(self.grants@, i, grant.code@));
            }
            lemma_push_unique(self.grants@, grant, by_code());
        }
        self.grants.push(grant);
        Ok(())
    }

    /// Removes the grant that carries `code` and hands it back, in one step:
    /// a code can be taken at most once.
    pub fn take_application_grant(&mut self, code: &str) -> (r: Option<DbApplicationGrant>)
        requires
            old(self).wf(),
        ensures
            final(self).wf(),
            r == find_grant(old(self).grants(), code@),
            r is None ==> *final(self) == *old(self),
            r is Some ==> exists|i: int|
                grant_with_code(old(self).grants(), i, code@) && final(self).grants() == old(
                    self,
                ).grants().remove(i),
            !has_code(final(self).grants(), code@),
            forall|c: Seq<char>|
                c != code@ ==> #[trigger] find_grant(final(self).grants(), c) == find_grant(
                    old(self).grants(),
                    c,
                ),
            final(self).grants().len() <= old(self).grants().len(),
            final(self).users() == old(self).users(),
            final(self).apps() == old(self).apps(),
            final(self).sessions() == old(self).sessions(),
    {
        match self.grant_index(code) {
            None => None,
            Some(i) => {
                let ghost before = self.grants@;
                let g = self.grants.remove(i);
                proof {
                    let after = self.grants@;
                    lemma_remove_unique(before, i as int, by_code());
                    assert forall|j: int| 0 <= j < after.len() implies !grant_with_code(after, j, code@) by {
                        let j0 = if j < i { j } else { j + 1 };
                        assert(after[j] == before[j0]);
                        if grant_with_code(after, j, code@) {
                            lemma_unique_at(before, by_code(), j0, i as int);
                        }
                    }
                    assert forall|c: Seq<char>| c != code@ implies #[trigger] find_grant(after, c)
                        == find_grant(before, c) by {
                        if has_code(before, c) {
                            let k = choose|k: int| grant_with_code(before, k, c);
                            assert(k != i);
                            let k1 = if k < i { k } else { k - 1 };
                            assert(after[k1] == before[k]);
                            assert(grant_with_code(after, k1, c));
                            let m = choose|m: int| grant_with_code(after, m, c);
                            let m0 = if m < i { m } else { m + 1 };
                            assert(after[m] == before[m0]);
                            assert(grant_with_code(before, m0, c));
                            lemma_unique_at(before, by_code(), k, m0);
                        }
                        if has_code(after, c) {
                            let m = choose|m: int| grant_with_code(after, m, c);
                            let m0 = if m < i { m } else { m + 1 };
                            assert(after[m] == before[m0]);
                            assert(grant_with_code(before, m0, c));
                        }
                    }
                    assert(grant_with_code(before, i as int, code@));
                }
                Some(g)
            },
        }
    }

    /// Removes the grant that carries `code`, if there is one.
    pub fn remove_application_grant(&mut self, code: &str)
        requires
            old(self).wf(),
        ensures
            final(self).wf(),
            !has_code(old(self).grants(), code@) ==> *final(self) == *old(self),
            has_code(old(self).grants(), code@) ==> exists|i: int|
                grant_with_code(old(self).grants(), i, code@) && final(self).grants() == old(
                    self,
                ).grants().remove(i),
            !has_code(final(self).grants(), code@),
            forall|c: Seq<char>|
                c != code@ ==> #[trigger] find_grant(final(self).grants(), c) == find_grant(
                    old(self).grants(),
                    c,
                ),
            final(self).users() == old(self).users(),
            final(self).apps() == old(self).apps(),
            final(self).sessions() == old(self).sessions(),
    {
        let _ = self.take_application_grant(code);
    }

    /// Adds `session`, unless its bearer key is already taken.
    pub fn insert_session(&mut self, session: DbSession) -> (r: Result<(), AuthError>)
        requires
            old(self).wf(),
        ensures
            final(self).wf(),
            r is Ok <==> !has_session_key(old(self).sessions(), session.session_key@),
            r is Ok ==> final(self).sessions() == old(self).sessions().push(session),
            r is Err ==> r == Err::<(), AuthError>(AuthError::StoreError) && *final(self) == *old(
                self,
            ),
            final(self).users() == old(self).users(),
            final(self).apps() == old(self).apps(),
            final(self).grants() == old(self).grants(),
    {
        if self.session_from_key(session.session_key.as_str()).is_some() {
            return Err(AuthError::StoreError);
        }
        proof {
            assert forall|i: int| 0 <= i < self.sessions@.len() implies by_session_key()(#[trigger] self.sessions@[i])
                != by_session_key()(session) by {
                assert(!session_with_key(self.sessions@, i, session.session_key@));
            }
            lemma_push_unique(self.sessions@, session, by_session_key());
        }
        self.sessions.push(session);
        Ok(())
    }
}

} // verus!
