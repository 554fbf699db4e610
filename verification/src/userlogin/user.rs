//! User records and the in-memory user store with optimistic concurrency.

use vstd::prelude::*;

verus! {

use crate::error::Error;
use crate::table::Table;
use crate::table::lemma_lift_insert;
use crate::table::lift;
use crate::userlogin::sessions::new_key;

/// A stored user: credentials, a monotonic save counter, the user's
/// current session token and derived profile fields.
pub struct User {
    pub id: String,
    pub secret: String,
    pub version: u64,
    pub session: Option<String>,
    pub country: Option<String>,
    pub language: Option<String>,
}

/// The abstract value of a `User`.
pub struct UserView {
    pub id: Seq<char>,
    pub secret: Seq<char>,
    pub version: u64,
    pub session: Option<Seq<char>>,
    pub country: Option<Seq<char>>,
    pub language: Option<Seq<char>>,
}

/// The view of an optional string.
pub open spec fn opt_view(o: Option<String>) -> Option<Seq<char>> {
    match o {
        Some(s) => Some(s@),
        None => None,
    }
}

impl View for User {
    type V = UserView;

    open spec fn view(&self) -> UserView {
        UserView {
            id: self.id@,
            secret: self.secret@,
            version: self.version,
            session: opt_view(self.session),
            country: opt_view(self.country),
            language: opt_view(self.language),
        }
    }
}

/// Clones an optional string, keeping its abstract value.
fn clone_opt_string(o: &Option<String>) -> (r: Option<String>)
    ensures
        opt_view(r) == opt_view(*o),
{
    match o {
        Some(s) => Some(s.clone()),
        None => None,
    }
}

impl Clone for User {
    fn clone(&self) -> (r: Self)
        ensures
            r@ == self@,
    {
        User {
            id: self.id.clone(),
            secret: self.secret.clone(),
            version: self.version,
            session: clone_opt_string(&self.session),
            country: clone_opt_string(&self.country),
            language: clone_opt_string(&self.language),
        }
    }
}

impl User {
    /// A fresh user with random id and secret, version zero and no
    /// session.
    pub fn new(country: Option<String>, language: Option<String>) -> (u: User)
        ensures
            u@.id.len() == 36,
            u@.secret.len() == 36,
            u@.version == 0,
            u@.session is None,
            u@.country == opt_view(country),
            u@.language == opt_view(language),
    {
        User {
            id: new_key(),
            secret: new_key(),
            version: 0,
            session: None,
            country,
            language,
        }
    }
}

impl Default for User {
    /// An empty user record: empty id and secret, version zero.
    fn default() -> (u: User)
        ensures
            u@.id.len() == 0,
            u@.secret.len() == 0,
            u@.version == 0,
            u@.session is None,
            u@.country is None,
            u@.language is None,
    {
        User {
            id: String::new(),
            secret: String::new(),
            version: 0,
            session: None,
            country: None,
            language: None,
        }
    }
}

/// The store interface for user records, for the application's other
/// backing technologies; the verified in-memory store offers the same
/// operations under full contracts.
pub trait UserDB {
    /// Looks up a user by id.
    fn get_user(&self, key: &str) -> Option<User>;

    /// Persists `u`, rejecting saves whose version is stale.
    fn save_user(&mut self, u: &User) -> Result<(), Error>;
}

/// Whether a save of `u` must be accepted given the stored map: a version
/// of zero writes unconditionally, any other version must be exactly one
/// ahead of the stored record.
pub open spec fn spec_save_allowed(m: Map<Seq<char>, UserView>, u: UserView) -> bool {
    ||| u.version == 0
    ||| (m.contains_key(u.id) && m[u.id].version + 1 == u.version)
}

/// In-memory user store: a table from user id to record, with
/// compare-and-swap semantics on the version counter.
pub struct InMemoryUserDB {
    db: Table<String, User>,
}

impl View for InMemoryUserDB {
    type V = Map<Seq<char>, UserView>;

    closed spec fn view(&self) -> Map<Seq<char>, UserView> {
        lift(self.db@)
    }
}

impl InMemoryUserDB {
    pub closed spec fn wf(&self) -> bool {
        self.db.wf()
    }

    /// An empty store.
    pub fn new() -> (r: Self)
        ensures
            r.wf(),
            r@ == Map::<Seq<char>, UserView>::empty(),
    {
        let r = InMemoryUserDB { db: Table::new() };
        proof {
            assert(r@ =~= Map::<Seq<char>, UserView>::empty());
        }
        r
    }

    /// The user stored under `key`, if any.
    pub fn get_user(&self, key: &str) -> (r: Option<User>)
        requires
            self.wf(),
        ensures
            match r {
                Some(u) => self@.contains_key(key@) && u@ == self@[key@],
                None => !self@.contains_key(key@),
            },
    {
        match self.db.get(&key.to_owned()) {
            Some(u) => Some(u.clone()),
            None => None,
        }
    }

    /// Persists `u` under its id.  A save with version zero always
    /// succeeds; any other save succeeds exactly when its version is one
    /// ahead of the stored record, so a stale read-modify-write is
    /// rejected with `Conflict` and changes nothing.
    pub fn save_user(&mut self, u: &User) -> (r: Result<(), Error>)
        requires
            old(self).wf(),
        ensures
            final(self).wf(),
            spec_save_allowed(old(self)@, u@) ==> r is Ok && final(self)@ == old(self)@.insert(
                u@.id,
                u@,
            ),
            !spec_save_allowed(old(self)@, u@) ==> r == Err::<(), Error>(Error::Conflict)
                && final(self)@ == old(self)@,
    {
        proof {
            broadcast use lemma_lift_insert;

        }
        if u.version > 0 {
            let allowed = match self.db.get(&u.id) {
                Some(stored) => stored.version == u.version - 1,
                None => false,
            };
            if !allowed {
                return Err(Error::Conflict);
            }
        }
        self.db.insert(u.id.clone(), u.clone());
        Ok(())
    }
}

impl Default for InMemoryUserDB {
    /// An empty store.
    fn default() -> (r: Self)
        ensures
            r.wf(),
            r@ == Map::<Seq<char>, UserView>::empty(),
    {
        Self::new()
    }
}

} // verus!
