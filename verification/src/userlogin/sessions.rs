//! Session records and the in-memory session store.
//!
//! A session is an opaque random token bound to a user id with a validity
//! flag.  Stored sessions carry a time-to-live that every successful read
//! refreshes; a session whose time-to-live has lapsed behaves exactly like
//! an absent one.

use vstd::prelude::*;

verus! {

use crate::error::Error;
use crate::table::Table;
use crate::table::lemma_lift_insert;
use crate::table::lift;

/// Seconds a stored session stays readable after its last read.
pub const SESSION_TTL_SECONDS: u64 = 300;

/// A session as callers see it: the user it belongs to and whether it is
/// still the user's active session.
pub struct Session {
    pub user_id: String,
    pub valid: bool,
}

/// The abstract value of a `Session`.
pub struct SessionView {
    pub user_id: Seq<char>,
    pub valid: bool,
}

impl View for Session {
    type V = SessionView;

    open spec fn view(&self) -> SessionView {
        SessionView { user_id: self.user_id@, valid: self.valid }
    }
}

impl Session {
    /// A fresh, valid session for `user_id`.
    pub fn new(user_id: &str) -> (s: Self)
        ensures
            s@ == (SessionView { user_id: user_id@, valid: true }),
    {
        Session { user_id: user_id.to_owned(), valid: true }
    }
}

impl Clone for Session {
    fn clone(&self) -> (r: Self)
        ensures
            r@ == self@,
    {
        Session { user_id: self.user_id.clone(), valid: self.valid }
    }
}

/// Relies on `uuid::Uuid::new_v4` and its `Display` form: a fresh random
/// identifier rendered as a 36-character hyphenated string.
#[verifier::external_body]
pub(crate) fn new_key() -> (r: String)
    ensures
        r@.len() == 36,
{
    uuid::Uuid::new_v4().to_string()
}

/// A session as the store keeps it: the session plus its expiry instant,
/// in seconds on the store's clock.
pub struct StoredSession {
    pub session: Session,
    pub ttl: u64,
}

/// The abstract value of a `StoredSession`.
pub struct StoredSessionView {
    pub session: SessionView,
    pub ttl: u64,
}

impl View for StoredSession {
    type V = StoredSessionView;

    open spec fn view(&self) -> StoredSessionView {
        StoredSessionView { session: self.session@, ttl: self.ttl }
    }
}

impl Clone for StoredSession {
    fn clone(&self) -> (r: Self)
        ensures
            r@ == self@,
    {
        StoredSession { session: self.session.clone(), ttl: self.ttl }
    }
}

/// The store interface for session records, for the application's other
/// backing technologies; the verified in-memory store offers the same
/// operations under full contracts.  Every operation takes the current
/// time in seconds so that expiry is a property of the arguments alone.
pub trait SessionDB {
    /// Stores `session` under a fresh token and returns the token.
    fn create(&mut self, session: Session, now: u64) -> Result<String, Error>;

    /// Marks the session under `key` as no longer valid.
    fn invalidate(&mut self, key: &str) -> Option<()>;

    /// Looks up the session under `key`, refreshing its time-to-live.
    fn get(&mut self, key: &str, now: u64) -> Option<Session>;
}

/// In-memory session store: a table from token to stored session.
pub struct InMemorySessionDB {
    db: Table<String, StoredSession>,
}

impl View for InMemorySessionDB {
    type V = Map<Seq<char>, StoredSessionView>;

    closed spec fn view(&self) -> Map<Seq<char>, StoredSessionView> {
        lift(self.db@)
    }
}

/// The stored map after the session under `k` is marked invalid; absent
/// keys are left alone.
pub open spec fn spec_invalidate(
    m: Map<Seq<char>, StoredSessionView>,
    k: Seq<char>,
) -> Map<Seq<char>, StoredSessionView> {
    if m.contains_key(k) {
        m.insert(
            k,
            StoredSessionView {
                session: SessionView { user_id: m[k].session.user_id, valid: false },
                ttl: m[k].ttl,
            },
        )
    } else {
        m
    }
}

/// The stored map after a read of `k` at time `now` refreshed its expiry.
pub open spec fn spec_refresh(
    m: Map<Seq<char>, StoredSessionView>,
    k: Seq<char>,
    now: u64,
) -> Map<Seq<char>, StoredSessionView> {
    m.insert(
        k,
        StoredSessionView { session: m[k].session, ttl: (now + SESSION_TTL_SECONDS) as u64 },
    )
}

/// Whether the store holds a live (unexpired) record under `k` at `now`.
pub open spec fn spec_live(
    m: Map<Seq<char>, StoredSessionView>,
    k: Seq<char>,
    now: u64,
) -> bool {
    m.contains_key(k) && m[k].ttl >= now
}

impl InMemorySessionDB {
    pub closed spec fn wf(&self) -> bool {
        self.db.wf()
    }

    /// An empty store.
    pub fn new() -> (r: Self)
        ensures
            r.wf(),
            r@ == Map::<Seq<char>, StoredSessionView>::empty(),
    {
        let r = InMemorySessionDB { db: Table::new() };
        proof {
            assert(r@ =~= Map::<Seq<char>, StoredSessionView>::empty());
        }
        r
    }

    /// Stores `session` under the given token, with a fresh time-to-live.
    /// This is how a store is seeded with a known token.
    pub fn insert(&mut self, key: String, session: Session, now: u64)
        requires
            old(self).wf(),
            now <= u64::MAX - SESSION_TTL_SECONDS,
        ensures
            final(self).wf(),
            final(self)@ == old(self)@.insert(
                key@,
                StoredSessionView { session: session@, ttl: (now + SESSION_TTL_SECONDS) as u64 },
            ),
    {
        proof {
            broadcast use lemma_lift_insert;

        }
        let ttl = now + SESSION_TTL_SECONDS;
        self.db.insert(key, StoredSession { session, ttl });
    }

    /// Stores `session` under a fresh random token and returns the token.
    /// Creation always succeeds for the in-memory store.
    pub fn create(&mut self, session: Session, now: u64) -> (r: Result<String, Error>)
        requires
            old(self).wf(),
            now <= u64::MAX - SESSION_TTL_SECONDS,
        ensures
            final(self).wf(),
            match r {
                Ok(token) => {
                    &&& token@.len() == 36
                    &&& final(self)@ == old(self)@.insert(
                        token@,
                        StoredSessionView {
                            session: session@,
                            ttl: (now + SESSION_TTL_SECONDS) as u64,
                        },
                    )
                },
                Err(_) => false,
            },
    {
        let key = new_key();
        let token = key.clone();
        self.insert(key, session, now);
        Ok(token)
    }

    /// Marks the session stored under `key` invalid, leaving its expiry
    /// alone; reports whether a record was found.
    pub fn invalidate(&mut self, key: &str) -> (r: Option<()>)
        requires
            old(self).wf(),
        ensures
            final(self).wf(),
            final(self)@ == spec_invalidate(old(self)@, key@),
            r is Some <==> old(self)@.contains_key(key@),
    {
        proof {
            broadcast use lemma_lift_insert;

        }
        let current = match self.db.get(&key.to_owned()) {
            Some(s) => s.clone(),
            None => {
                return None;
            },
        };
        self.db.insert(
            key.to_owned(),
            StoredSession {
                session: Session { user_id: current.session.user_id, valid: false },
                ttl: current.ttl,
            },
        );
        Some(())
    }

    /// Looks up the session under `key` at time `now`.  A live record is
    /// returned and its time-to-live refreshed; an absent or expired
    /// record gives `None` and leaves the store unchanged.
    pub fn get(&mut self, key: &str, now: u64) -> (r: Option<Session>)
        requires
            old(self).wf(),
            now <= u64::MAX - SESSION_TTL_SECONDS,
        ensures
            final(self).wf(),
            spec_live(old(self)@, key@, now) ==> {
                &&& r matches Some(s) && s@ == old(self)@[key@].session
                &&& final(self)@ == spec_refresh(old(self)@, key@, now)
            },
            !spec_live(old(self)@, key@, now) ==> r is None && final(self)@ == old(self)@,
    {
        proof {
            broadcast use lemma_lift_insert;

        }
        let current = match self.db.get(&key.to_owned()) {
            Some(s) => s.clone(),
            None => {
                return None;
            },
        };
        if current.ttl < now {
            return None;
        }
        let session = current.session.clone();
        self.db.insert(
            key.to_owned(),
            StoredSession { session: current.session, ttl: now + SESSION_TTL_SECONDS },
        );
        Some(session)
    }
}

impl Default for InMemorySessionDB {
    /// An empty store.
    fn default() -> (r: Self)
        ensures
            r.wf(),
            r@ == Map::<Seq<char>, StoredSessionView>::empty(),
    {
        Self::new()
    }
}

} // verus!
