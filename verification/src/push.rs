//! Push-notification tokens: per-user device tokens and their store.
//!
//! Sending the actual push message is a provider SDK call performed by
//! the surrounding application; this module owns the token records.

use vstd::prelude::*;

verus! {

use crate::error::Error;
use crate::table::Table;
use crate::table::lemma_lift_insert;
use crate::table::lift;

/// A push token registered by a user's device.
pub struct FcmToken {
    pub id: String,
    pub token: String,
}

/// The abstract value of an `FcmToken`.
pub struct FcmTokenView {
    pub id: Seq<char>,
    pub token: Seq<char>,
}

impl View for FcmToken {
    type V = FcmTokenView;

    open spec fn view(&self) -> FcmTokenView {
        FcmTokenView { id: self.id@, token: self.token@ }
    }
}

impl Clone for FcmToken {
    fn clone(&self) -> (r: Self)
        ensures
            r@ == self@,
    {
        FcmToken { id: self.id.clone(), token: self.token.clone() }
    }
}

/// The store interface for push tokens, for the application's other
/// backing technologies; the verified in-memory store offers the same
/// operations under full contracts.
pub trait FcmTokenDB {
    /// Persists a token under its user id.
    fn set(&mut self, token: FcmToken) -> Result<(), Error>;

    /// The token registered for a user, if any.
    fn get(&self, user_id: &str) -> Option<FcmToken>;
}

/// In-memory push-token store: a table from user id to token.
pub struct InMemoryFcmTokenDB {
    db: Table<String, FcmToken>,
}

impl View for InMemoryFcmTokenDB {
    type V = Map<Seq<char>, FcmTokenView>;

    closed spec fn view(&self) -> Map<Seq<char>, FcmTokenView> {
        lift(self.db@)
    }
}

impl InMemoryFcmTokenDB {
    pub closed spec fn wf(&self) -> bool {
        self.db.wf()
    }

    /// An empty store.
    pub fn new() -> (r: Self)
        ensures
            r.wf(),
            r@ == Map::<Seq<char>, FcmTokenView>::empty(),
    {
        let r = InMemoryFcmTokenDB { db: Table::new() };
        proof {
            assert(r@ =~= Map::<Seq<char>, FcmTokenView>::empty());
        }
        r
    }

    /// Persists `token` under its user id, replacing the user's previous
    /// token.
    pub fn set(&mut self, token: FcmToken) -> (r: Result<(), Error>)
        requires
            old(self).wf(),
        ensures
            final(self).wf(),
            final(self)@ == old(self)@.insert(token@.id, token@),
            r is Ok,
    {
        proof {
            broadcast use lemma_lift_insert;

        }
        let key = token.id.clone();
        self.db.insert(key, token);
        Ok(())
    }

    /// The token registered for `user_id`, if any.
    pub fn get(&self, user_id: &str) -> (r: Option<FcmToken>)
        requires
            self.wf(),
        ensures
            match r {
                Some(t) => self@.contains_key(user_id@) && t@ == self@[user_id@],
                None => !self@.contains_key(user_id@),
            },
    {
        match self.db.get(&user_id.to_owned()) {
            Some(t) => Some(t.clone()),
            None => None,
        }
    }
}

impl Default for InMemoryFcmTokenDB {
    /// An empty store.
    fn default() -> (r: Self)
        ensures
            r.wf(),
            r@ == Map::<Seq<char>, FcmTokenView>::empty(),
    {
        Self::new()
    }
}

/// The reply to a token-store request.
#[derive(Clone, Copy, Debug, PartialEq, Eq, Structural)]
pub struct FcmTokenStoreResponse {
    pub success: bool,
}

/// Module marker for the push-token feature.
pub struct FcmTokens {}

/// The push-notification resource: the token store and the provider key
/// the application's sender uses.
pub struct PushNotificationResource {
    pub tokens: InMemoryFcmTokenDB,
    pub api_key: String,
}

impl PushNotificationResource {
    pub open spec fn wf(&self) -> bool {
        self.tokens.wf()
    }

    /// A resource over the given token store, sending with `api_key`.
    pub fn new(tokens: InMemoryFcmTokenDB, api_key: String) -> (r: Self)
        ensures
            r.tokens == tokens,
            r.api_key == api_key,
    {
        PushNotificationResource { tokens, api_key }
    }

    /// Registers `token` as `user_id`'s push token and acknowledges.
    pub fn set(&mut self, user_id: &str, token: &str) -> (r: Result<
        FcmTokenStoreResponse,
        Error,
    >)
        requires
            old(self).wf(),
        ensures
            final(self).wf(),
            final(self).api_key == old(self).api_key,
            final(self).tokens@ == old(self).tokens@.insert(
                user_id@,
                FcmTokenView { id: user_id@, token: token@ },
            ),
            r == Ok::<FcmTokenStoreResponse, Error>(FcmTokenStoreResponse { success: true }),
    {
        let record = FcmToken { id: user_id.to_owned(), token: token.to_owned() };
        let saved = self.tokens.set(record);
        proof {
            assert(saved is Ok);
        }
        Ok(FcmTokenStoreResponse { success: true })
    }

    /// The token registered for `user_id`, if any.
    pub fn get_token(&self, user_id: &str) -> (r: Option<FcmToken>)
        requires
            self.wf(),
        ensures
            match r {
                Some(t) => self.tokens@.contains_key(user_id@) && t@ == self.tokens@[user_id@],
                None => !self.tokens@.contains_key(user_id@),
            },
    {
        self.tokens.get(user_id)
    }
}

} // verus!
