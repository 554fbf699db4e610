//! Single-sign-on linking: provider credentials mapped to user ids.
//!
//! An entry links a provider-issued identity (provider plus provider id)
//! to a platform user id.  The store enforces that a provider identity
//! already linked to a different user is not silently re-linked.  The
//! provider SDK round trips (token verification, profile fetch) are
//! network I/O performed by the surrounding application.

use vstd::prelude::*;

verus! {

use crate::error::Error;
use crate::table::Table;
use crate::table::TableKey;
use crate::table::lemma_lift_insert;
use crate::table::lemma_lift_remove;
use crate::table::lift;
use crate::table::str_eq;
use crate::userlogin::UserId;
use crate::userlogin::user::InMemoryUserDB;
use crate::userlogin::user::User;

/// The single-sign-on providers supported.
#[derive(Clone, Copy, Debug, Hash, PartialEq, Eq, Structural)]
pub enum Provider {
    Facebook,
    SignInWithApple,
}

/// Provider-issued identifiers are plain strings.
pub type ProviderId = String;

/// Outcome of storing a single-sign-on entry.
#[derive(Clone, Copy, Debug, PartialEq, Eq, Structural)]
pub enum SetSsoResult {
    Success,
    AlreadyAssignedDifferently,
}

/// The key a provider identity is stored under.
pub struct SsoKey {
    pub provider_id: ProviderId,
    pub provider: Provider,
}

/// The abstract value of an `SsoKey`.
pub struct SsoKeyView {
    pub provider_id: Seq<char>,
    pub provider: Provider,
}

impl View for SsoKey {
    type V = SsoKeyView;

    open spec fn view(&self) -> SsoKeyView {
        SsoKeyView { provider_id: self.provider_id@, provider: self.provider }
    }
}

impl Clone for SsoKey {
    fn clone(&self) -> (r: Self)
        ensures
            r@ == self@,
    {
        SsoKey { provider_id: self.provider_id.clone(), provider: self.provider }
    }
}

impl TableKey for SsoKey {
    fn key_eq(&self, other: &Self) -> (r: bool)
        ensures
            r == (self@ == other@),
    {
        self.provider == other.provider && str_eq(
            self.provider_id.as_str(),
            other.provider_id.as_str(),
        )
    }
}

impl SsoKey {
    /// The key of a Facebook identity.
    pub fn facebook(id: &str) -> (r: Self)
        ensures
            r@ == (SsoKeyView { provider_id: id@, provider: Provider::Facebook }),
    {
        SsoKey { provider: Provider::Facebook, provider_id: id.to_owned() }
    }
}

/// A stored link from a provider identity to a user id.
pub struct SsoEntry {
    pub user_id: UserId,
    pub provider: Provider,
    pub provider_id: ProviderId,
}

/// The abstract value of an `SsoEntry`.
pub struct SsoEntryView {
    pub user_id: Seq<char>,
    pub provider: Provider,
    pub provider_id: Seq<char>,
}

impl View for SsoEntry {
    type V = SsoEntryView;

    open spec fn view(&self) -> SsoEntryView {
        SsoEntryView {
            user_id: self.user_id@,
            provider: self.provider,
            provider_id: self.provider_id@,
        }
    }
}

impl Clone for SsoEntry {
    fn clone(&self) -> (r: Self)
        ensures
            r@ == self@,
    {
        SsoEntry {
            user_id: self.user_id.clone(),
            provider: self.provider,
            provider_id: self.provider_id.clone(),
        }
    }
}

/// The key an entry is stored under.
pub open spec fn spec_entry_key(e: SsoEntryView) -> SsoKeyView {
    SsoKeyView { provider_id: e.provider_id, provider: e.provider }
}

/// The store interface for single-sign-on entries, for the
/// application's other backing technologies; the verified in-memory
/// store offers the same operations under full contracts.
pub trait SsoDB {
    /// The entry stored under `key`.
    fn get_entry(&self, key: SsoKey) -> Result<SsoEntry, Error>;

    /// Stores `entry` unless its provider identity is already linked to a
    /// different user.
    fn set_entry(&mut self, entry: SsoEntry) -> Result<SetSsoResult, Error>;

    /// Removes the link held by `entry`'s provider identity.
    fn remove_entry(&mut self, entry: SsoEntry) -> Result<(), Error>;
}

/// In-memory single-sign-on store: a table from provider identity to
/// entry.
pub struct InMemorySsoDB {
    db: Table<SsoKey, SsoEntry>,
}

impl View for InMemorySsoDB {
    type V = Map<SsoKeyView, SsoEntryView>;

    closed spec fn view(&self) -> Map<SsoKeyView, SsoEntryView> {
        lift(self.db@)
    }
}

impl InMemorySsoDB {
    pub closed spec fn wf(&self) -> bool {
        self.db.wf()
    }

    /// An empty store.
    pub fn new() -> (r: Self)
        ensures
            r.wf(),
            r@ == Map::<SsoKeyView, SsoEntryView>::empty(),
    {
        let r = InMemorySsoDB { db: Table::new() };
        proof {
            assert(r@ =~= Map::<SsoKeyView, SsoEntryView>::empty());
        }
        r
    }

    /// The entry stored under `key`, or `NotFound`.
    pub fn get_entry(&self, key: SsoKey) -> (r: Result<SsoEntry, Error>)
        requires
            self.wf(),
        ensures
            self@.contains_key(key@) ==> (r matches Ok(e) && e@ == self@[key@]),
            !self@.contains_key(key@) ==> r == Err::<SsoEntry, Error>(Error::NotFound),
    {
        match self.db.get(&key) {
            Some(e) => Ok(e.clone()),
            None => Err(Error::NotFound),
        }
    }

    /// Stores `entry` under its provider identity.  An identity already
    /// linked to a different user is left untouched and reported as
    /// `AlreadyAssignedDifferently`; re-linking the same user succeeds.
    pub fn set_entry(&mut self, entry: SsoEntry) -> (r: Result<SetSsoResult, Error>)
        requires
            old(self).wf(),
        ensures
            final(self).wf(),
            ({
                let k = spec_entry_key(entry@);
                if old(self)@.contains_key(k) && old(self)@[k].user_id != entry@.user_id {
                    r == Ok::<SetSsoResult, Error>(SetSsoResult::AlreadyAssignedDifferently)
                        && final(self)@ == old(self)@
                } else {
                    r == Ok::<SetSsoResult, Error>(SetSsoResult::Success) && final(self)@ == old(
                        self,
                    )@.insert(k, entry@)
                }
            }),
    {
        proof {
            broadcast use lemma_lift_insert;

        }
        let key = SsoKey { provider: entry.provider, provider_id: entry.provider_id.clone() };
        if let Some(existing) = self.db.get(&key) {
            if !str_eq(existing.user_id.as_str(), entry.user_id.as_str()) {
                return Ok(SetSsoResult::AlreadyAssignedDifferently);
            }
        }
        self.db.insert(key, entry);
        Ok(SetSsoResult::Success)
    }

    /// Removes the link held by `entry`'s provider identity.
    pub fn remove_entry(&mut self, entry: SsoEntry) -> (r: Result<(), Error>)
        requires
            old(self).wf(),
        ensures
            final(self).wf(),
            final(self)@ == old(self)@.remove(spec_entry_key(entry@)),
            r is Ok,
    {
        proof {
            broadcast use lemma_lift_remove;

        }
        let key = SsoKey { provider: entry.provider, provider_id: entry.provider_id };
        self.db.remove(&key);
        Ok(())
    }

    /// The entries found for the given keys, in the order asked for;
    /// unknown keys are skipped.
    pub fn get_entries(&self, ids: &[SsoKey]) -> (r: Vec<SsoEntry>)
        requires
            self.wf(),
        ensures
            entry_views(r@) == spec_collect(self@, key_views(ids@)),
    {
        let mut out: Vec<SsoEntry> = Vec::new();
        let n = ids.len();
        let mut i: usize = 0;
        proof {
            assert(key_views(ids@).subrange(0, 0) =~= Seq::<SsoKeyView>::empty());
            assert(entry_views(out@) =~= spec_collect(self@, key_views(ids@).subrange(0, 0)));
        }
        while i < n
            invariant
                self.wf(),
                n == ids@.len(),
                i <= n,
                entry_views(out@) == spec_collect(self@, key_views(ids@).subrange(0, i as int)),
            decreases n - i,
        {
            let ghost kseq = key_views(ids@);
            let ghost before = out@;
            match self.db.get(&ids[i]) {
                Some(e) => {
                    out.push(e.clone());
                },
                None => {},
            }
            proof {
                assert(kseq.subrange(0, i + 1).drop_last() =~= kseq.subrange(0, i as int));
                assert(kseq.subrange(0, i + 1).last() == kseq[i as int]);
                assert(entry_views(out@) =~= spec_collect(self@, kseq.subrange(0, i + 1)));
            }
            i += 1;
        }
        proof {
            assert(key_views(ids@).subrange(0, n as int) =~= key_views(ids@));
        }
        out
    }
}

impl Default for InMemorySsoDB {
    /// An empty store.
    fn default() -> (r: Self)
        ensures
            r.wf(),
            r@ == Map::<SsoKeyView, SsoEntryView>::empty(),
    {
        Self::new()
    }
}

/// The abstract values of a sequence of keys.
pub open spec fn key_views(keys: Seq<SsoKey>) -> Seq<SsoKeyView> {
    keys.map_values(|k: SsoKey| k@)
}

/// The abstract values of a sequence of entries.
pub open spec fn entry_views(entries: Seq<SsoEntry>) -> Seq<SsoEntryView> {
    entries.map_values(|e: SsoEntry| e@)
}

/// The entries a lookup of `keys` against `m` yields, in key order,
/// unknown keys skipped.
pub open spec fn spec_collect(
    m: Map<SsoKeyView, SsoEntryView>,
    keys: Seq<SsoKeyView>,
) -> Seq<SsoEntryView>
    decreases keys.len(),
{
    if keys.len() == 0 {
        Seq::empty()
    } else {
        let head = spec_collect(m, keys.drop_last());
        if m.contains_key(keys.last()) {
            head.push(m[keys.last()])
        } else {
            head
        }
    }
}

/// Module marker for the single-sign-on feature.
pub struct AtlasSso;

/// The single-sign-on resource: the entry store plus the user store the
/// entries point into.
pub struct SsoResource {
    pub sso_db: InMemorySsoDB,
    pub users: InMemoryUserDB,
}

impl SsoResource {
    pub open spec fn wf(&self) -> bool {
        &&& self.sso_db.wf()
        &&& self.users.wf()
    }

    /// A resource over the given stores.
    pub fn new(sso_db: InMemorySsoDB, users: InMemoryUserDB) -> (r: Self)
        ensures
            r.sso_db == sso_db,
            r.users == users,
    {
        SsoResource { sso_db, users }
    }

    /// Stores a single-sign-on link; see `InMemorySsoDB::set_entry`.
    pub fn set_sso(&mut self, sso: SsoEntry) -> (r: Result<SetSsoResult, Error>)
        requires
            old(self).wf(),
        ensures
            final(self).wf(),
            final(self).users == old(self).users,
            ({
                let k = spec_entry_key(sso@);
                if old(self).sso_db@.contains_key(k) && old(self).sso_db@[k].user_id
                    != sso@.user_id {
                    r == Ok::<SetSsoResult, Error>(SetSsoResult::AlreadyAssignedDifferently)
                        && final(self).sso_db@ == old(self).sso_db@
                } else {
                    r == Ok::<SetSsoResult, Error>(SetSsoResult::Success) && final(self).sso_db@
                        == old(self).sso_db@.insert(k, sso@)
                }
            }),
    {
        self.sso_db.set_entry(sso)
    }

    /// Unlinks a provider identity.
    pub fn remove_entry(&mut self, entry: SsoEntry) -> (r: Result<(), Error>)
        requires
            old(self).wf(),
        ensures
            final(self).wf(),
            final(self).users == old(self).users,
            final(self).sso_db@ == old(self).sso_db@.remove(spec_entry_key(entry@)),
            r is Ok,
    {
        self.sso_db.remove_entry(entry)
    }

    /// Resolves a provider identity to the full user record: `NotFound`
    /// when the identity is not linked, `UnknownUser` when it is linked
    /// to a user the user store does not hold.
    pub fn get_user(&self, key: SsoKey) -> (r: Result<User, Error>)
        requires
            self.wf(),
        ensures
            !self.sso_db@.contains_key(key@) ==> r == Err::<User, Error>(Error::NotFound),
            self.sso_db@.contains_key(key@) && !self.users@.contains_key(
                self.sso_db@[key@].user_id,
            ) ==> r == Err::<User, Error>(Error::UnknownUser),
            self.sso_db@.contains_key(key@) && self.users@.contains_key(
                self.sso_db@[key@].user_id,
            ) ==> (r matches Ok(u) && u@ == self.users@[self.sso_db@[key@].user_id]),
    {
        let entry = match self.sso_db.get_entry(key) {
            Ok(e) => e,
            Err(_) => {
                return Err(Error::NotFound);
            },
        };
        match self.users.get_user(entry.user_id.as_str()) {
            Some(user) => Ok(user),
            None => Err(Error::UnknownUser),
        }
    }

    /// The entries found for the given keys; see
    /// `InMemorySsoDB::get_entries`.
    pub fn get_user_ids(&self, keys: &[SsoKey]) -> (r: Vec<SsoEntry>)
        requires
            self.wf(),
        ensures
            entry_views(r@) == spec_collect(self.sso_db@, key_views(keys@)),
    {
        self.sso_db.get_entries(keys)
    }
}

} // verus!
