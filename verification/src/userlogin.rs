//! User authentication and session handling: version gating, the login,
//! registration and session-validation flows.
//!
//! The resource owns a session store and a user store and enforces the
//! platform's rules: one active session per user (a new login supersedes
//! the previous session), optimistic concurrency on user saves, and
//! time-to-live expiry of sessions.  Network edges — reading requests,
//! resolving a client address to a country, rendering replies — live in
//! the surrounding application, which hands this module plain values.

pub mod ipdb;
pub mod sessions;
pub mod user;

use vstd::prelude::*;

verus! {

use crate::error::Error;
use crate::table::str_eq;
use crate::userlogin::ipdb::IpDB;
use crate::userlogin::sessions::InMemorySessionDB;
use crate::userlogin::sessions::Session;
use crate::userlogin::sessions::SessionView;
use crate::userlogin::sessions::StoredSessionView;
use crate::userlogin::sessions::SESSION_TTL_SECONDS;
use crate::userlogin::sessions::spec_invalidate;
use crate::userlogin::sessions::spec_live;
use crate::userlogin::sessions::spec_refresh;
use crate::userlogin::user::InMemoryUserDB;
use crate::userlogin::user::User;
use crate::userlogin::user::UserView;
use crate::userlogin::user::opt_view;

/// Oldest client version the server still accepts.
pub const MIN_CLIENT_VERSION: u32 = 1;

/// Name of the request header carrying the session token.
pub const HEADER_SESSION: &'static str = "X-GR-Session";

/// User identifiers are plain strings.
pub type UserId = String;

/// Whether a client at `client_version` is recent enough to be served.
pub fn is_valid_version(client_version: u32) -> (r: bool)
    ensures
        r == (client_version >= MIN_CLIENT_VERSION),
{
    client_version >= MIN_CLIENT_VERSION
}

/// Maps the empty string to `None` and any other string to `Some` of it,
/// the convention used for optional request fields.
pub fn string_to_option(string: String) -> (r: Option<String>)
    ensures
        string@.len() == 0 ==> r is None,
        string@.len() > 0 ==> r == Some(string),
{
    if string.as_str().is_empty() {
        None
    } else {
        Some(string)
    }
}

/// The credentials a client presents: its user id and bearer secret.
pub struct UserCredentials {
    pub id: String,
    pub secret: String,
}

/// A login request: credentials plus client metadata.
pub struct LoginRequest {
    pub user: Option<UserCredentials>,
    pub client_version: u32,
    pub client_language: String,
}

/// The reply to a login request.
pub struct LoginResponse {
    pub is_outdated: bool,
}

/// The reply to a registration request: fresh credentials on success.
pub struct RegisterResponse {
    pub user: Option<UserCredentials>,
    pub is_outdated: bool,
}

/// Session validation outcomes.
pub enum SessionValidationResult {
    /// The session is live and active; carries the user id it belongs to.
    Valid { user_id: UserId },
    /// The session is known but was superseded by a newer login.
    Invalid,
    /// The session is unknown or has expired.
    Unknown,
}

/// What validation of `token` at time `now` must report, given the stored
/// session map.
pub enum SessionCheck {
    Valid { user_id: Seq<char> },
    Superseded,
    Absent,
}

/// The session-validation decision over the abstract store: absent and
/// expired records are indistinguishable, an invalidated record is
/// reported as superseded, and only a live valid record names its user.
pub open spec fn spec_validate(
    m: Map<Seq<char>, StoredSessionView>,
    token: Seq<char>,
    now: u64,
) -> SessionCheck {
    if !spec_live(m, token, now) {
        SessionCheck::Absent
    } else if !m[token].session.valid {
        SessionCheck::Superseded
    } else {
        SessionCheck::Valid { user_id: m[token].session.user_id }
    }
}

/// Whether the presented credentials authenticate against the stored
/// users: the id is known, the record carries that id, and the secret
/// matches exactly.
pub open spec fn spec_auth_ok(
    users: Map<Seq<char>, UserView>,
    id: Seq<char>,
    secret: Seq<char>,
) -> bool {
    &&& users.contains_key(id)
    &&& users[id].id == id
    &&& users[id].secret == secret
}

/// The user record written by a successful login: same identity, version
/// bumped by one, bound to the new session token, profile fields replaced
/// by the request's values.
pub open spec fn spec_login_user(
    u: UserView,
    t: Seq<char>,
    country: Option<Seq<char>>,
    language: Seq<char>,
) -> UserView {
    UserView {
        id: u.id,
        secret: u.secret,
        version: (u.version + 1) as u64,
        session: Some(t),
        country,
        language: if language.len() == 0 {
            None
        } else {
            Some(language)
        },
    }
}

/// The session map after a successful login for `uid`: the user's prior
/// session, if any, is invalidated, and the fresh token `t` is bound to a
/// new valid session.
pub open spec fn spec_login_sessions(
    m: Map<Seq<char>, StoredSessionView>,
    prior: Option<Seq<char>>,
    uid: Seq<char>,
    t: Seq<char>,
    now: u64,
) -> Map<Seq<char>, StoredSessionView> {
    let m1 = match prior {
        Some(s) => spec_invalidate(m, s),
        None => m,
    };
    m1.insert(
        t,
        StoredSessionView {
            session: SessionView { user_id: uid, valid: true },
            ttl: (now + SESSION_TTL_SECONDS) as u64,
        },
    )
}

/// Relation between the resource before and after a successful login of
/// `uid` that produced session token `t`.
pub open spec fn spec_login_post<E>(
    pre: UserLoginResource<E>,
    post: UserLoginResource<E>,
    uid: Seq<char>,
    country: Option<Seq<char>>,
    language: Seq<char>,
    now: u64,
    t: Seq<char>,
) -> bool {
    &&& t.len() == 36
    &&& post.sessions@ == spec_login_sessions(pre.sessions@, pre.users@[uid].session, uid, t, now)
    &&& post.users@ == pre.users@.insert(
        uid,
        spec_login_user(pre.users@[uid], t, country, language),
    )
}

/// Relation between the resource before and after a successful
/// registration that created user `uid` with `secret` and session `t`.
pub open spec fn spec_register_post<E>(
    pre: UserLoginResource<E>,
    post: UserLoginResource<E>,
    uid: Seq<char>,
    secret: Seq<char>,
    country: Option<Seq<char>>,
    language: Seq<char>,
    now: u64,
    t: Seq<char>,
) -> bool {
    &&& uid.len() == 36
    &&& secret.len() == 36
    &&& t.len() == 36
    &&& post.sessions@ == pre.sessions@.insert(
        t,
        StoredSessionView {
            session: SessionView { user_id: uid, valid: true },
            ttl: (now + SESSION_TTL_SECONDS) as u64,
        },
    )
    &&& post.users@ == pre.users@.insert(
        uid,
        UserView {
            id: uid,
            secret,
            version: 0,
            session: Some(t),
            country,
            language: if language.len() == 0 {
                None
            } else {
                Some(language)
            },
        },
    )
}

/// Law: one active session per user.  When a user logs in twice in
/// succession — the first login issuing token `t1`, the second
/// invalidating it and issuing a distinct token `t2` — then as long as
/// neither token's time-to-live has lapsed, `t1` validates as superseded
/// (not as unknown) and `t2` validates as the user's live session.
pub proof fn lemma_single_active_session(
    m: Map<Seq<char>, StoredSessionView>,
    prior: Option<Seq<char>>,
    uid: Seq<char>,
    t1: Seq<char>,
    t2: Seq<char>,
    now1: u64,
    now2: u64,
    v: u64,
)
    requires
        t1 != t2,
        now1 <= u64::MAX - SESSION_TTL_SECONDS,
        now2 <= u64::MAX - SESSION_TTL_SECONDS,
        v <= now1 + SESSION_TTL_SECONDS,
        v <= now2 + SESSION_TTL_SECONDS,
    ensures
        ({
            let m1 = spec_login_sessions(m, prior, uid, t1, now1);
            let m2 = spec_login_sessions(m1, Some(t1), uid, t2, now2);
            &&& spec_validate(m2, t1, v) == SessionCheck::Superseded
            &&& spec_validate(m2, t2, v) == (SessionCheck::Valid { user_id: uid })
        }),
{
    let m1 = spec_login_sessions(m, prior, uid, t1, now1);
    let m2 = spec_login_sessions(m1, Some(t1), uid, t2, now2);
    assert(m1.contains_key(t1));
    assert(m1[t1] == (StoredSessionView {
        session: SessionView { user_id: uid, valid: true },
        ttl: (now1 + SESSION_TTL_SECONDS) as u64,
    }));
    assert(m2[t1] == (StoredSessionView {
        session: SessionView { user_id: uid, valid: false },
        ttl: (now1 + SESSION_TTL_SECONDS) as u64,
    }));
    assert(m2[t2] == (StoredSessionView {
        session: SessionView { user_id: uid, valid: true },
        ttl: (now2 + SESSION_TTL_SECONDS) as u64,
    }));
}

/// Law: one active session per user, over the login flow itself.  When
/// two successful logins for the same user follow one another — each
/// described by `user_login`'s successful postcondition, the tokens
/// distinct — then while both tokens are within their windows, the first
/// token validates as superseded and the second as the user's live
/// session.
pub proof fn lemma_second_login_supersedes<E>(
    r0: UserLoginResource<E>,
    r1: UserLoginResource<E>,
    r2: UserLoginResource<E>,
    uid: Seq<char>,
    country1: Option<Seq<char>>,
    language1: Seq<char>,
    country2: Option<Seq<char>>,
    language2: Seq<char>,
    t1: Seq<char>,
    t2: Seq<char>,
    now1: u64,
    now2: u64,
    v: u64,
)
    requires
        spec_login_post(r0, r1, uid, country1, language1, now1, t1),
        spec_login_post(r1, r2, uid, country2, language2, now2, t2),
        t1 != t2,
        now1 <= u64::MAX - SESSION_TTL_SECONDS,
        now2 <= u64::MAX - SESSION_TTL_SECONDS,
        v <= now1 + SESSION_TTL_SECONDS,
        v <= now2 + SESSION_TTL_SECONDS,
    ensures
        spec_validate(r2.sessions@, t1, v) == SessionCheck::Superseded,
        spec_validate(r2.sessions@, t2, v) == (SessionCheck::Valid { user_id: uid }),
{
    assert(r1.users@[uid].session == Some(t1));
    lemma_single_active_session(
        r0.sessions@,
        r0.users@[uid].session,
        uid,
        t1,
        t2,
        now1,
        now2,
        v,
    );
}

/// Law: session time-to-live.  A session last read at `last_read` — the
/// read that refreshed its expiry — and not read again validates as
/// absent at any time past the window, even if it was never invalidated.
pub proof fn lemma_session_ttl(
    m: Map<Seq<char>, StoredSessionView>,
    t: Seq<char>,
    last_read: u64,
    now: u64,
)
    requires
        last_read <= u64::MAX - SESSION_TTL_SECONDS,
        now > last_read + SESSION_TTL_SECONDS,
    ensures
        spec_validate(spec_refresh(m, t, last_read), t, now) == SessionCheck::Absent,
{
}

/// Module marker for the user-login feature.
pub struct UserLogin {}

/// The session-filter decision used as request middleware: resolves the
/// token to its user id, or rejects with a cause distinguishing a
/// superseded session (`Invalid`) from an unknown or expired one
/// (`SessionNotFound`).  A successful check refreshes the session's
/// time-to-live.
pub fn handle_session<E: UserLoginEvents>(
    resource: &mut UserLoginResource<E>,
    token: &str,
    now: u64,
) -> (r: Result<UserId, crate::rejection::SessionFailure>)
    requires
        old(resource).wf(),
        now <= u64::MAX - SESSION_TTL_SECONDS,
    ensures
        final(resource).wf(),
        final(resource).users == old(resource).users,
        final(resource).events == old(resource).events,
        final(resource).ipdb == old(resource).ipdb,
        match spec_validate(old(resource).sessions@, token@, now) {
            SessionCheck::Valid { user_id } => {
                &&& r matches Ok(u) && u@ == user_id
                &&& final(resource).sessions@ == spec_refresh(old(resource).sessions@, token@, now)
            },
            SessionCheck::Superseded => {
                &&& r == Err::<UserId, crate::rejection::SessionFailure>(
                    crate::rejection::SessionFailure::Invalid,
                )
                &&& final(resource).sessions@ == spec_refresh(old(resource).sessions@, token@, now)
            },
            SessionCheck::Absent => {
                &&& r == Err::<UserId, crate::rejection::SessionFailure>(
                    crate::rejection::SessionFailure::SessionNotFound,
                )
                &&& final(resource).sessions@ == old(resource).sessions@
            },
        },
{
    match resource.validate_session(token, now) {
        SessionValidationResult::Valid { user_id } => Ok(user_id),
        SessionValidationResult::Invalid => Err(crate::rejection::SessionFailure::Invalid),
        SessionValidationResult::Unknown => Err(crate::rejection::SessionFailure::SessionNotFound),
    }
}

/// Listener interface for login and registration events, implemented by
/// the host application.  Notification runs after the session and user
/// records are already committed; a listener error is reported to the
/// caller but does not roll anything back.
pub trait UserLoginEvents {
    fn on_login(&self, user: &User) -> Result<(), Error>;

    fn on_register(&self, user: &User) -> Result<(), Error>;
}

/// An event listener that accepts every event.
pub struct NoEvents;

impl UserLoginEvents for NoEvents {
    fn on_login(&self, user: &User) -> Result<(), Error> {
        Ok(())
    }

    fn on_register(&self, user: &User) -> Result<(), Error> {
        Ok(())
    }
}

/// The login/registration resource: owns the session and user stores and
/// an optional event listener and geolocation handle.
pub struct UserLoginResource<E> {
    pub sessions: InMemorySessionDB,
    pub users: InMemoryUserDB,
    pub events: Option<E>,
    pub ipdb: Option<IpDB>,
}

impl<E: UserLoginEvents> UserLoginResource<E> {
    pub open spec fn wf(&self) -> bool {
        &&& self.sessions.wf()
        &&& self.users.wf()
    }

    /// A resource over the given stores, with no event listener and no
    /// geolocation service configured.
    pub fn new(sessions: InMemorySessionDB, users: InMemoryUserDB) -> (r: Self)
        ensures
            r.sessions == sessions,
            r.users == users,
            r.events is None,
            r.ipdb is None,
    {
        UserLoginResource { sessions, users, events: None, ipdb: None }
    }

    /// Registers the event listener.
    pub fn set_events(&mut self, events: E)
        ensures
            final(self).events == Some(events),
            final(self).sessions == old(self).sessions,
            final(self).users == old(self).users,
            final(self).ipdb == old(self).ipdb,
    {
        self.events = Some(events);
    }

    /// Configures the IP-geolocation service handle.
    pub fn set_ip_db(&mut self, ipdb: IpDB)
        ensures
            final(self).ipdb == Some(ipdb),
            final(self).sessions == old(self).sessions,
            final(self).users == old(self).users,
            final(self).events == old(self).events,
    {
        self.ipdb = Some(ipdb);
    }

    /// Checks the session under `token` at time `now`.  A live, valid
    /// session resolves to its user id and has its time-to-live
    /// refreshed; a superseded session is reported as `Invalid`; an
    /// unknown or expired one as `Unknown`.
    pub fn validate_session(&mut self, token: &str, now: u64) -> (r: SessionValidationResult)
        requires
            old(self).wf(),
            now <= u64::MAX - SESSION_TTL_SECONDS,
        ensures
            final(self).wf(),
            final(self).users == old(self).users,
            final(self).events == old(self).events,
            final(self).ipdb == old(self).ipdb,
            match spec_validate(old(self).sessions@, token@, now) {
                SessionCheck::Valid { user_id } => {
                    &&& r matches SessionValidationResult::Valid { user_id: u } && u@ == user_id
                    &&& final(self).sessions@ == spec_refresh(old(self).sessions@, token@, now)
                },
                SessionCheck::Superseded => {
                    &&& r is Invalid
                    &&& final(self).sessions@ == spec_refresh(old(self).sessions@, token@, now)
                },
                SessionCheck::Absent => {
                    &&& r is Unknown
                    &&& final(self).sessions@ == old(self).sessions@
                },
            },
    {
        match self.sessions.get(token, now) {
            Some(session) => {
                if session.valid {
                    SessionValidationResult::Valid { user_id: session.user_id }
                } else {
                    SessionValidationResult::Invalid
                }
            },
            None => SessionValidationResult::Unknown,
        }
    }

    /// Performs a login at time `now`, with the country already resolved
    /// by the caller from the client address.
    ///
    /// An outdated client is answered with `is_outdated` and an empty
    /// token, touching nothing.  Unknown ids and wrong secrets fail with
    /// `AuthenticationFailed`, touching nothing.  On success the user's
    /// prior session is invalidated, a fresh session is created, and the
    /// user record is re-saved with the new token, profile fields and a
    /// bumped version; only then is a registered listener notified, whose
    /// failure surfaces as `EventFailed` with the state already
    /// committed.
    pub fn user_login(&mut self, login_request: LoginRequest, country: Option<String>, now: u64)
        -> (r: Result<(LoginResponse, String), Error>)
        requires
            old(self).wf(),
            login_request.user is Some,
            now <= u64::MAX - SESSION_TTL_SECONDS,
            old(self).users@.contains_key(login_request.user.unwrap().id@) ==> old(
                self,
            ).users@[login_request.user.unwrap().id@].version < u64::MAX,
        ensures
            final(self).wf(),
            final(self).events == old(self).events,
            final(self).ipdb == old(self).ipdb,
            login_request.client_version < MIN_CLIENT_VERSION ==> {
                &&& r matches Ok(pair) && pair.0.is_outdated && pair.1@.len() == 0
                &&& final(self).sessions@ == old(self).sessions@
                &&& final(self).users@ == old(self).users@
            },
            login_request.client_version >= MIN_CLIENT_VERSION && !spec_auth_ok(
                old(self).users@,
                login_request.user.unwrap().id@,
                login_request.user.unwrap().secret@,
            ) ==> {
                &&& r == Err::<(LoginResponse, String), Error>(Error::AuthenticationFailed)
                &&& final(self).sessions@ == old(self).sessions@
                &&& final(self).users@ == old(self).users@
            },
            login_request.client_version >= MIN_CLIENT_VERSION && spec_auth_ok(
                old(self).users@,
                login_request.user.unwrap().id@,
                login_request.user.unwrap().secret@,
            ) ==> {
                &&& (r matches Ok(pair) ==> !pair.0.is_outdated && spec_login_post(
                    *old(self),
                    *final(self),
                    login_request.user.unwrap().id@,
                    opt_view(country),
                    login_request.client_language@,
                    now,
                    pair.1@,
                ))
                &&& (r matches Err(e) ==> e == Error::EventFailed && exists|t: Seq<char>|
                    spec_login_post(
                        *old(self),
                        *final(self),
                        login_request.user.unwrap().id@,
                        opt_view(country),
                        login_request.client_language@,
                        now,
                        t,
                    ))
                &&& (old(self).events is None ==> r is Ok)
            },
    {
        if !is_valid_version(login_request.client_version) {
            return Ok((LoginResponse { is_outdated: true }, String::new()));
        }
        let user_creds = match login_request.user {
            Some(c) => c,
            None => {
                return Err(Error::AuthenticationFailed);
            },
        };
        let mut user = match self.users.get_user(user_creds.id.as_str()) {
            Some(u) => u,
            None => {
                return Err(Error::AuthenticationFailed);
            },
        };
        if !(str_eq(user.secret.as_str(), user_creds.secret.as_str()) && str_eq(
            user.id.as_str(),
            user_creds.id.as_str(),
        )) {
            return Err(Error::AuthenticationFailed);
        }
        if let Some(prior) = &user.session {
            self.sessions.invalidate(prior.as_str());
        }
        let session_id = match self.sessions.create(Session::new(user.id.as_str()), now) {
            Ok(token) => token,
            Err(_) => {
                return Err(Error::AuthenticationFailed);
            },
        };
        user.session = Some(session_id.clone());
        user.country = country;
        user.language = string_to_option(login_request.client_language);
        user.version = user.version + 1;
        let saved = self.users.save_user(&user);
        proof {
            assert(saved is Ok);
        }
        let ghost token_view = session_id@;
        if let Some(events) = &self.events {
            if events.on_login(&user).is_err() {
                proof {
                    assert(spec_login_post(
                        *old(self),
                        *self,
                        login_request.user.unwrap().id@,
                        opt_view(country),
                        login_request.client_language@,
                        now,
                        token_view,
                    ));
                }
                return Err(Error::EventFailed);
            }
        }
        Ok((LoginResponse { is_outdated: false }, session_id))
    }

    /// Registers a new user at time `now`, with the country already
    /// resolved by the caller.
    ///
    /// An outdated client is answered with `is_outdated` and an empty
    /// token, touching nothing.  Otherwise a fresh random id and secret
    /// are generated, a session is created for the new user, and the
    /// record is persisted at version zero; only then is a registered
    /// listener notified, whose failure surfaces as `EventFailed` with
    /// the state already committed.
    pub fn user_register(
        &mut self,
        client_version: u32,
        client_language: String,
        country: Option<String>,
        now: u64,
    ) -> (r: Result<(RegisterResponse, String), Error>)
        requires
            old(self).wf(),
            now <= u64::MAX - SESSION_TTL_SECONDS,
        ensures
            final(self).wf(),
            final(self).events == old(self).events,
            final(self).ipdb == old(self).ipdb,
            client_version < MIN_CLIENT_VERSION ==> {
                &&& r matches Ok(pair) && pair.0.is_outdated && pair.0.user is None
                    && pair.1@.len() == 0
                &&& final(self).sessions@ == old(self).sessions@
                &&& final(self).users@ == old(self).users@
            },
            client_version >= MIN_CLIENT_VERSION ==> {
                &&& (r matches Ok(pair) ==> !pair.0.is_outdated && (pair.0.user matches Some(creds)
                    && spec_register_post(
                    *old(self),
                    *final(self),
                    creds.id@,
                    creds.secret@,
                    opt_view(country),
                    client_language@,
                    now,
                    pair.1@,
                )))
                &&& (r matches Err(e) ==> e == Error::EventFailed && exists|
                    uid: Seq<char>,
                    secret: Seq<char>,
                    t: Seq<char>,
                |
                    spec_register_post(
                        *old(self),
                        *final(self),
                        uid,
                        secret,
                        opt_view(country),
                        client_language@,
                        now,
                        t,
                    ))
                &&& (old(self).events is None ==> r is Ok)
            },
    {
        let ghost glang = client_language@;
        if !is_valid_version(client_version) {
            return Ok((RegisterResponse { user: None, is_outdated: true }, String::new()));
        }
        let client_language = string_to_option(client_language);
        let mut new_user = User::new(country, client_language);
        let session = match self.sessions.create(Session::new(new_user.id.as_str()), now) {
            Ok(token) => token,
            Err(_) => String::new(),
        };
        new_user.session = Some(session.clone());
        let saved = self.users.save_user(&new_user);
        proof {
            assert(saved is Ok);
        }
        let ghost guid = new_user.id@;
        let ghost gsecret = new_user.secret@;
        let ghost gtoken = session@;
        if let Some(events) = &self.events {
            if events.on_register(&new_user).is_err() {
                proof {
                    assert(spec_register_post(
                        *old(self),
                        *self,
                        guid,
                        gsecret,
                        opt_view(country),
                        glang,
                        now,
                        gtoken,
                    ));
                }
                return Err(Error::EventFailed);
            }
        }
        Ok(
            (
                RegisterResponse {
                    user: Some(UserCredentials { id: new_user.id, secret: new_user.secret }),
                    is_outdated: false,
                },
                session,
            ),
        )
    }
}

} // verus!
