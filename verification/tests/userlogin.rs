use atlasserver::error::Error;
use atlasserver::rejection::handle_rejection;
use atlasserver::rejection::RejectionResponse;
use atlasserver::rejection::SessionFailure;
use atlasserver::rejection::SessionFilterRejection;
use atlasserver::rejection::STATUS_SESSION_REJECTION;
use atlasserver::rejection::STATUS_UNHANDLED_REJECTION;
use atlasserver::userlogin::handle_session;
use atlasserver::userlogin::is_valid_version;
use atlasserver::userlogin::sessions::InMemorySessionDB;
use atlasserver::userlogin::sessions::Session;
use atlasserver::userlogin::string_to_option;
use atlasserver::userlogin::user::InMemoryUserDB;
use atlasserver::userlogin::user::User;
use atlasserver::userlogin::LoginRequest;
use atlasserver::userlogin::NoEvents;
use atlasserver::userlogin::SessionValidationResult;
use atlasserver::userlogin::UserCredentials;
use atlasserver::userlogin::UserLoginEvents;
use atlasserver::userlogin::UserLoginResource;

const NOW: u64 = 1_000_000;

fn resource() -> UserLoginResource<NoEvents> {
    UserLoginResource::new(InMemorySessionDB::new(), InMemoryUserDB::new())
}

fn login_request(id: &str, secret: &str, version: u32, language: &str) -> LoginRequest {
    LoginRequest {
        user: Some(UserCredentials {
            id: id.to_string(),
            secret: secret.to_string(),
        }),
        client_version: version,
        client_language: language.to_string(),
    }
}

#[test]
fn test_user_reg() {
    let mut resource = resource();

    let (response, session) = resource
        .user_register(1000000, "en-CA".to_string(), None, NOW)
        .unwrap();

    assert_ne!(session, String::default());
    let user = response.user.unwrap();

    let db_user = resource.users.get_user(&user.id).unwrap();
    assert_eq!(db_user.id, user.id);
    assert_eq!(db_user.language, Some("en-CA".to_string()));
    assert_eq!(db_user.session, Some(session.clone()));
    assert_eq!(db_user.secret, user.secret);
    assert_eq!(
        resource.sessions.get(&session, NOW).unwrap().user_id,
        user.id
    );
}

#[test]
fn test_register_language_country() {
    // A registration with a language and no country lookup stores the
    // language, no country, version zero, and a resolvable session.
    let mut resource = resource();

    let (response, session) = resource
        .user_register(1000000, "en-CA".to_string(), None, NOW)
        .unwrap();
    let user = response.user.unwrap();

    let db_user = resource.users.get_user(&user.id).unwrap();
    assert_eq!(db_user.language, Some("en-CA".to_string()));
    assert_eq!(db_user.country, None);
    assert_eq!(db_user.version, 0);
    assert_eq!(session.len(), 36);
    match resource.validate_session(&session, NOW) {
        SessionValidationResult::Valid { user_id } => assert_eq!(user_id, user.id),
        _ => panic!("expected a valid session"),
    }
}

#[test]
fn test_user_login() {
    let mut resource = resource();

    let secret = uuid::Uuid::new_v4().to_string();
    let id = uuid::Uuid::new_v4().to_string();
    resource
        .users
        .save_user(&User {
            id: id.clone(),
            secret: secret.clone(),
            ..User::default()
        })
        .ok();

    let (response, session) = resource
        .user_login(login_request(&id, &secret, 10000, "en-CA"), None, NOW)
        .unwrap();

    assert_ne!(session, String::default());
    assert_eq!(response.is_outdated, false);

    let db_session = resource.sessions.get(&session, NOW).unwrap();
    let db_user = resource.users.get_user(&db_session.user_id).unwrap();
    assert_eq!(db_user.language, Some("en-CA".to_string()));
    assert_eq!(db_user.session, Some(session.clone()));
}

#[test]
fn test_login_from_other_device() {
    let mut resource = resource();
    resource
        .sessions
        .insert("sid".to_string(), Session::new("uid"), NOW);

    let secret = uuid::Uuid::new_v4().to_string();
    let id = uuid::Uuid::new_v4().to_string();
    resource
        .users
        .save_user(&User {
            id: id.clone(),
            secret: secret.clone(),
            session: Some("sid".to_string()),
            ..User::default()
        })
        .ok();

    let (_, _) = resource
        .user_login(login_request(&id, &secret, 10000, ""), None, NOW)
        .unwrap();

    assert!(!resource.sessions.get("sid", NOW).unwrap().valid);
}

#[test]
fn test_login_outdated_version() {
    // An outdated client gets an outdated reply, an empty token, and no
    // record is created or changed.
    let mut resource = resource();
    resource
        .users
        .save_user(&User {
            id: "uid".to_string(),
            secret: "secret".to_string(),
            ..User::default()
        })
        .unwrap();

    let (response, session) = resource
        .user_login(login_request("uid", "secret", 0, "en-CA"), None, NOW)
        .unwrap();

    assert!(response.is_outdated);
    assert_eq!(session, String::new());
    let stored = resource.users.get_user("uid").unwrap();
    assert_eq!(stored.version, 0);
    assert_eq!(stored.session, None);
    assert_eq!(stored.language, None);
}

#[test]
fn test_login_wrong_secret() {
    let mut resource = resource();
    resource
        .users
        .save_user(&User {
            id: "uid".to_string(),
            secret: "right".to_string(),
            ..User::default()
        })
        .unwrap();

    let r = resource.user_login(login_request("uid", "wrong", 2, ""), None, NOW);
    assert!(matches!(r, Err(Error::AuthenticationFailed)));

    let r = resource.user_login(login_request("nobody", "x", 2, ""), None, NOW);
    assert!(matches!(r, Err(Error::AuthenticationFailed)));
}

#[test]
fn test_version_monotonicity() {
    // A stale save is rejected with a conflict; a save one ahead of the
    // stored version succeeds and moves the stored version up by one.
    let mut users = InMemoryUserDB::new();
    let base = User {
        id: "uid".to_string(),
        secret: "s".to_string(),
        ..User::default()
    };
    users.save_user(&base).unwrap();
    assert_eq!(users.get_user("uid").unwrap().version, 0);

    let stale = User {
        version: 2,
        ..base.clone()
    };
    assert!(matches!(users.save_user(&stale), Err(Error::Conflict)));
    assert_eq!(users.get_user("uid").unwrap().version, 0);

    let next = User {
        version: 1,
        ..base.clone()
    };
    assert!(users.save_user(&next).is_ok());
    assert_eq!(users.get_user("uid").unwrap().version, 1);

    let replay = User {
        version: 1,
        ..base
    };
    assert!(matches!(users.save_user(&replay), Err(Error::Conflict)));
    assert_eq!(users.get_user("uid").unwrap().version, 1);
}

#[test]
fn test_session_ttl_expiry() {
    // A session not read for longer than the window validates as absent,
    // even though it was never invalidated.
    let mut resource = resource();
    resource
        .sessions
        .insert("sid".to_string(), Session::new("uid"), NOW);

    match resource.validate_session("sid", NOW + 300) {
        SessionValidationResult::Valid { user_id } => assert_eq!(user_id, "uid"),
        _ => panic!("session should still be live at the window's edge"),
    }
    // The read above refreshed the window; sleep past it.
    let later = NOW + 300 + 301;
    assert!(matches!(
        resource.validate_session("sid", later),
        SessionValidationResult::Unknown
    ));
}

#[test]
fn test_validate_session_outcomes() {
    let mut resource = resource();
    resource
        .sessions
        .insert("live".to_string(), Session::new("uid"), NOW);
    resource.sessions.invalidate("live");
    assert!(matches!(
        resource.validate_session("live", NOW),
        SessionValidationResult::Invalid
    ));
    assert!(matches!(
        resource.validate_session("missing", NOW),
        SessionValidationResult::Unknown
    ));
}

#[test]
fn test_session_filter_outcomes() {
    let mut resource = resource();
    resource
        .sessions
        .insert("sid".to_string(), Session::new("uid"), NOW);

    assert_eq!(handle_session(&mut resource, "sid", NOW).unwrap(), "uid");

    assert!(matches!(
        handle_session(&mut resource, "sid1", NOW),
        Err(SessionFailure::SessionNotFound)
    ));

    resource.sessions.invalidate("sid");
    assert!(matches!(
        handle_session(&mut resource, "sid", NOW),
        Err(SessionFailure::Invalid)
    ));
}

#[test]
fn test_handle_rejection_replies() {
    let (body, status) = handle_rejection(Some(SessionFailure::SessionNotFound));
    assert_eq!(
        body,
        RejectionResponse {
            session_filter_rejection: SessionFilterRejection::SessionNotFound
        }
    );
    assert_eq!(status, STATUS_SESSION_REJECTION);

    let (body, status) = handle_rejection(Some(SessionFailure::Invalid));
    assert_eq!(
        body.session_filter_rejection,
        SessionFilterRejection::Invalid
    );
    assert_eq!(status, STATUS_SESSION_REJECTION);

    let (body, status) = handle_rejection(None);
    assert_eq!(
        body.session_filter_rejection,
        SessionFilterRejection::NoRejection
    );
    assert_eq!(status, STATUS_UNHANDLED_REJECTION);
}

struct FailingEvents;

impl UserLoginEvents for FailingEvents {
    fn on_login(&self, _user: &User) -> Result<(), Error> {
        Err(Error::NotImplemented)
    }

    fn on_register(&self, _user: &User) -> Result<(), Error> {
        Err(Error::NotImplemented)
    }
}

#[test]
fn test_event_failure_after_commit() {
    // A failing listener surfaces as an error, but the session and the
    // user record are already committed.
    let mut resource: UserLoginResource<FailingEvents> =
        UserLoginResource::new(InMemorySessionDB::new(), InMemoryUserDB::new());
    resource
        .users
        .save_user(&User {
            id: "uid".to_string(),
            secret: "s".to_string(),
            ..User::default()
        })
        .unwrap();
    resource.set_events(FailingEvents);

    let r = resource.user_login(login_request("uid", "s", 5, "de-DE"), None, NOW);
    assert!(matches!(r, Err(Error::EventFailed)));

    let stored = resource.users.get_user("uid").unwrap();
    assert_eq!(stored.version, 1);
    let token = stored.session.unwrap();
    match resource.validate_session(&token, NOW) {
        SessionValidationResult::Valid { user_id } => assert_eq!(user_id, "uid"),
        _ => panic!("session should have been committed before the event"),
    }
}

#[test]
fn test_is_valid_version_bounds() {
    assert!(!is_valid_version(0));
    assert!(is_valid_version(1));
    assert!(is_valid_version(1000000));
}

#[test]
fn test_string_to_option_convention() {
    assert_eq!(string_to_option(String::new()), None);
    assert_eq!(
        string_to_option("en-CA".to_string()),
        Some("en-CA".to_string())
    );
}
