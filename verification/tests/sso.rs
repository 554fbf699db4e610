use atlasserver::error::Error;
use atlasserver::sso::InMemorySsoDB;
use atlasserver::sso::Provider;
use atlasserver::sso::SetSsoResult;
use atlasserver::sso::SsoEntry;
use atlasserver::sso::SsoKey;
use atlasserver::sso::SsoResource;
use atlasserver::userlogin::user::InMemoryUserDB;
use atlasserver::userlogin::user::User;

#[test]
fn test_set_entry() {
    let mut db = InMemorySsoDB::default();

    let u = String::from("u1");
    let u2 = String::from("u2");
    let p = String::from("p");

    let r = db
        .set_entry(SsoEntry {
            user_id: u.clone(),
            provider_id: p.clone(),
            provider: Provider::Facebook,
        })
        .unwrap();

    assert_eq!(r, SetSsoResult::Success);

    let r = db
        .set_entry(SsoEntry {
            user_id: u.clone(),
            provider_id: p.clone(),
            provider: Provider::Facebook,
        })
        .unwrap();

    assert_eq!(r, SetSsoResult::Success);

    let r = db
        .set_entry(SsoEntry {
            user_id: u2.clone(),
            provider_id: p.clone(),
            provider: Provider::Facebook,
        })
        .unwrap();

    assert_eq!(r, SetSsoResult::AlreadyAssignedDifferently);
}

#[test]
fn test_providers_do_not_collide() {
    // The same provider id under two providers are two distinct links.
    let mut db = InMemorySsoDB::new();
    db.set_entry(SsoEntry {
        user_id: "u1".to_string(),
        provider_id: "p".to_string(),
        provider: Provider::Facebook,
    })
    .unwrap();
    let r = db
        .set_entry(SsoEntry {
            user_id: "u2".to_string(),
            provider_id: "p".to_string(),
            provider: Provider::SignInWithApple,
        })
        .unwrap();
    assert_eq!(r, SetSsoResult::Success);

    let fb = db.get_entry(SsoKey::facebook("p")).unwrap();
    assert_eq!(fb.user_id, "u1");
}

#[test]
fn test_sso_get_user() {
    let mut users = InMemoryUserDB::new();
    users
        .save_user(&User {
            id: "uid".to_string(),
            secret: "s".to_string(),
            ..User::default()
        })
        .unwrap();

    let mut resource = SsoResource::new(InMemorySsoDB::new(), users);
    resource
        .set_sso(SsoEntry {
            user_id: "uid".to_string(),
            provider_id: "fb-1".to_string(),
            provider: Provider::Facebook,
        })
        .unwrap();
    resource
        .set_sso(SsoEntry {
            user_id: "ghost".to_string(),
            provider_id: "fb-2".to_string(),
            provider: Provider::Facebook,
        })
        .unwrap();

    let user = resource.get_user(SsoKey::facebook("fb-1")).unwrap();
    assert_eq!(user.id, "uid");

    // Linked, but the user store does not hold the user.
    assert!(matches!(
        resource.get_user(SsoKey::facebook("fb-2")),
        Err(Error::UnknownUser)
    ));

    // Not linked at all.
    assert!(matches!(
        resource.get_user(SsoKey::facebook("fb-3")),
        Err(Error::NotFound)
    ));
}

#[test]
fn test_get_entries_order() {
    let mut db = InMemorySsoDB::new();
    db.set_entry(SsoEntry {
        user_id: "u1".to_string(),
        provider_id: "a".to_string(),
        provider: Provider::Facebook,
    })
    .unwrap();
    db.set_entry(SsoEntry {
        user_id: "u2".to_string(),
        provider_id: "b".to_string(),
        provider: Provider::Facebook,
    })
    .unwrap();

    let keys = vec![
        SsoKey::facebook("b"),
        SsoKey::facebook("missing"),
        SsoKey::facebook("a"),
    ];
    let found = db.get_entries(&keys);
    assert_eq!(found.len(), 2);
    assert_eq!(found[0].user_id, "u2");
    assert_eq!(found[1].user_id, "u1");
}

#[test]
fn test_remove_entry() {
    let mut db = InMemorySsoDB::new();
    let entry = SsoEntry {
        user_id: "u1".to_string(),
        provider_id: "p".to_string(),
        provider: Provider::Facebook,
    };
    db.set_entry(entry.clone()).unwrap();
    db.remove_entry(entry).unwrap();
    assert!(matches!(
        db.get_entry(SsoKey::facebook("p")),
        Err(Error::NotFound)
    ));
}
