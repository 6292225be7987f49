use authstore::auth::verify_jwt;
use authstore::errors::ApiError;
use authstore::gateway::{change_password, init_admin_user, login, register};
use authstore::groups::UserGroups;
use authstore::password::{hash_password, verify_password};
use authstore::store::{AccountStore, NewUser};

const SECRET: &[u8] = b"a-signing-secret";
const NOW: usize = 1_700_000_000;

#[test]
fn password_hash_round_trip() {
    let h = hash_password("hunter2").unwrap();
    assert!(verify_password("hunter2", &h).unwrap());
    assert!(!verify_password("hunter3", &h).unwrap());
}

#[test]
fn malformed_stored_hash_is_an_error_not_a_mismatch() {
    assert_eq!(verify_password("pw", "not-a-bcrypt-hash"), Err(ApiError::Internal));
}

#[test]
fn bootstrap_scenario_admin_then_register_then_login() {
    let mut store = AccountStore::new();
    init_admin_user(&mut store).unwrap();
    assert_eq!(store.users.len(), 1);

    // Bootstrapping twice changes nothing.
    init_admin_user(&mut store).unwrap();
    assert_eq!(store.users.len(), 1);

    let token = login(&store, "admin", "admin123", NOW, SECRET).unwrap();
    let claims = verify_jwt(&token, NOW, SECRET).unwrap();
    assert_eq!(claims.sub, "admin");
    assert_eq!(claims.group, "admin");

    register(&mut store, &token, "bob", "pw", "user", NOW, SECRET).unwrap();
    let bob_token = login(&store, "bob", "pw", NOW, SECRET).unwrap();
    let bob_claims = verify_jwt(&bob_token, NOW, SECRET).unwrap();
    assert_eq!(bob_claims.sub, "bob");
    assert_eq!(bob_claims.group, "user");
}

#[test]
fn duplicate_registration_conflicts_and_keeps_one_account() {
    let mut store = AccountStore::new();
    init_admin_user(&mut store).unwrap();
    let token = login(&store, "admin", "admin123", NOW, SECRET).unwrap();

    register(&mut store, &token, "carol", "pw1", "user", NOW, SECRET).unwrap();
    let second = register(&mut store, &token, "carol", "pw2", "user", NOW, SECRET);
    assert_eq!(second, Err(ApiError::Conflict));

    let carols = store.users.iter().filter(|u| u.username == "carol").count();
    assert_eq!(carols, 1);
    // The surviving record is the first one: its password still matches.
    let ok = login(&store, "carol", "pw1", NOW, SECRET);
    assert!(ok.is_ok());
    assert_eq!(login(&store, "carol", "pw2", NOW, SECRET), Err(ApiError::Unauthenticated));
}

#[test]
fn failed_logins_are_indistinguishable() {
    let mut store = AccountStore::new();
    init_admin_user(&mut store).unwrap();
    let wrong_password = login(&store, "admin", "wrong", NOW, SECRET);
    let unknown_user = login(&store, "nobody", "admin123", NOW, SECRET);
    assert_eq!(wrong_password, Err(ApiError::Unauthenticated));
    assert_eq!(unknown_user, Err(ApiError::Unauthenticated));
    assert_eq!(wrong_password, unknown_user);
}

#[test]
fn register_requires_admin_role() {
    let mut store = AccountStore::new();
    init_admin_user(&mut store).unwrap();
    let admin_token = login(&store, "admin", "admin123", NOW, SECRET).unwrap();
    register(&mut store, &admin_token, "dave", "pw", "user", NOW, SECRET).unwrap();

    let dave_token = login(&store, "dave", "pw", NOW, SECRET).unwrap();
    let refused = register(&mut store, &dave_token, "eve", "pw", "user", NOW, SECRET);
    assert_eq!(refused, Err(ApiError::Forbidden));
    assert_eq!(store.users.len(), 2);
}

#[test]
fn register_rejects_missing_or_stale_token_and_bad_role() {
    let mut store = AccountStore::new();
    init_admin_user(&mut store).unwrap();
    let token = login(&store, "admin", "admin123", NOW, SECRET).unwrap();

    assert_eq!(
        register(&mut store, "", "eve", "pw", "user", NOW, SECRET),
        Err(ApiError::Unauthenticated)
    );
    // The admin token itself, once expired, is refused the same way.
    let much_later = NOW + 10 * 24 * 60 * 60;
    assert_eq!(
        register(&mut store, &token, "eve", "pw", "user", much_later, SECRET),
        Err(ApiError::Unauthenticated)
    );
    assert_eq!(
        register(&mut store, &token, "eve", "pw", "superuser", NOW, SECRET),
        Err(ApiError::BadRequest)
    );
    assert_eq!(store.users.len(), 1);
}

#[test]
fn forged_token_cannot_register() {
    let mut store = AccountStore::new();
    init_admin_user(&mut store).unwrap();
    // A syntactically perfect admin token, signed under another secret.
    let forged = authstore::auth::create_jwt("admin", "admin", NOW, b"other-secret");
    assert_eq!(
        register(&mut store, &forged, "eve", "pw", "user", NOW, SECRET),
        Err(ApiError::Unauthenticated)
    );
    assert_eq!(store.users.len(), 1);
}

#[test]
fn change_password_rotates_the_credential() {
    let mut store = AccountStore::new();
    init_admin_user(&mut store).unwrap();
    let token = login(&store, "admin", "admin123", NOW, SECRET).unwrap();

    change_password(&mut store, &token, "new-secret-pw", NOW, SECRET).unwrap();
    assert!(login(&store, "admin", "new-secret-pw", NOW, SECRET).is_ok());
    assert_eq!(login(&store, "admin", "admin123", NOW, SECRET), Err(ApiError::Unauthenticated));

    assert_eq!(
        change_password(&mut store, "garbage", "pw", NOW, SECRET),
        Err(ApiError::Unauthenticated)
    );
}

#[test]
fn store_insert_and_lookup() {
    let mut store = AccountStore::new();
    let h = hash_password("pw").unwrap();
    store
        .insert(NewUser { username: "frank".to_owned(), password: h, group: UserGroups::User })
        .unwrap();
    assert!(store.find_by_username("frank").is_some());
    assert!(store.find_by_username("grace").is_none());

    let dup = store.insert(NewUser {
        username: "frank".to_owned(),
        password: "x".to_owned(),
        group: UserGroups::Admin,
    });
    assert_eq!(dup, Err(ApiError::Conflict));
    assert_eq!(store.users.len(), 1);
}

#[test]
fn update_password_reports_whether_found() {
    let mut store = AccountStore::new();
    init_admin_user(&mut store).unwrap();
    assert!(store.update_password("admin", "h".to_owned()));
    assert!(!store.update_password("nobody", "h".to_owned()));
    assert_eq!(store.users.len(), 1);
}
