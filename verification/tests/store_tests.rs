use axum_web::store::CredentialStore;
use axum_web::user::User;

fn user(id: &str, name: &str) -> User {
    User {
        id: id.to_string(),
        username: name.to_string(),
        email: format!("{}@example.net", name),
        pswd_hash: format!("hash-{}", name),
        pswd_salt: "salt".to_string(),
        created_at: 0,
        updated_at: 0,
    }
}

#[test]
fn add_user_stamps_and_rejects_duplicates() {
    let mut store = CredentialStore::new();
    let added = store.add_user(user("u1", "alice"), 1_000).unwrap();
    assert_eq!(added.created_at, 1_000);
    assert_eq!(added.updated_at, 1_000);
    // the same id, and separately the same username, are both refused
    assert!(store.add_user(user("u1", "carol"), 1_001).is_none());
    assert!(store.add_user(user("u2", "alice"), 1_001).is_none());
    assert!(store.add_user(user("u2", "carol"), 1_001).is_some());
    assert_eq!(store.all_users().unwrap().len(), 2);
}

#[test]
fn get_user_finds_by_id_and_username() {
    let mut store = CredentialStore::new();
    store.add_user(user("u1", "alice"), 1_000).unwrap();
    store.add_user(user("u2", "bob"), 1_000).unwrap();
    assert_eq!(store.get_user(&"u2".to_string()).unwrap().username, "bob");
    assert!(store.get_user(&"u3".to_string()).is_none());
    assert_eq!(
        store.get_user_by_username(&"alice".to_string()).unwrap().id,
        "u1"
    );
    assert!(store.get_user_by_username(&"carol".to_string()).is_none());
}

#[test]
fn update_user_keeps_creation_time() {
    let mut store = CredentialStore::new();
    store.add_user(user("u1", "alice"), 1_000).unwrap();
    let mut newer = user("u1", "alice2");
    newer.email = "new@example.net".to_string();
    let updated = store.update_user(&"u1".to_string(), newer, 2_000).unwrap();
    assert_eq!(updated.username, "alice2");
    assert_eq!(updated.email, "new@example.net");
    assert_eq!(updated.created_at, 1_000);
    assert_eq!(updated.updated_at, 2_000);
    // updating an unknown id fails
    assert!(store.update_user(&"u9".to_string(), user("u9", "dan"), 2_000).is_none());
}

#[test]
fn update_user_rejects_collisions() {
    let mut store = CredentialStore::new();
    store.add_user(user("u1", "alice"), 1_000).unwrap();
    store.add_user(user("u2", "bob"), 1_000).unwrap();
    // stealing bob's username is refused; so is stealing his id
    assert!(store.update_user(&"u1".to_string(), user("u1", "bob"), 2_000).is_none());
    assert!(store.update_user(&"u1".to_string(), user("u2", "alice"), 2_000).is_none());
    // a record may be renamed onto a fresh name, even changing its id
    assert!(store.update_user(&"u1".to_string(), user("u3", "carol"), 2_000).is_some());
    assert!(store.get_user(&"u3".to_string()).is_some());
    assert!(store.get_user(&"u1".to_string()).is_none());
}

#[test]
fn delete_user_counts_removed_rows() {
    let mut store = CredentialStore::new();
    store.add_user(user("u1", "alice"), 1_000).unwrap();
    assert_eq!(store.delete_user(&"u1".to_string()), Some(1));
    assert_eq!(store.delete_user(&"u1".to_string()), Some(0));
    assert_eq!(store.all_users().unwrap().len(), 0);
}
