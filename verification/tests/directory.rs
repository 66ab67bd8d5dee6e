use user_auth::credential::PasswordDigest;
use user_auth::directory::{DirectoryError, UserDirectory, UserRecord};
use user_auth::domain::email::UserEmail;
use user_auth::domain::name::UserName;

fn record(name: &str, email: &str, password: &str, salt: u128) -> UserRecord {
    UserRecord {
        name: UserName::parse(name.to_string()).unwrap(),
        email: UserEmail::parse(email.to_string()).unwrap(),
        digest: PasswordDigest::derive(password, salt).unwrap(),
    }
}

#[test]
fn a_new_directory_is_empty() {
    let users = UserDirectory::new();
    assert_eq!(users.len(), 0);
    assert!(!users.contains("ann@x.com"));
    assert!(users.find_by_email("ann@x.com").is_none());
}

#[test]
fn insert_adds_one_record_under_its_address() {
    let mut users = UserDirectory::new();
    assert_eq!(users.insert(record("Ann", "ann@x.com", "Str0ngPass!", 1)), Ok(()));
    assert_eq!(users.len(), 1);
    assert!(users.contains("ann@x.com"));
    assert!(!users.contains("ANN@x.com"));
    let found = users.find_by_email("ann@x.com").unwrap();
    assert_eq!(found.name.as_str(), "Ann");
    assert_eq!(found.email.as_str(), "ann@x.com");
    assert_eq!(found.digest.as_str(), PasswordDigest::derive("Str0ngPass!", 1).unwrap().as_str());
}

#[test]
fn insert_refuses_a_registered_address_and_changes_nothing() {
    let mut users = UserDirectory::new();
    users.insert(record("Ann", "ann@x.com", "Str0ngPass!", 1)).unwrap();
    let kept = users.find_by_email("ann@x.com").unwrap().digest.as_str().to_string();
    assert_eq!(
        users.insert(record("Other Ann", "ann@x.com", "An0therPass!", 2)),
        Err(DirectoryError::EmailTaken)
    );
    assert_eq!(users.len(), 1);
    let found = users.find_by_email("ann@x.com").unwrap();
    assert_eq!(found.name.as_str(), "Ann");
    assert_eq!(found.digest.as_str(), kept);
}

#[test]
fn update_password_hash_replaces_only_the_digest() {
    let mut users = UserDirectory::new();
    users.insert(record("Ann", "ann@x.com", "Str0ngPass!", 1)).unwrap();
    users.insert(record("Bob", "bob@x.com", "B0bsPass!", 2)).unwrap();
    let bobs = users.find_by_email("bob@x.com").unwrap().digest.as_str().to_string();
    let fresh = PasswordDigest::derive("N3wPass!", 3).unwrap();
    let expected = fresh.as_str().to_string();
    assert_eq!(users.update_password_hash("ann@x.com", fresh), Ok(()));
    assert_eq!(users.len(), 2);
    let ann = users.find_by_email("ann@x.com").unwrap();
    assert_eq!(ann.name.as_str(), "Ann");
    assert_eq!(ann.email.as_str(), "ann@x.com");
    assert_eq!(ann.digest.as_str(), expected);
    let bob = users.find_by_email("bob@x.com").unwrap();
    assert_eq!(bob.name.as_str(), "Bob");
    assert_eq!(bob.digest.as_str(), bobs);
}

#[test]
fn update_password_hash_needs_a_registered_address() {
    let mut users = UserDirectory::new();
    users.insert(record("Ann", "ann@x.com", "Str0ngPass!", 1)).unwrap();
    let fresh = PasswordDigest::derive("N3wPass!", 3).unwrap();
    assert_eq!(users.update_password_hash("bob@x.com", fresh), Err(DirectoryError::NotFound));
    assert_eq!(users.len(), 1);
    assert!(!users.contains("bob@x.com"));
}
