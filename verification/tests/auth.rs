use user_auth::auth::{
    change_password, conclude_login, enroll, login, logout, register, AuthError, LoggedUser,
    Unauthenticated,
};
use user_auth::credential::PasswordDigest;
use user_auth::directory::{UserDirectory, UserRecord};
use user_auth::domain::email::UserEmail;
use user_auth::domain::name::UserName;
use user_auth::domain::password::UserPassword;
use user_auth::session::{SessionId, SessionStore, SessionToken};

fn name(raw: &str) -> UserName {
    UserName::parse(raw.to_string()).unwrap()
}

fn email(raw: &str) -> UserEmail {
    UserEmail::parse(raw.to_string()).unwrap()
}

fn password(raw: &str) -> UserPassword {
    UserPassword::parse(raw.to_string()).unwrap()
}

/// A directory with Ann in it, enrolled with the digest of "Str0ngPass!".
fn with_ann() -> UserDirectory {
    let mut users = UserDirectory::new();
    let digest = PasswordDigest::derive("Str0ngPass!", 42).unwrap();
    enroll(&mut users, name("Ann"), email("ann@x.com"), digest).unwrap();
    users
}

/// A session store in which session 1 holds the token of `address`.
fn logged_in_as(address: &str) -> SessionStore {
    let mut sessions = SessionStore::new();
    sessions.open_as(SessionId(1)).unwrap();
    sessions.insert_token(SessionId(1), SessionToken::new(email(address))).unwrap();
    sessions
}

#[test]
fn register_then_register_again_with_the_same_email() {
    let mut users = UserDirectory::new();
    let first = register(&mut users, name("Ann"), email("ann@x.com"), &password("Str0ngPass!"));
    let response = first.unwrap();
    assert_eq!(response.name, "Ann");
    assert_eq!(response.email, "ann@x.com");
    assert_eq!(users.len(), 1);
    let kept = users.find_by_email("ann@x.com").unwrap().digest.as_str().to_string();

    let second = register(&mut users, name("Ann"), email("ann@x.com"), &password("0therPass?"));
    assert_eq!(second.err(), Some(AuthError::EmailAlreadyExists));
    assert_eq!(users.len(), 1);
    assert_eq!(users.find_by_email("ann@x.com").unwrap().digest.as_str(), kept);
}

#[test]
fn register_keeps_a_digest_and_not_the_password() {
    let mut users = UserDirectory::new();
    register(&mut users, name("Ann"), email("ann@x.com"), &password("Str0ngPass!")).unwrap();
    let record = users.find_by_email("ann@x.com").unwrap();
    assert_eq!(record.name.as_str(), "Ann");
    assert_eq!(record.email.as_str(), "ann@x.com");
    assert!(!record.digest.as_str().contains("Str0ngPass!"));
    assert!(record.digest.accepts("Str0ngPass!"));
    assert!(!record.digest.accepts("Str0ngPass?"));
}

#[test]
fn enroll_refuses_a_registered_address() {
    let mut users = with_ann();
    let digest = PasswordDigest::derive("0therPass?", 43).unwrap();
    let again = enroll(&mut users, name("Annie"), email("ann@x.com"), digest);
    assert_eq!(again.err(), Some(AuthError::EmailAlreadyExists));
    assert_eq!(users.len(), 1);
    assert_eq!(users.find_by_email("ann@x.com").unwrap().name.as_str(), "Ann");
    let digest = PasswordDigest::derive("0therPass?", 43).unwrap();
    let bob = enroll(&mut users, name("Bob"), email("bob@x.com"), digest).unwrap();
    assert_eq!(bob.name, "Bob");
    assert_eq!(bob.email, "bob@x.com");
    assert_eq!(users.len(), 2);
}

#[test]
fn login_with_the_right_password_yields_response_and_token() {
    let users = with_ann();
    let (response, token) = login(&users, &email("ann@x.com"), &password("Str0ngPass!")).unwrap();
    assert_eq!(response.name, "Ann");
    assert_eq!(response.email, "ann@x.com");
    assert_eq!(token.email().as_str(), "ann@x.com");
}

#[test]
fn unknown_email_and_wrong_password_give_the_same_error() {
    let users = with_ann();
    let wrong_password = login(&users, &email("ann@x.com"), &password("wrong")).err();
    let unknown_email = login(&users, &email("bob@x.com"), &password("Str0ngPass!")).err();
    assert_eq!(wrong_password, Some(AuthError::InvalidCredentials));
    assert_eq!(unknown_email, Some(AuthError::InvalidCredentials));
    assert_eq!(wrong_password, unknown_email);
}

#[test]
fn conclude_login_needs_a_record_and_a_verified_password() {
    let record = UserRecord {
        name: name("Ann"),
        email: email("ann@x.com"),
        digest: PasswordDigest::derive("Str0ngPass!", 42).unwrap(),
    };
    assert_eq!(conclude_login(None, false).err(), Some(AuthError::InvalidCredentials));
    assert_eq!(conclude_login(None, true).err(), Some(AuthError::InvalidCredentials));
    assert_eq!(conclude_login(Some(&record), false).err(), Some(AuthError::InvalidCredentials));
    let (response, token) = conclude_login(Some(&record), true).unwrap();
    assert_eq!(response.name, "Ann");
    assert_eq!(response.email, "ann@x.com");
    assert_eq!(token.email().as_str(), "ann@x.com");
}

#[test]
fn extract_resolves_a_session_with_a_token_of_a_registered_user() {
    let users = with_ann();
    let sessions = logged_in_as("ann@x.com");
    let user = LoggedUser::extract(&sessions, &users, SessionId(1)).unwrap();
    assert_eq!(user.session(), SessionId(1));
    assert_eq!(user.email().as_str(), "ann@x.com");
}

#[test]
fn extract_fails_without_a_token_of_a_registered_user() {
    let users = with_ann();
    // A session that the store does not know.
    let sessions = SessionStore::new();
    assert_eq!(LoggedUser::extract(&sessions, &users, SessionId(1)).err(), Some(Unauthenticated));
    // A session without a token.
    let mut sessions = SessionStore::new();
    sessions.open_as(SessionId(1)).unwrap();
    assert_eq!(LoggedUser::extract(&sessions, &users, SessionId(1)).err(), Some(Unauthenticated));
    // A token of somebody who is not registered.
    let sessions = logged_in_as("bob@x.com");
    assert_eq!(LoggedUser::extract(&sessions, &users, SessionId(1)).err(), Some(Unauthenticated));
    // Another session than the one that holds the token.
    let sessions = logged_in_as("ann@x.com");
    assert_eq!(LoggedUser::extract(&sessions, &users, SessionId(2)).err(), Some(Unauthenticated));
}

#[test]
fn logout_clears_the_session_and_may_be_repeated() {
    let users = with_ann();
    let mut sessions = logged_in_as("ann@x.com");
    sessions.open_as(SessionId(2)).unwrap();
    sessions.insert_token(SessionId(2), SessionToken::new(email("ann@x.com"))).unwrap();
    let user = LoggedUser::extract(&sessions, &users, SessionId(1)).unwrap();
    logout(&mut sessions, &user);
    assert!(sessions.resolve(SessionId(1)).is_none());
    assert!(sessions.contains(SessionId(1)));
    assert_eq!(LoggedUser::extract(&sessions, &users, SessionId(1)).err(), Some(Unauthenticated));
    // The user's other session is untouched.
    assert!(sessions.resolve(SessionId(2)).is_some());
    logout(&mut sessions, &user);
    assert!(sessions.resolve(SessionId(1)).is_none());
    assert!(sessions.resolve(SessionId(2)).is_some());
    // The registered user is still registered.
    assert!(users.contains("ann@x.com"));
}

#[test]
fn change_password_replaces_the_digest() {
    let mut users = with_ann();
    let sessions = logged_in_as("ann@x.com");
    let user = LoggedUser::extract(&sessions, &users, SessionId(1)).unwrap();
    let before = users.find_by_email("ann@x.com").unwrap().digest.as_str().to_string();
    assert_eq!(change_password(&mut users, &user, "Str0ngPass!", &password("N3wPass!")), Ok(()));
    let record = users.find_by_email("ann@x.com").unwrap();
    assert_eq!(record.name.as_str(), "Ann");
    assert_ne!(record.digest.as_str(), before);
    assert!(record.digest.accepts("N3wPass!"));
    // The session is as it was.
    assert!(sessions.resolve(SessionId(1)).is_some());
}

#[test]
fn change_password_needs_the_current_password() {
    let mut users = with_ann();
    let sessions = logged_in_as("ann@x.com");
    let user = LoggedUser::extract(&sessions, &users, SessionId(1)).unwrap();
    let before = users.find_by_email("ann@x.com").unwrap().digest.as_str().to_string();
    assert_eq!(
        change_password(&mut users, &user, "wrong", &password("N3wPass!")),
        Err(AuthError::InvalidCredentials)
    );
    assert_eq!(
        change_password(&mut users, &user, "", &password("N3wPass!")),
        Err(AuthError::InvalidCredentials)
    );
    assert_eq!(users.find_by_email("ann@x.com").unwrap().digest.as_str(), before);
}
