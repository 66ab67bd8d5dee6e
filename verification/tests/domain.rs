use user_auth::domain::email::{EmailError, UserEmail, MAX_DOMAIN_CHARS, MAX_LOCAL_CHARS};
use user_auth::domain::name::{NameError, UserName, MAX_NAME_CHARS};
use user_auth::domain::password::{
    InvalidPassword, UserPassword, MAX_PASSWORD_CHARS, MIN_PASSWORD_CHARS,
};

fn email(raw: &str) -> Result<UserEmail, EmailError> {
    UserEmail::parse(raw.to_string())
}

fn name(raw: &str) -> Result<UserName, NameError> {
    UserName::parse(raw.to_string())
}

fn password(raw: &str) -> Result<UserPassword, InvalidPassword> {
    UserPassword::parse(raw.to_string())
}

#[test]
fn valid_emails_parse_to_an_equal_string() {
    for raw in [
        "ann@x.com",
        "a@b",
        "first.last+tag@mail.example.org",
        "o'hara_{x}|y~z@host-1.example",
        "UPPER@EXAMPLE.COM",
        "1@2.3",
    ] {
        let parsed = email(raw).unwrap();
        assert_eq!(parsed.as_str(), raw);
        assert_eq!(parsed.clone().into_inner(), raw.to_string());
    }
}

#[test]
fn email_without_at_is_rejected() {
    assert_eq!(email("ann.x.com").err(), Some(EmailError::MissingAt));
    assert_eq!(email("").err(), Some(EmailError::MissingAt));
    assert_eq!(email("plainaddress").err(), Some(EmailError::MissingAt));
}

#[test]
fn email_without_domain_is_rejected() {
    assert_eq!(email("ann@").err(), Some(EmailError::MissingDomain));
    assert_eq!(email("a.b@").err(), Some(EmailError::MissingDomain));
}

#[test]
fn email_without_local_part_is_rejected() {
    assert_eq!(email("@x.com").err(), Some(EmailError::EmptyLocal));
    assert_eq!(email("@").err(), Some(EmailError::EmptyLocal));
}

#[test]
fn email_outside_ascii_is_rejected() {
    assert_eq!(email("änn@x.com").err(), Some(EmailError::NotAscii));
    assert_eq!(email("ann@exämple.com").err(), Some(EmailError::NotAscii));
    assert_eq!(email("ü").err(), Some(EmailError::NotAscii));
}

#[test]
fn email_local_part_is_bounded() {
    let longest = "a".repeat(MAX_LOCAL_CHARS);
    assert!(email(&format!("{}@x.com", longest)).is_ok());
    let too_long = "a".repeat(MAX_LOCAL_CHARS + 1);
    assert_eq!(email(&format!("{}@x.com", too_long)).err(), Some(EmailError::LocalTooLong));
}

#[test]
fn email_local_part_characters_are_checked() {
    assert_eq!(email("an n@x.com").err(), Some(EmailError::InvalidLocalCharacter));
    assert_eq!(email("a(b)@x.com").err(), Some(EmailError::InvalidLocalCharacter));
    assert_eq!(email("a,b@x.com").err(), Some(EmailError::InvalidLocalCharacter));
    assert_eq!(email("a\"b@x.com").err(), Some(EmailError::InvalidLocalCharacter));
}

#[test]
fn email_domain_is_bounded() {
    let longest = format!("{}.com", "a".repeat(MAX_DOMAIN_CHARS - 4));
    assert_eq!(longest.len(), MAX_DOMAIN_CHARS);
    assert!(email(&format!("ann@{}", longest)).is_ok());
    let too_long = format!("{}.com", "a".repeat(MAX_DOMAIN_CHARS - 3));
    assert_eq!(email(&format!("ann@{}", too_long)).err(), Some(EmailError::DomainTooLong));
}

#[test]
fn email_domain_labels_are_checked() {
    for raw in [
        "ann@x..com",
        "ann@.x.com",
        "ann@x.com.",
        "ann@-x.com",
        "ann@x.com-",
        "ann@x-.com",
        "ann@x.-com",
        "ann@x_y.com",
        "ann@x y.com",
        "ann@x@y.com",
        "ann@@x.com",
        "ann@.",
        "ann@-",
    ] {
        assert_eq!(email(raw).err(), Some(EmailError::InvalidDomain), "{}", raw);
    }
    assert!(email("ann@x--y.com").is_ok());
    assert!(email("ann@x-y.c-d").is_ok());
}

#[test]
fn email_faults_are_reported_in_order() {
    // The local part is judged before the domain.
    assert_eq!(email("@").err(), Some(EmailError::EmptyLocal));
    assert_eq!(email("a b@").err(), Some(EmailError::InvalidLocalCharacter));
    let too_long = "a".repeat(MAX_LOCAL_CHARS + 1);
    assert_eq!(email(&format!("{} @", too_long)).err(), Some(EmailError::LocalTooLong));
    // Characters outside ASCII are judged first of all.
    assert_eq!(email("é@").err(), Some(EmailError::NotAscii));
}

#[test]
fn valid_names_parse_to_an_equal_string() {
    for raw in ["Ann", "Ann Lee", " padded ", "Zoë Åström", "x", "O'Hara-Smith, Jr."] {
        let parsed = name(raw).unwrap();
        assert_eq!(parsed.as_str(), raw);
        assert_eq!(parsed.clone().into_inner(), raw.to_string());
    }
}

#[test]
fn empty_and_blank_names_are_rejected() {
    assert_eq!(name("").err(), Some(NameError::Empty));
    assert_eq!(name(" ").err(), Some(NameError::Empty));
    assert_eq!(name(" \t\r\n ").err(), Some(NameError::Empty));
}

#[test]
fn names_are_bounded() {
    let longest = "a".repeat(MAX_NAME_CHARS);
    assert!(name(&longest).is_ok());
    let too_long = "a".repeat(MAX_NAME_CHARS + 1);
    assert_eq!(name(&too_long).err(), Some(NameError::TooLong));
    // The bound counts characters, not bytes.
    let wide = "é".repeat(MAX_NAME_CHARS);
    assert!(wide.len() > MAX_NAME_CHARS);
    assert!(name(&wide).is_ok());
}

#[test]
fn names_with_forbidden_characters_are_rejected() {
    for c in ['/', '(', ')', '"', '<', '>', '\\', '{', '}'] {
        let raw = format!("An{}n", c);
        assert_eq!(name(&raw).err(), Some(NameError::ForbiddenCharacter), "{}", raw);
    }
}

#[test]
fn name_faults_are_reported_in_order() {
    let blank_and_long = " ".repeat(MAX_NAME_CHARS + 1);
    assert_eq!(name(&blank_and_long).err(), Some(NameError::TooLong));
    let forbidden_and_long = "<".repeat(MAX_NAME_CHARS + 1);
    assert_eq!(name(&forbidden_and_long).err(), Some(NameError::TooLong));
}

#[test]
fn passwords_shorter_than_the_minimum_are_rejected() {
    assert_eq!(MIN_PASSWORD_CHARS, 5);
    for raw in ["", "a", "ab", "abc", "abcd", "Str0"] {
        assert_eq!(password(raw).err(), Some(InvalidPassword), "{}", raw);
    }
}

#[test]
fn passwords_meeting_the_policy_parse_to_an_equal_string() {
    for raw in ["abcde", "wrong", "Str0ngPass!", "pass word with spaces", "пароль", "Weak3rPass?"] {
        let parsed = password(raw).unwrap();
        assert_eq!(parsed.as_str(), raw);
        assert_eq!(parsed.clone().into_inner(), raw.to_string());
    }
}

#[test]
fn passwords_are_bounded_above() {
    assert_eq!(MAX_PASSWORD_CHARS, 128);
    assert!(password(&"a".repeat(MAX_PASSWORD_CHARS)).is_ok());
    assert_eq!(password(&"a".repeat(MAX_PASSWORD_CHARS + 1)).err(), Some(InvalidPassword));
    // The bounds count characters, not bytes.
    assert!(password(&"é".repeat(MAX_PASSWORD_CHARS)).is_ok());
    assert_eq!(password("éééé").err(), Some(InvalidPassword));
}

#[test]
fn passwords_with_control_characters_are_rejected() {
    assert_eq!(password("abc\u{0}def").err(), Some(InvalidPassword));
    assert_eq!(password("abcdef\n").err(), Some(InvalidPassword));
    assert_eq!(password("abc\tdef").err(), Some(InvalidPassword));
    assert_eq!(password("abc\u{7f}def").err(), Some(InvalidPassword));
    assert!(password("abc\u{80}def").is_ok());
}
