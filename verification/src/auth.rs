//! The authentication component: registration, login, logout and password
//! change over the user directory and the session store, and the resolution
//! of a session into its logged-in user.

use crate::credential::{
    digest_accepts, hash_failure, hash_password, hashed_from, HashError, PasswordDigest,
};
use crate::directory::{keyed_by_email, Directory, RecordView, UserDirectory, UserRecord};
use crate::domain::{UserEmail, UserName, UserPassword};
use crate::session::{established, token_of, SessionId, SessionStore, SessionToken, Sessions};
use vstd::prelude::*;

verus! {

/// Why an operation of this component failed.
#[derive(Clone, Copy, Debug, PartialEq, Eq, Structural)]
pub enum AuthError {
    /// No user has this e-mail address, or the password is not the user's.
    /// The two are not told apart.
    InvalidCredentials,
    /// A user is registered under this e-mail address already.
    EmailAlreadyExists,
    /// The password could not be hashed.
    Hashing(HashError),
}

/// The one failure of resolving a session: it holds no token of a
/// registered user.
#[derive(Clone, Copy, Debug, PartialEq, Eq, Structural)]
pub struct Unauthenticated;

/// What a successful registration reports. No password material is in it.
#[derive(Debug)]
pub struct RegisterResponse {
    pub name: String,
    pub email: String,
}

/// What a successful login reports. No password material is in it.
#[derive(Debug)]
pub struct LoginResponse {
    pub name: String,
    pub email: String,
}

/// The user of the current request: the session that was resolved and the
/// e-mail address of the user whose token it holds.
pub struct LoggedUser {
    session: SessionId,
    email: UserEmail,
}

/// `password` is the password of the user registered under `email`.
pub open spec fn credentials_match(users: Directory, email: Seq<char>, password: Seq<char>) -> bool {
    users.contains_key(email) && digest_accepts(users[email].digest, password)
}

/// The session `id` holds the token of a registered user.
pub open spec fn logged_in(sessions: Sessions, users: Directory, id: SessionId) -> bool {
    token_of(sessions, id) matches Some(email) && users.contains_key(email)
}

/// What a registration does: it fails with `EmailAlreadyExists` exactly when
/// the address is registered, and then, as whenever it fails, leaves the
/// directory as it was; on success the directory has gained one record,
/// under `email`, with the name given and a digest that accepts `password`.
pub open spec fn registration(
    pre: Directory,
    post: Directory,
    name: Seq<char>,
    email: Seq<char>,
    password: Seq<char>,
    outcome: Result<RegisterResponse, AuthError>,
) -> bool {
    match outcome {
        Ok(response) => {
            &&& !pre.contains_key(email)
            &&& post.contains_key(email)
            &&& post == pre.insert(email, post[email])
            &&& post[email].name == name
            &&& post[email].email == email
            &&& hashed_from(post[email].digest, password)
            &&& digest_accepts(post[email].digest, password)
            &&& response.name@ == name
            &&& response.email@ == email
        },
        Err(AuthError::EmailAlreadyExists) => pre.contains_key(email) && post == pre,
        Err(AuthError::Hashing(reason)) => !pre.contains_key(email) && post == pre
            && hash_failure(password, reason),
        Err(AuthError::InvalidCredentials) => false,
    }
}

/// What a password change does: it fails with `InvalidCredentials` exactly
/// when `current` is not the password of the user under `email`, and then,
/// as whenever it fails, leaves the directory as it was; on success only the
/// digest of that user's record has changed, and it accepts `new`.
pub open spec fn password_change(
    pre: Directory,
    post: Directory,
    email: Seq<char>,
    current: Seq<char>,
    new: Seq<char>,
    outcome: Result<(), AuthError>,
) -> bool {
    match outcome {
        Ok(()) => {
            &&& credentials_match(pre, email, current)
            &&& post.contains_key(email)
            &&& post == pre.insert(email, post[email])
            &&& post[email].name == pre[email].name
            &&& post[email].email == email
            &&& hashed_from(post[email].digest, new)
            &&& digest_accepts(post[email].digest, new)
        },
        Err(AuthError::InvalidCredentials) => !credentials_match(pre, email, current) && post
            == pre,
        Err(AuthError::Hashing(reason)) => credentials_match(pre, email, current) && post == pre
            && hash_failure(new, reason),
        Err(AuthError::EmailAlreadyExists) => false,
    }
}

/// Of two registrations under one e-mail address, one after the other, at
/// most one succeeds. Once one has succeeded, the next is refused with
/// `EmailAlreadyExists` and changes nothing. On a directory without the
/// address the first succeeds unless the password cannot be hashed. Before
/// and after, no two records share an address.
pub proof fn same_email_registers_once(
    before: Directory,
    between: Directory,
    after: Directory,
    email: Seq<char>,
    first_name: Seq<char>,
    first_password: Seq<char>,
    first: Result<RegisterResponse, AuthError>,
    second_name: Seq<char>,
    second_password: Seq<char>,
    second: Result<RegisterResponse, AuthError>,
)
    requires
        keyed_by_email(before),
        crate::domain::valid_email(email),
        crate::domain::valid_name(first_name),
        crate::domain::valid_name(second_name),
        registration(before, between, first_name, email, first_password, first),
        registration(between, after, second_name, email, second_password, second),
    ensures
        !(first is Ok && second is Ok),
        first is Ok ==> (second matches Err(AuthError::EmailAlreadyExists)) && after == between,
        before.contains_key(email) ==> (first matches Err(AuthError::EmailAlreadyExists)) && (
        second matches Err(AuthError::EmailAlreadyExists)) && after == before,
        !before.contains_key(email) && !(first matches Err(AuthError::Hashing(_))) ==> first is Ok,
        keyed_by_email(between),
        keyed_by_email(after),
{
}

/// Who has registered can log in: after a successful registration the
/// password given is the password of the user under the address given.
pub proof fn registered_user_can_log_in(
    before: Directory,
    after: Directory,
    name: Seq<char>,
    email: Seq<char>,
    password: Seq<char>,
    outcome: Result<RegisterResponse, AuthError>,
)
    requires
        registration(before, after, name, email, password, outcome),
        outcome is Ok,
    ensures
        credentials_match(after, email, password),
        forall|other: Seq<char>, any: Seq<char>|
            other != email ==> #[trigger] credentials_match(after, other, any) == credentials_match(
                before,
                other,
                any,
            ),
{
}

/// After a successful password change the new password is the user's, every
/// other user's credentials are as they were, and whoever was logged in
/// still is. After a failed one everything is as it was.
pub proof fn password_change_keeps_everyone_logged_in(
    before: Directory,
    after: Directory,
    email: Seq<char>,
    current: Seq<char>,
    new: Seq<char>,
    outcome: Result<(), AuthError>,
    sessions: Sessions,
)
    requires
        password_change(before, after, email, current, new, outcome),
    ensures
        outcome is Ok ==> credentials_match(after, email, new),
        outcome is Err ==> after == before,
        forall|other: Seq<char>, any: Seq<char>|
            other != email ==> #[trigger] credentials_match(after, other, any) == credentials_match(
                before,
                other,
                any,
            ),
        forall|id: SessionId| #[trigger]
            logged_in(sessions, after, id) == logged_in(sessions, before, id),
{
}

/// A login that established its session leaves the user logged in under
/// the new identifier and nobody under the old one, so that an identifier
/// known before the login is of no use after it. Every other session is as
/// it was.
pub proof fn login_leaves_the_old_session_behind(
    before: Sessions,
    after: Sessions,
    users: Directory,
    current: SessionId,
    fresh: SessionId,
    email: Seq<char>,
)
    requires
        established(before, after, current, fresh, email),
        users.contains_key(email),
    ensures
        fresh != current,
        token_of(after, fresh) == Some(email),
        logged_in(after, users, fresh),
        !after.contains_key(current),
        !logged_in(after, users, current),
        forall|other: SessionId|
            other != current && other != fresh ==> #[trigger] logged_in(after, users, other)
                == logged_in(before, users, other),
{
}

impl LoggedUser {
    /// The session that was resolved.
    pub closed spec fn spec_session(&self) -> SessionId {
        self.session
    }

    /// The e-mail address of the logged-in user.
    pub closed spec fn spec_email(&self) -> Seq<char> {
        self.email@
    }

    /// Resolves the session `id` into its logged-in user. It succeeds
    /// exactly when the session holds a token and a user is registered under
    /// the token's e-mail address.
    pub fn extract(sessions: &SessionStore, users: &UserDirectory, id: SessionId) -> (r: Result<
        LoggedUser,
        Unauthenticated,
    >)
        ensures
            match r {
                Ok(user) => logged_in(sessions@, users@, id) && user.spec_session() == id
                    && token_of(sessions@, id) == Some(user.spec_email()),
                Err(_) => !logged_in(sessions@, users@, id),
            },
    {
        match sessions.resolve(id) {
            Some(token) => {
                if users.contains(token.email().as_str()) {
                    Ok(LoggedUser { session: id, email: token.email().clone() })
                } else {
                    Err(Unauthenticated)
                }
            },
            None => Err(Unauthenticated),
        }
    }

    /// The session that was resolved.
    #[verifier::when_used_as_spec(spec_session)]
    pub fn session(&self) -> (id: SessionId)
        ensures
            id == self.spec_session(),
    {
        self.session
    }

    /// The e-mail address of the logged-in user.
    pub fn email(&self) -> (email: &UserEmail)
        ensures
            email@ == self.spec_email(),
    {
        &self.email
    }
}

/// Adds the user with the digest of their password to the directory. It
/// fails exactly when the e-mail address is registered already, and then
/// changes nothing.
pub fn enroll(users: &mut UserDirectory, name: UserName, email: UserEmail, digest: PasswordDigest) -> (r:
    Result<RegisterResponse, AuthError>)
    ensures
        match r {
            Ok(response) => {
                &&& !old(users)@.contains_key(email@)
                &&& final(users)@ == old(users)@.insert(
                    email@,
                    RecordView { name: name@, email: email@, digest: digest@ },
                )
                &&& response.name@ == name@
                &&& response.email@ == email@
            },
            Err(reason) => reason == AuthError::EmailAlreadyExists && old(users)@.contains_key(
                email@,
            ) && final(users)@ == old(users)@,
        },
{
    let response = RegisterResponse {
        name: name.as_str().to_owned(),
        email: email.as_str().to_owned(),
    };
    match users.insert(UserRecord { name, email, digest }) {
        Ok(()) => Ok(response),
        Err(_) => Err(AuthError::EmailAlreadyExists),
    }
}

/// Registers a user. The password is hashed before it is kept, and only
/// its digest is kept. See `registration` for what is promised.
pub fn register(users: &mut UserDirectory, name: UserName, email: UserEmail, password: &UserPassword) -> (r:
    Result<RegisterResponse, AuthError>)
    ensures
        registration(old(users)@, final(users)@, name@, email@, password@, r),
{
    if users.contains(email.as_str()) {
        return Err(AuthError::EmailAlreadyExists);
    }
    match hash_password(password.as_str()) {
        Ok(digest) => enroll(users, name, email, digest),
        Err(reason) => Err(AuthError::Hashing(reason)),
    }
}

/// Decides a login from what the directory holds under the address and
/// from whether the password was found to be that user's. It succeeds
/// exactly when there is a record and the password was verified; every
/// failure is the same `InvalidCredentials`.
pub fn conclude_login(found: Option<&UserRecord>, verified: bool) -> (r: Result<
    (LoginResponse, SessionToken),
    AuthError,
>)
    ensures
        match r {
            Ok((response, token)) => {
                &&& verified
                &&& found matches Some(record) && response.name@ == record.name@ && response.email@
                    == record.email@ && token@ == record.email@
            },
            Err(reason) => reason == AuthError::InvalidCredentials && (found is None || !verified),
        },
{
    match found {
        Some(record) => {
            if verified {
                let response = LoginResponse {
                    name: record.name.as_str().to_owned(),
                    email: record.email.as_str().to_owned(),
                };
                Ok((response, SessionToken::new(record.email.clone())))
            } else {
                Err(AuthError::InvalidCredentials)
            }
        },
        None => Err(AuthError::InvalidCredentials),
    }
}

/// Logs a user in. It succeeds exactly when `password` is the password of
/// the user registered under `email`, and then yields the user's public
/// fields and the token to install in the caller's session. An unknown
/// address and a wrong password give the same error, and the hash function
/// runs once in either case.
pub fn login(users: &UserDirectory, email: &UserEmail, password: &UserPassword) -> (r: Result<
    (LoginResponse, SessionToken),
    AuthError,
>)
    ensures
        match r {
            Ok((response, token)) => credentials_match(users@, email@, password@) && response.name@
                == users@[email@].name && response.email@ == email@ && token@ == email@,
            Err(reason) => reason == AuthError::InvalidCredentials && !credentials_match(
                users@,
                email@,
                password@,
            ),
        },
{
    let found = users.find_by_email(email.as_str());
    let verified = match found {
        Some(record) => record.digest.accepts(password.as_str()),
        None => {
            let _spent = hash_password(password.as_str());
            false
        },
    };
    conclude_login(found, verified)
}

/// Logs the user out of their session: the session holds no token
/// afterwards. Logging out twice is the same as logging out once.
pub fn logout(sessions: &mut SessionStore, user: &LoggedUser)
    ensures
        final(sessions)@ == logged_out(old(sessions)@, user.spec_session()),
        token_of(final(sessions)@, user.spec_session()) is None,
{
    sessions.clear(user.session());
}

/// The sessions after the token was taken out of the session `id`.
pub open spec fn logged_out(sessions: Sessions, id: SessionId) -> Sessions {
    if sessions.contains_key(id) {
        sessions.insert(id, None)
    } else {
        sessions
    }
}

/// Logging out is idempotent, leaves nobody logged in under the session,
/// and touches no other session.
pub proof fn logout_is_idempotent(sessions: Sessions, users: Directory, id: SessionId)
    ensures
        logged_out(logged_out(sessions, id), id) == logged_out(sessions, id),
        token_of(logged_out(sessions, id), id) is None,
        !logged_in(logged_out(sessions, id), users, id),
        forall|other: SessionId|
            other != id ==> #[trigger] token_of(logged_out(sessions, id), other) == token_of(
                sessions,
                other,
            ),
{
}

/// Changes the password of the logged-in user, who proves to be that user
/// by the current password. See `password_change` for what is promised.
pub fn change_password(
    users: &mut UserDirectory,
    user: &LoggedUser,
    current: &str,
    new: &UserPassword,
) -> (r: Result<(), AuthError>)
    ensures
        password_change(old(users)@, final(users)@, user.spec_email(), current@, new@, r),
{
    let verified = match users.find_by_email(user.email().as_str()) {
        Some(record) => record.digest.accepts(current),
        None => false,
    };
    if !verified {
        return Err(AuthError::InvalidCredentials);
    }
    match hash_password(new.as_str()) {
        Ok(digest) => {
            match users.update_password_hash(user.email().as_str(), digest) {
                Ok(()) => Ok(()),
                Err(_) => Err(AuthError::InvalidCredentials),
            }
        },
        Err(reason) => Err(AuthError::Hashing(reason)),
    }
}

} // verus!
