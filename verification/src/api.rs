//! The operations behind the user endpoints: each takes a request as it
//! came in, validates it, and runs the operation of the authentication
//! component that the request asks for.

use crate::auth::{
    change_password, credentials_match, logged_in, login, logout, password_change, register,
    registration, AuthError, LoggedUser, LoginResponse, RegisterResponse,
};
use crate::credential::digest_accepts;
use crate::directory::{Directory, UserDirectory};
use crate::domain::email::email_fault;
use crate::domain::name::name_fault;
use crate::domain::{
    valid_email, valid_name, valid_password, EmailError, NameError, UserEmail, UserName,
    UserPassword,
};
use crate::session::{established, token_of, SessionId, SessionStore, Sessions, StorageError};
use vstd::prelude::*;

verus! {

/// A request to log in, as it came in. It holds a password, so it has no
/// printable form.
pub struct LoginRequest {
    pub email: String,
    pub password: String,
}

/// A request to register, as it came in. It holds a password, so it has no
/// printable form.
pub struct RegisterRequest {
    pub name: String,
    pub email: String,
    pub password: String,
}

/// A request to change the password, as it came in. It holds passwords, so
/// it has no printable form.
pub struct ChangePasswordRequest {
    pub current_password: String,
    pub new_password: String,
    pub new_password_confirm: String,
}

/// What is wrong with a request's fields. The caller can mend it.
#[derive(Clone, Copy, Debug, PartialEq, Eq, Structural)]
pub enum InputParamsError {
    /// The name is invalid, for the reason given.
    InvalidName(NameError),
    /// The e-mail address is invalid, for the reason given.
    InvalidEmail(EmailError),
    /// The password does not meet the policy. No reason is given.
    InvalidPassword,
    /// The new password and its confirmation differ.
    PasswordMismatch,
}

/// Why a request was refused.
#[derive(Clone, Copy, Debug, PartialEq, Eq, Structural)]
pub enum ApiError {
    /// A field of the request is invalid; nothing was looked up or changed.
    Input(InputParamsError),
    /// The authentication component refused.
    Auth(AuthError),
}

/// What a successful login hands to the transport layer: the response for
/// the client, and the identifier of the renewed session that holds the
/// user's token, or the reason why no session holds it. In the latter case
/// the credentials were right all the same, and the client has no session.
#[derive(Debug)]
pub struct LoginOutcome {
    pub response: LoginResponse,
    pub session: Result<SessionId, StorageError>,
}

/// The fault of a login request: that of the address, or else that of the
/// password.
pub open spec fn login_fault(email: Seq<char>, password: Seq<char>) -> Option<InputParamsError> {
    match email_fault(email) {
        Some(reason) => Some(InputParamsError::InvalidEmail(reason)),
        None => if valid_password(password) {
            None
        } else {
            Some(InputParamsError::InvalidPassword)
        },
    }
}

/// The fault of a registration request: that of the name, or else that of
/// the address, or else that of the password.
pub open spec fn register_fault(name: Seq<char>, email: Seq<char>, password: Seq<char>) -> Option<
    InputParamsError,
> {
    match name_fault(name) {
        Some(reason) => Some(InputParamsError::InvalidName(reason)),
        None => login_fault(email, password),
    }
}

/// The fault of a request to change the password: the new password and its
/// confirmation differ, or else the new password does not meet the policy.
pub open spec fn change_password_fault(new: Seq<char>, confirm: Seq<char>) -> Option<
    InputParamsError,
> {
    if new != confirm {
        Some(InputParamsError::PasswordMismatch)
    } else if valid_password(new) {
        None
    } else {
        Some(InputParamsError::InvalidPassword)
    }
}

/// Validates a login request: the address first, then the password.
pub fn validate_login(req: LoginRequest) -> (r: Result<(UserEmail, UserPassword), InputParamsError>)
    ensures
        match r {
            Ok((email, password)) => login_fault(req.email@, req.password@) is None && email@
                == req.email@ && password@ == req.password@,
            Err(fault) => login_fault(req.email@, req.password@) == Some(fault),
        },
{
    proof {
        crate::domain::email::email_fault_none_iff_valid(req.email@);
    }
    let email = match UserEmail::parse(req.email) {
        Ok(email) => email,
        Err(reason) => {
            return Err(InputParamsError::InvalidEmail(reason));
        },
    };
    let password = match UserPassword::parse(req.password) {
        Ok(password) => password,
        Err(_) => {
            return Err(InputParamsError::InvalidPassword);
        },
    };
    Ok((email, password))
}

/// Validates a registration request: the name first, then the address,
/// then the password.
pub fn validate_register(req: RegisterRequest) -> (r: Result<
    (UserName, UserEmail, UserPassword),
    InputParamsError,
>)
    ensures
        match r {
            Ok((name, email, password)) => register_fault(req.name@, req.email@, req.password@)
                is None && name@ == req.name@ && email@ == req.email@ && password@
                == req.password@,
            Err(fault) => register_fault(req.name@, req.email@, req.password@) == Some(fault),
        },
{
    proof {
        crate::domain::name::name_fault_none_iff_valid(req.name@);
    }
    let name = match UserName::parse(req.name) {
        Ok(name) => name,
        Err(reason) => {
            return Err(InputParamsError::InvalidName(reason));
        },
    };
    match validate_login(LoginRequest { email: req.email, password: req.password }) {
        Ok((email, password)) => Ok((name, email, password)),
        Err(fault) => Err(fault),
    }
}

/// Validates a request to change the password: the new password must equal
/// its confirmation and meet the policy. The current password is not
/// validated: it is checked against the stored digest.
pub fn validate_change_password(req: ChangePasswordRequest) -> (r: Result<
    (String, UserPassword),
    InputParamsError,
>)
    ensures
        match r {
            Ok((current, new)) => change_password_fault(req.new_password@, req.new_password_confirm@)
                is None && current@ == req.current_password@ && new@ == req.new_password@,
            Err(fault) => change_password_fault(req.new_password@, req.new_password_confirm@)
                == Some(fault),
        },
{
    if !(req.new_password == req.new_password_confirm) {
        return Err(InputParamsError::PasswordMismatch);
    }
    match UserPassword::parse(req.new_password) {
        Ok(new) => Ok((req.current_password, new)),
        Err(_) => Err(InputParamsError::InvalidPassword),
    }
}

/// What handling a login request does, on the session `session` and with
/// the fields `email` and `password`.
///
/// An invalid request is refused with its fault, and a valid one with
/// `InvalidCredentials` exactly when the password is not that of the user
/// under the address; in both cases the sessions are untouched. Otherwise
/// the login succeeds: the session is renewed under a new identifier and
/// the user's token is installed in it, or, where that fails, the sessions
/// are untouched and the outcome says why.
pub open spec fn login_handled(
    users: Directory,
    pre: Sessions,
    post: Sessions,
    session: SessionId,
    email: Seq<char>,
    password: Seq<char>,
    outcome: Result<LoginOutcome, ApiError>,
) -> bool {
    match outcome {
        Ok(granted) => {
            &&& login_fault(email, password) is None
            &&& credentials_match(users, email, password)
            &&& granted.response.name@ == users[email].name
            &&& granted.response.email@ == email
            &&& match granted.session {
                Ok(fresh) => established(pre, post, session, fresh, email),
                Err(reason) => reason != StorageError::UnknownSession && post == pre,
            }
        },
        Err(ApiError::Input(fault)) => login_fault(email, password) == Some(fault) && post == pre,
        Err(ApiError::Auth(reason)) => {
            &&& login_fault(email, password) is None
            &&& reason == AuthError::InvalidCredentials
            &&& !credentials_match(users, email, password)
            &&& post == pre
        },
    }
}

/// A login never puts a token under the identifier that the request came in
/// on. Where it established its session, that identifier names no session
/// any more, the user is logged in under the new identifier, and every
/// other session is as it was. Where it did not, be it refused or granted
/// without a session, the sessions are as they were.
pub proof fn login_never_arms_the_old_identifier(
    users: Directory,
    pre: Sessions,
    post: Sessions,
    session: SessionId,
    email: Seq<char>,
    password: Seq<char>,
    outcome: Result<LoginOutcome, ApiError>,
)
    requires
        login_handled(users, pre, post, session, email, password, outcome),
    ensures
        post == pre || token_of(post, session) is None,
        outcome is Err ==> post == pre,
        outcome matches Ok(granted) ==> match granted.session {
            Ok(fresh) => {
                &&& fresh != session
                &&& !pre.contains_key(fresh)
                &&& !post.contains_key(session)
                &&& !logged_in(post, users, session)
                &&& token_of(post, fresh) == Some(email)
                &&& logged_in(post, users, fresh)
                &&& forall|other: SessionId|
                    other != session && other != fresh ==> post.contains_key(other)
                        == pre.contains_key(other) && #[trigger] token_of(post, other) == token_of(
                        pre,
                        other,
                    )
            },
            Err(_) => post == pre,
        },
{
}

/// Handles a login request that came in on the session `session`. See
/// `login_handled` for what is promised.
pub fn login_handler(
    users: &UserDirectory,
    sessions: &mut SessionStore,
    session: SessionId,
    req: LoginRequest,
) -> (r: Result<LoginOutcome, ApiError>)
    ensures
        login_handled(
            users@,
            old(sessions)@,
            final(sessions)@,
            session,
            req.email@,
            req.password@,
            r,
        ),
{
    let (email, password) = match validate_login(req) {
        Ok(valid) => valid,
        Err(fault) => {
            return Err(ApiError::Input(fault));
        },
    };
    let (response, token) = match login(users, &email, &password) {
        Ok(granted) => granted,
        Err(reason) => {
            return Err(ApiError::Auth(reason));
        },
    };
    let session = sessions.establish(session, token);
    Ok(LoginOutcome { response, session })
}

/// Handles a logout request of the logged-in user: their session holds no
/// token afterwards. It cannot fail.
pub fn logout_handler(sessions: &mut SessionStore, user: &LoggedUser)
    ensures
        final(sessions)@ == crate::auth::logged_out(old(sessions)@, user.spec_session()),
        token_of(final(sessions)@, user.spec_session()) is None,
{
    logout(sessions, user);
}

/// What handling a registration request does, with the fields `name`,
/// `email` and `password`: an invalid request is refused with its fault and
/// changes nothing; a valid one is registered as `registration` says.
pub open spec fn register_handled(
    pre: Directory,
    post: Directory,
    name: Seq<char>,
    email: Seq<char>,
    password: Seq<char>,
    outcome: Result<RegisterResponse, ApiError>,
) -> bool {
    match outcome {
        Ok(response) => register_fault(name, email, password) is None && registration(
            pre,
            post,
            name,
            email,
            password,
            Ok(response),
        ),
        Err(ApiError::Input(fault)) => register_fault(name, email, password) == Some(fault) && post
            == pre,
        Err(ApiError::Auth(reason)) => register_fault(name, email, password) is None
            && registration(pre, post, name, email, password, Err(reason)),
    }
}

/// Of a request whose name, address and password are valid: it is never
/// refused for its input; it is refused with `EmailAlreadyExists` exactly
/// when the address is registered; on a free address it succeeds unless the
/// password could not be hashed. Where it succeeds, the directory has gained
/// one record, under the address as it was given, with the name as it was
/// given and the digest of the password given, and every other record is as
/// it was. Where it fails, the directory is as it was.
pub proof fn valid_registration_adds_one_record(
    pre: Directory,
    post: Directory,
    name: Seq<char>,
    email: Seq<char>,
    password: Seq<char>,
    outcome: Result<RegisterResponse, ApiError>,
)
    requires
        valid_name(name),
        valid_email(email),
        valid_password(password),
        register_handled(pre, post, name, email, password, outcome),
    ensures
        !(outcome matches Err(ApiError::Input(_))),
        pre.contains_key(email) <==> (outcome matches Err(
            ApiError::Auth(AuthError::EmailAlreadyExists),
        )),
        !pre.contains_key(email) ==> outcome is Ok || (outcome matches Err(
            ApiError::Auth(AuthError::Hashing(_)),
        )),
        outcome is Err ==> post == pre,
        outcome matches Ok(response) ==> {
            &&& response.name@ == name
            &&& response.email@ == email
            &&& post.dom() == pre.dom().insert(email)
            &&& post[email].name == name
            &&& post[email].email == email
            &&& digest_accepts(post[email].digest, password)
            &&& forall|other: Seq<char>|
                other != email && #[trigger] pre.contains_key(other) ==> post.contains_key(other)
                    && post[other] == pre[other]
        },
{
    crate::domain::name::name_fault_none_iff_valid(name);
    crate::domain::email::email_fault_none_iff_valid(email);
}

/// Handles a registration request. See `register_handled` for what is
/// promised.
pub fn register_handler(users: &mut UserDirectory, req: RegisterRequest) -> (r: Result<
    RegisterResponse,
    ApiError,
>)
    ensures
        register_handled(old(users)@, final(users)@, req.name@, req.email@, req.password@, r),
{
    let (name, email, password) = match validate_register(req) {
        Ok(valid) => valid,
        Err(fault) => {
            return Err(ApiError::Input(fault));
        },
    };
    match register(users, name, email, &password) {
        Ok(response) => Ok(response),
        Err(reason) => Err(ApiError::Auth(reason)),
    }
}

/// What handling a request to change the password of the user under
/// `email` does: a request whose new password differs from its
/// confirmation, or does not meet the policy, is refused with that fault and
/// changes nothing; a valid one changes the password as `password_change`
/// says.
pub open spec fn change_password_handled(
    pre: Directory,
    post: Directory,
    email: Seq<char>,
    current: Seq<char>,
    new: Seq<char>,
    confirm: Seq<char>,
    outcome: Result<(), ApiError>,
) -> bool {
    match outcome {
        Ok(()) => change_password_fault(new, confirm) is None && password_change(
            pre,
            post,
            email,
            current,
            new,
            Ok(()),
        ),
        Err(ApiError::Input(fault)) => change_password_fault(new, confirm) == Some(fault) && post
            == pre,
        Err(ApiError::Auth(reason)) => change_password_fault(new, confirm) is None
            && password_change(pre, post, email, current, new, Err(reason)),
    }
}

/// Of a request whose new password equals its confirmation and meets the
/// policy: it is refused with `InvalidCredentials` exactly when the stored
/// digest does not accept the current password given, or nobody is
/// registered under the address. A request that is refused, for whatever
/// reason, changes nothing: the stored digest accepts what it accepted.
pub proof fn refused_password_change_changes_nothing(
    pre: Directory,
    post: Directory,
    email: Seq<char>,
    current: Seq<char>,
    new: Seq<char>,
    confirm: Seq<char>,
    outcome: Result<(), ApiError>,
)
    requires
        change_password_handled(pre, post, email, current, new, confirm, outcome),
    ensures
        outcome is Err ==> post == pre,
        new != confirm ==> outcome == Err::<(), ApiError>(
            ApiError::Input(InputParamsError::PasswordMismatch),
        ),
        new == confirm && valid_password(new) ==> (!credentials_match(pre, email, current) <==> outcome
            == Err::<(), ApiError>(ApiError::Auth(AuthError::InvalidCredentials))),
        outcome is Ok ==> credentials_match(post, email, new),
{
}

/// Handles a request of the logged-in user to change their password. See
/// `change_password_handled` for what is promised.
pub fn change_password_handler(
    users: &mut UserDirectory,
    user: &LoggedUser,
    req: ChangePasswordRequest,
) -> (r: Result<(), ApiError>)
    ensures
        change_password_handled(
            old(users)@,
            final(users)@,
            user.spec_email(),
            req.current_password@,
            req.new_password@,
            req.new_password_confirm@,
            r,
        ),
{
    let (current, new) = match validate_change_password(req) {
        Ok(valid) => valid,
        Err(fault) => {
            return Err(ApiError::Input(fault));
        },
    };
    match change_password(users, user, current.as_str(), &new) {
        Ok(()) => Ok(()),
        Err(reason) => Err(ApiError::Auth(reason)),
    }
}

} // verus!
