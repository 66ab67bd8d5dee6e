//! The session token manager: which session holds which user's token.
//!
//! A session is known by an identifier drawn at random. It holds no token
//! until a login installs one. Renewing a session moves what it holds to a
//! new identifier and forgets the old one.

use crate::domain::UserEmail;
use crate::entropy::draw_u128;
use std::collections::HashMap;
use vstd::prelude::*;

verus! {

broadcast use vstd::std_specs::hash::group_hash_axioms;

/// The identifier of a session. It means nothing beyond naming the session.
#[derive(Clone, Copy, Debug, PartialEq, Eq, Structural)]
pub struct SessionId(pub u128);

/// The token that a login yields: the identity of the user who logged in.
/// Its view is that user's e-mail address.
pub struct SessionToken {
    email: UserEmail,
}

impl View for SessionToken {
    type V = Seq<char>;

    closed spec fn view(&self) -> Seq<char> {
        self.email@
    }
}

impl Clone for SessionToken {
    fn clone(&self) -> (copy: Self)
        ensures
            copy@ == self@,
    {
        SessionToken { email: self.email.clone() }
    }
}

impl SessionToken {
    /// The token of the user registered under `email`.
    pub fn new(email: UserEmail) -> (token: SessionToken)
        ensures
            token@ == email@,
    {
        SessionToken { email }
    }

    /// The e-mail address of the user whom the token stands for.
    pub fn email(&self) -> (email: &UserEmail)
        ensures
            email@ == self@,
    {
        &self.email
    }
}

/// Why the session store refused a change.
#[derive(Clone, Copy, Debug, PartialEq, Eq, Structural)]
pub enum StorageError {
    /// The session is not in the store.
    UnknownSession,
    /// The identifier offered for a session names a session already.
    IdentifierInUse,
    /// The operating system gave no random identifier.
    EntropyUnavailable,
}

/// The sessions as contracts see them: each known identifier with the
/// e-mail address of its token, or `None` while it holds no token.
pub type Sessions = Map<SessionId, Option<Seq<char>>>;

/// The token that `id` resolves to: none for an unknown session and for one
/// that holds no token.
pub open spec fn token_of(sessions: Sessions, id: SessionId) -> Option<Seq<char>> {
    if sessions.contains_key(id) {
        sessions[id]
    } else {
        None
    }
}

/// `post` is `pre` after the session `current` was renewed as `fresh`:
/// `fresh` named no session and differs from `current`, it now holds what
/// `current` held, and `current` is gone.
pub open spec fn renewed(pre: Sessions, post: Sessions, current: SessionId, fresh: SessionId) -> bool {
    &&& fresh != current
    &&& !pre.contains_key(fresh)
    &&& post == pre.remove(current).insert(fresh, token_of(pre, current))
}

/// `post` is `pre` after the session `current` was renewed as `fresh` and
/// the token of the user under `email` was installed in it.
pub open spec fn established(
    pre: Sessions,
    post: Sessions,
    current: SessionId,
    fresh: SessionId,
    email: Seq<char>,
) -> bool {
    &&& fresh != current
    &&& !pre.contains_key(fresh)
    &&& post == pre.remove(current).insert(fresh, Some(email))
}

/// After a renewal the old identifier resolves to no token, the new one
/// resolves to the token that the old one resolved to before, and every
/// other session is as it was.
pub proof fn renewal_moves_the_token(
    pre: Sessions,
    post: Sessions,
    current: SessionId,
    fresh: SessionId,
)
    requires
        renewed(pre, post, current, fresh),
    ensures
        !post.contains_key(current),
        token_of(post, current) is None,
        post.contains_key(fresh),
        token_of(post, fresh) == token_of(pre, current),
        forall|other: SessionId|
            other != current && other != fresh ==> post.contains_key(other) == pre.contains_key(
                other,
            ) && #[trigger] token_of(post, other) == token_of(pre, other),
{
}

/// The view of a stored token, if any.
spec fn token_view(held: Option<SessionToken>) -> Option<Seq<char>> {
    match held {
        Some(token) => Some(token@),
        None => None,
    }
}

/// The view of the stored sessions.
spec fn views_of(stored: Map<u128, Option<SessionToken>>) -> Sessions {
    Map::new(|id: SessionId| stored.contains_key(id.0), |id: SessionId| token_view(stored[id.0]))
}

/// The session store.
pub struct SessionStore {
    held: HashMap<u128, Option<SessionToken>>,
}

impl View for SessionStore {
    type V = Sessions;

    closed spec fn view(&self) -> Sessions {
        views_of(self.held@)
    }
}

impl SessionStore {
    /// A store without sessions.
    pub fn new() -> (store: SessionStore)
        ensures
            store@ == Map::<SessionId, Option<Seq<char>>>::empty(),
    {
        SessionStore { held: HashMap::new() }
    }

    /// Whether `id` names a session of the store.
    pub fn contains(&self, id: SessionId) -> (known: bool)
        ensures
            known == self@.contains_key(id),
    {
        self.held.contains_key(&id.0)
    }

    /// Opens a session without a token under the identifier `fresh`, unless
    /// `fresh` names a session already.
    pub fn open_as(&mut self, fresh: SessionId) -> (r: Result<(), StorageError>)
        ensures
            match r {
                Ok(()) => !old(self)@.contains_key(fresh) && final(self)@ == old(self)@.insert(
                    fresh,
                    None,
                ),
                Err(reason) => reason == StorageError::IdentifierInUse && old(self)@.contains_key(
                    fresh,
                ) && final(self)@ == old(self)@,
            },
    {
        if self.held.contains_key(&fresh.0) {
            return Err(StorageError::IdentifierInUse);
        }
        self.held.insert(fresh.0, None);
        Ok(())
    }

    /// Opens a session without a token under an identifier drawn at random.
    /// Whatever is drawn, the store changes only by the session that the
    /// result names.
    pub fn open(&mut self) -> (r: Result<SessionId, StorageError>)
        ensures
            match r {
                Ok(fresh) => !old(self)@.contains_key(fresh) && final(self)@ == old(self)@.insert(
                    fresh,
                    None,
                ),
                Err(reason) => reason != StorageError::UnknownSession && final(self)@ == old(
                    self,
                )@,
            },
    {
        match draw_u128() {
            Ok(drawn) => {
                let fresh = SessionId(drawn);
                match self.open_as(fresh) {
                    Ok(()) => Ok(fresh),
                    Err(reason) => Err(reason),
                }
            },
            Err(_) => Err(StorageError::EntropyUnavailable),
        }
    }

    /// Renews the session `current` under the identifier `fresh`: `fresh`
    /// takes over what `current` held, and `current` names no session any
    /// more. Refused, with the store unchanged, exactly when `fresh` is
    /// `current` or names a session already. A `current` that the store
    /// does not know is renewed as a session without a token.
    pub fn renew_as(&mut self, current: SessionId, fresh: SessionId) -> (r: Result<
        (),
        StorageError,
    >)
        ensures
            match r {
                Ok(()) => renewed(old(self)@, final(self)@, current, fresh),
                Err(reason) => reason == StorageError::IdentifierInUse && (fresh == current || old(
                    self,
                )@.contains_key(fresh)) && final(self)@ == old(self)@,
            },
    {
        if fresh.0 == current.0 || self.held.contains_key(&fresh.0) {
            return Err(StorageError::IdentifierInUse);
        }
        let carried = match self.held.remove(&current.0) {
            Some(held) => held,
            None => None,
        };
        self.held.insert(fresh.0, carried);
        assert(self@ =~= old(self)@.remove(current).insert(fresh, token_of(old(self)@, current)));
        Ok(())
    }

    /// Renews the session `current` under an identifier drawn at random and
    /// returns that identifier. Whatever is drawn, either the session was
    /// renewed under the identifier returned, or the store is unchanged.
    pub fn renew(&mut self, current: SessionId) -> (r: Result<SessionId, StorageError>)
        ensures
            match r {
                Ok(fresh) => renewed(old(self)@, final(self)@, current, fresh),
                Err(reason) => reason != StorageError::UnknownSession && final(self)@ == old(
                    self,
                )@,
            },
    {
        match draw_u128() {
            Ok(drawn) => {
                let fresh = SessionId(drawn);
                match self.renew_as(current, fresh) {
                    Ok(()) => Ok(fresh),
                    Err(reason) => Err(reason),
                }
            },
            Err(_) => Err(StorageError::EntropyUnavailable),
        }
    }

    /// Renews the session `current` under the identifier `fresh` and installs
    /// `token` in it, so that no identifier that was known before the login
    /// names the logged-in session. Refused as `renew_as` is.
    pub fn establish_as(&mut self, current: SessionId, fresh: SessionId, token: SessionToken) -> (r:
        Result<(), StorageError>)
        ensures
            match r {
                Ok(()) => established(old(self)@, final(self)@, current, fresh, token@),
                Err(reason) => reason == StorageError::IdentifierInUse && (fresh == current || old(
                    self,
                )@.contains_key(fresh)) && final(self)@ == old(self)@,
            },
    {
        match self.renew_as(current, fresh) {
            Ok(()) => {
                let installed = self.insert_token(fresh, token);
                assert(self@ =~= old(self)@.remove(current).insert(fresh, Some(token@)));
                installed
            },
            Err(reason) => Err(reason),
        }
    }

    /// Renews the session `current` under an identifier drawn at random,
    /// installs `token` in it and returns the identifier. Whatever is drawn,
    /// either that was done, or the store is unchanged.
    pub fn establish(&mut self, current: SessionId, token: SessionToken) -> (r: Result<
        SessionId,
        StorageError,
    >)
        ensures
            match r {
                Ok(fresh) => established(old(self)@, final(self)@, current, fresh, token@),
                Err(reason) => reason != StorageError::UnknownSession && final(self)@ == old(
                    self,
                )@,
            },
    {
        match draw_u128() {
            Ok(drawn) => {
                let fresh = SessionId(drawn);
                match self.establish_as(current, fresh, token) {
                    Ok(()) => Ok(fresh),
                    Err(reason) => Err(reason),
                }
            },
            Err(_) => Err(StorageError::EntropyUnavailable),
        }
    }

    /// Installs `token` in the session `id`, in place of any token that it
    /// held. Refused, with the store unchanged, exactly when the store does
    /// not know `id`.
    pub fn insert_token(&mut self, id: SessionId, token: SessionToken) -> (r: Result<
        (),
        StorageError,
    >)
        ensures
            match r {
                Ok(()) => old(self)@.contains_key(id) && final(self)@ == old(self)@.insert(
                    id,
                    Some(token@),
                ),
                Err(reason) => reason == StorageError::UnknownSession && !old(self)@.contains_key(
                    id,
                ) && final(self)@ == old(self)@,
            },
    {
        if !self.held.contains_key(&id.0) {
            return Err(StorageError::UnknownSession);
        }
        self.held.insert(id.0, Some(token));
        Ok(())
    }

    /// The token that the session `id` holds, if the store knows `id` and it
    /// holds one.
    pub fn resolve(&self, id: SessionId) -> (found: Option<&SessionToken>)
        ensures
            match found {
                Some(token) => token_of(self@, id) == Some(token@),
                None => token_of(self@, id) is None,
            },
    {
        match self.held.get(&id.0) {
            Some(held) => held.as_ref(),
            None => None,
        }
    }

    /// Takes the token out of the session `id`. The session stays, without
    /// a token; a session that holds none, or that the store does not know,
    /// leaves the store unchanged.
    pub fn clear(&mut self, id: SessionId)
        ensures
            final(self)@ == if old(self)@.contains_key(id) {
                old(self)@.insert(id, None)
            } else {
                old(self)@
            },
            token_of(final(self)@, id) is None,
    {
        if self.held.contains_key(&id.0) {
            self.held.insert(id.0, None);
        }
    }
}

} // verus!
