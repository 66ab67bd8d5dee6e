//! Password digests: the salted, slow, one-way form in which a password is
//! kept. The digest is computed and checked by Argon2 with its default
//! parameters; this module states what the rest of the crate relies on.

use crate::entropy::draw_u128;
use argon2::password_hash::{PasswordHash, PasswordHasher, PasswordVerifier, SaltString};
use argon2::Argon2;
use vstd::prelude::*;

verus! {

/// The error of the `password-hash` crate, carried through unread.
#[verifier::external_type_specification]
#[verifier::external_body]
pub struct ExDigestFault(argon2::password_hash::Error);

/// What Argon2 makes of `password` under the salt whose sixteen bytes are
/// `salt` in little-endian order: the encoded digest, or `None` where it
/// computes none.
pub uninterp spec fn digest_of(password: Seq<char>, salt: u128) -> Option<Seq<char>>;

/// Whether Argon2 finds that `password` gives the encoded digest `digest`.
pub uninterp spec fn digest_accepts(digest: Seq<char>, password: Seq<char>) -> bool;

/// Argon2 computes a digest for `password` under `salt`.
pub open spec fn digest_computes(password: Seq<char>, salt: u128) -> bool {
    digest_of(password, salt) is Some
}

/// `digest` is the digest of `password` under some salt.
pub open spec fn hashed_from(digest: Seq<char>, password: Seq<char>) -> bool {
    exists|salt: u128| #[trigger] digest_of(password, salt) == Some(digest)
}

/// `digest` was computed from some password under some salt.
pub open spec fn issued(digest: Seq<char>) -> bool {
    exists|password: Seq<char>| #[trigger] hashed_from(digest, password)
}

/// What a failure to hash `password` tells: where the hash function is
/// named as the reason, there is a salt under which it computes no digest
/// for `password`. A failure of the random source tells nothing.
pub open spec fn hash_failure(password: Seq<char>, reason: HashError) -> bool {
    reason == HashError::DerivationFailed ==> exists|salt: u128|
        !#[trigger] digest_computes(password, salt)
}

/// Encodes the salt with `SaltString::encode_b64` and calls
/// `Argon2::default().hash_password`, rendering the result as text. Not
/// verified. The contract names the outcome, which password and salt
/// decide between them: the digest where one is computed, none where the
/// call fails. It also claims what the crate's documentation shows of a
/// digest: verifying the password that was hashed against it succeeds.
#[verifier::external_body]
fn derive_digest(password: &str, salt: u128) -> (r: Result<String, argon2::password_hash::Error>)
    ensures
        match r {
            Ok(digest) => digest_of(password@, salt) == Some(digest@) && digest_accepts(
                digest@,
                password@,
            ),
            Err(_) => digest_of(password@, salt) is None,
        },
{
    let encoded = SaltString::encode_b64(&salt.to_le_bytes())?;
    let digest = Argon2::default().hash_password(password.as_bytes(), &encoded)?;
    Ok(digest.to_string())
}

/// Parses the digest with `PasswordHash::new` and calls
/// `Argon2::default().verify_password`. Not verified. The contract names
/// the outcome: success is what `digest_accepts` stands for. It is asked
/// only of digests that `derive_digest` computed.
#[verifier::external_body]
fn check_digest(digest: &str, password: &str) -> (r: Result<(), argon2::password_hash::Error>)
    requires
        issued(digest@),
    ensures
        r is Ok <==> digest_accepts(digest@, password@),
{
    let parsed = PasswordHash::new(digest)?;
    Argon2::default().verify_password(password.as_bytes(), &parsed)
}

/// Why no digest could be computed.
#[derive(Clone, Copy, Debug, PartialEq, Eq, Structural)]
pub enum HashError {
    /// The operating system gave no random salt.
    EntropyUnavailable,
    /// The hash function refused to compute.
    DerivationFailed,
}

/// The digest of a password. There is no way to make one but to hash a
/// password, so a value of this type never holds a password's own text
/// unless the hash function hands it back.
pub struct PasswordDigest {
    text: String,
}

impl View for PasswordDigest {
    type V = Seq<char>;

    closed spec fn view(&self) -> Seq<char> {
        self.text@
    }
}

impl Clone for PasswordDigest {
    fn clone(&self) -> (copy: Self)
        ensures
            copy@ == self@,
    {
        proof {
            use_type_invariant(self);
        }
        PasswordDigest { text: self.text.clone() }
    }
}

impl PasswordDigest {
    #[verifier::type_invariant]
    pub open spec fn was_issued(self) -> bool {
        issued(self@)
    }

    /// The digest of `password` under `salt`. It is computed exactly when
    /// the hash function computes one for the two, and it accepts
    /// `password`.
    pub fn derive(password: &str, salt: u128) -> (r: Result<PasswordDigest, HashError>)
        ensures
            r is Ok <==> digest_computes(password@, salt),
            match r {
                Ok(digest) => digest_of(password@, salt) == Some(digest@) && digest_accepts(
                    digest@,
                    password@,
                ),
                Err(reason) => reason == HashError::DerivationFailed,
            },
    {
        match derive_digest(password, salt) {
            Ok(text) => {
                assert(hashed_from(text@, password@));
                Ok(PasswordDigest { text })
            },
            Err(_) => Err(HashError::DerivationFailed),
        }
    }

    /// Whether `password` gives this digest.
    pub fn accepts(&self, password: &str) -> (ok: bool)
        ensures
            ok == digest_accepts(self@, password@),
    {
        proof {
            use_type_invariant(self);
        }
        check_digest(self.text.as_str(), password).is_ok()
    }

    /// The encoded digest.
    pub fn as_str(&self) -> (s: &str)
        ensures
            s@ == self@,
    {
        self.text.as_str()
    }
}

/// Hashes `password` under a salt drawn at random. Whatever salt is drawn,
/// a digest that comes back is the digest of `password` under some salt and
/// accepts `password`; a failure is as `hash_failure` says.
pub fn hash_password(password: &str) -> (r: Result<PasswordDigest, HashError>)
    ensures
        match r {
            Ok(digest) => hashed_from(digest@, password@) && issued(digest@) && digest_accepts(
                digest@,
                password@,
            ),
            Err(reason) => hash_failure(password@, reason),
        },
{
    match draw_u128() {
        Ok(salt) => match PasswordDigest::derive(password, salt) {
            Ok(digest) => {
                assert(hashed_from(digest@, password@));
                Ok(digest)
            },
            Err(reason) => Err(reason),
        },
        Err(_) => Err(HashError::EntropyUnavailable),
    }
}

} // verus!
