//! The password policy and the validated password type.

use vstd::prelude::*;
use vstd::string::*;

verus! {

/// Fewest characters a password may have.
pub const MIN_PASSWORD_CHARS: usize = 5;

/// Most characters a password may have.
pub const MAX_PASSWORD_CHARS: usize = 128;

/// A control character: below the space, or the delete character.
pub open spec fn is_control(c: char) -> bool {
    (c as u32) < 0x20 || (c as u32) == 0x7f
}

/// The password policy: a bounded number of characters, none of them a
/// control character.
pub open spec fn valid_password(s: Seq<char>) -> bool {
    &&& MIN_PASSWORD_CHARS <= s.len() <= MAX_PASSWORD_CHARS
    &&& forall|i: int| 0 <= i < s.len() ==> !is_control(#[trigger] s[i])
}

/// A text with fewer characters than the minimum is no password.
pub proof fn short_password_is_invalid(s: Seq<char>)
    requires
        s.len() < MIN_PASSWORD_CHARS,
    ensures
        !valid_password(s),
{
}

/// The one error of password validation. It carries no reason, so that a
/// caller learns nothing of the policy from a refusal.
#[derive(Clone, Copy, Debug, PartialEq, Eq, Structural)]
pub struct InvalidPassword;

/// A password that meets the policy.
pub struct UserPassword {
    raw: String,
}

impl View for UserPassword {
    type V = Seq<char>;

    closed spec fn view(&self) -> Seq<char> {
        self.raw@
    }
}

fn is_control_char(c: char) -> (b: bool)
    ensures
        b == is_control(c),
{
    let code: u32 = c as u32;
    code < 0x20 || code == 0x7f
}

impl Clone for UserPassword {
    fn clone(&self) -> (copy: Self)
        ensures
            copy@ == self@,
    {
        proof {
            use_type_invariant(self);
        }
        UserPassword { raw: self.raw.clone() }
    }
}

impl UserPassword {
    #[verifier::type_invariant]
    pub open spec fn meets_policy(self) -> bool {
        valid_password(self@)
    }

    /// Accepts `raw` exactly when it meets the policy, and keeps its text.
    pub fn parse(raw: String) -> (r: Result<UserPassword, InvalidPassword>)
        ensures
            r is Ok <==> valid_password(raw@),
            r matches Ok(p) ==> p@ == raw@,
    {
        let n: usize = raw.as_str().unicode_len();
        if n < MIN_PASSWORD_CHARS || n > MAX_PASSWORD_CHARS {
            return Err(InvalidPassword);
        }
        let mut i: usize = 0;
        while i < n
            invariant
                i <= n,
                n == raw@.len(),
                forall|j: int| 0 <= j < i ==> !is_control(#[trigger] raw@[j]),
            decreases n - i,
        {
            let c = raw.as_str().get_char(i);
            if is_control_char(c) {
                return Err(InvalidPassword);
            }
            i += 1;
        }
        Ok(UserPassword { raw })
    }

    /// The password's text, which meets the policy.
    pub fn as_str(&self) -> (s: &str)
        ensures
            s@ == self@,
            valid_password(s@),
    {
        proof {
            use_type_invariant(self);
        }
        self.raw.as_str()
    }

    /// Gives the text back.
    pub fn into_inner(self) -> (s: String)
        ensures
            s@ == self@,
            valid_password(s@),
    {
        proof {
            use_type_invariant(&self);
        }
        self.raw
    }
}

} // verus!
