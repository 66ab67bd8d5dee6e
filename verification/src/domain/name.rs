//! The rules for a user's display name and the validated name type.

use vstd::prelude::*;
use vstd::string::*;

verus! {

/// Most characters a name may have.
pub const MAX_NAME_CHARS: usize = 256;

/// A space, a tab, a line feed or a carriage return.
pub open spec fn is_blank(c: char) -> bool {
    c == ' ' || c == '\t' || c == '\n' || c == '\r'
}

/// A character that no name may hold: one of `/ ( ) " < > \ { }`.
pub open spec fn is_forbidden(c: char) -> bool {
    c == '/' || c == '(' || c == ')' || c == '"' || c == '<' || c == '>' || c == '\\' || c == '{'
        || c == '}'
}

/// No character of `s` is anything but blank; true of the empty text.
pub open spec fn all_blank(s: Seq<char>) -> bool {
    forall|i: int| 0 <= i < s.len() ==> is_blank(#[trigger] s[i])
}

/// Some character of `s` is forbidden.
pub open spec fn has_forbidden(s: Seq<char>) -> bool {
    exists|i: int| 0 <= i < s.len() && is_forbidden(#[trigger] s[i])
}

/// A name is valid when it is not too long, shows at least one character
/// that is not blank, and holds no forbidden character.
pub open spec fn valid_name(s: Seq<char>) -> bool {
    &&& s.len() <= MAX_NAME_CHARS
    &&& !all_blank(s)
    &&& !has_forbidden(s)
}

/// Why a name was refused.
#[derive(Clone, Copy, Debug, PartialEq, Eq, Structural)]
pub enum NameError {
    /// More than `MAX_NAME_CHARS` characters.
    TooLong,
    /// Nothing but blanks, or nothing at all.
    Empty,
    /// A forbidden character occurs.
    ForbiddenCharacter,
}

/// The reason reported for `s`: the first rule it breaks, in the order
/// length, emptiness, forbidden characters; `None` when it breaks none.
pub open spec fn name_fault(s: Seq<char>) -> Option<NameError> {
    if s.len() > MAX_NAME_CHARS {
        Some(NameError::TooLong)
    } else if all_blank(s) {
        Some(NameError::Empty)
    } else if has_forbidden(s) {
        Some(NameError::ForbiddenCharacter)
    } else {
        None
    }
}

/// A name has no fault exactly when it is valid.
pub proof fn name_fault_none_iff_valid(s: Seq<char>)
    ensures
        name_fault(s) is None <==> valid_name(s),
{
}

/// A valid name has at least one character.
pub proof fn valid_name_is_nonempty(s: Seq<char>)
    requires
        valid_name(s),
    ensures
        s.len() > 0,
{
}

/// A name that passed validation.
pub struct UserName {
    raw: String,
}

impl View for UserName {
    type V = Seq<char>;

    closed spec fn view(&self) -> Seq<char> {
        self.raw@
    }
}

fn is_blank_char(c: char) -> (b: bool)
    ensures
        b == is_blank(c),
{
    c == ' ' || c == '\t' || c == '\n' || c == '\r'
}

fn is_forbidden_char(c: char) -> (b: bool)
    ensures
        b == is_forbidden(c),
{
    c == '/' || c == '(' || c == ')' || c == '"' || c == '<' || c == '>' || c == '\\' || c == '{'
        || c == '}'
}

impl Clone for UserName {
    fn clone(&self) -> (copy: Self)
        ensures
            copy@ == self@,
    {
        proof {
            use_type_invariant(self);
        }
        UserName { raw: self.raw.clone() }
    }
}

impl UserName {
    #[verifier::type_invariant]
    pub open spec fn well_formed(self) -> bool {
        valid_name(self@)
    }

    /// Accepts `raw` exactly when it is a valid name, keeping its text;
    /// otherwise reports the first rule that `raw` breaks.
    pub fn parse(raw: String) -> (r: Result<UserName, NameError>)
        ensures
            match r {
                Ok(name) => valid_name(raw@) && name@ == raw@,
                Err(reason) => !valid_name(raw@) && name_fault(raw@) == Some(reason),
            },
    {
        let n: usize = raw.as_str().unicode_len();
        if n > MAX_NAME_CHARS {
            return Err(NameError::TooLong);
        }
        let mut shown: bool = false;
        let mut forbidden: bool = false;
        let mut i: usize = 0;
        while i < n
            invariant
                i <= n,
                n == raw@.len(),
                shown <==> exists|j: int| 0 <= j < i && !is_blank(#[trigger] raw@[j]),
                forbidden <==> exists|j: int| 0 <= j < i && is_forbidden(#[trigger] raw@[j]),
            decreases n - i,
        {
            let c = raw.as_str().get_char(i);
            if !is_blank_char(c) {
                shown = true;
            }
            if is_forbidden_char(c) {
                forbidden = true;
            }
            i += 1;
        }
        if !shown {
            Err(NameError::Empty)
        } else if forbidden {
            Err(NameError::ForbiddenCharacter)
        } else {
            Ok(UserName { raw })
        }
    }

    /// The name's text, which is a valid name.
    pub fn as_str(&self) -> (s: &str)
        ensures
            s@ == self@,
            valid_name(s@),
    {
        proof {
            use_type_invariant(self);
        }
        self.raw.as_str()
    }

    /// Gives the text back.
    pub fn into_inner(self) -> (s: String)
        ensures
            s@ == self@,
            valid_name(s@),
    {
        proof {
            use_type_invariant(&self);
        }
        self.raw
    }
}

} // verus!
