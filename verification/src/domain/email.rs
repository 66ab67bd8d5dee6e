//! The grammar of e-mail addresses and the validated address type.
//!
//! An address is a local part, one `@`, and a domain. The local part is made
//! of letters, digits and a fixed set of symbols. The domain is made of
//! labels separated by dots; a label is made of letters, digits and hyphens
//! and begins and ends with a letter or a digit. Only ASCII is accepted.

use vstd::prelude::*;
use vstd::string::*;
use vstd::utf8::is_ascii_chars;

verus! {

/// Most characters the local part may have.
pub const MAX_LOCAL_CHARS: usize = 64;

/// Most characters the domain may have.
pub const MAX_DOMAIN_CHARS: usize = 255;

/// An ASCII letter or digit.
pub open spec fn is_alnum(c: char) -> bool {
    ('a' <= c && c <= 'z') || ('A' <= c && c <= 'Z') || ('0' <= c && c <= '9')
}

/// A symbol that the local part may hold besides letters and digits.
pub open spec fn is_local_symbol(c: char) -> bool {
    c == '.' || c == '!' || c == '#' || c == '$' || c == '%' || c == '&' || c == '\'' || c == '*'
        || c == '+' || c == '/' || c == '=' || c == '?' || c == '^' || c == '_' || c == '`' || c
        == '{' || c == '|' || c == '}' || c == '~' || c == '-'
}

/// A character of the local part.
pub open spec fn is_local_char(c: char) -> bool {
    is_alnum(c) || is_local_symbol(c)
}

/// A character of the domain.
pub open spec fn is_domain_char(c: char) -> bool {
    is_alnum(c) || c == '-' || c == '.'
}

/// Every character of `s` is one of the local part.
pub open spec fn all_local_chars(s: Seq<char>) -> bool {
    forall|i: int| 0 <= i < s.len() ==> is_local_char(#[trigger] s[i])
}

/// A local part: not empty, not too long, of local characters only.
pub open spec fn valid_local(s: Seq<char>) -> bool {
    &&& 1 <= s.len() <= MAX_LOCAL_CHARS
    &&& all_local_chars(s)
}

/// `s` is a dot-separated list of labels: it is made of domain characters,
/// it begins and ends with a letter or a digit, and so does every label,
/// which is to say that a letter or a digit stands on both sides of each dot.
pub open spec fn well_formed_labels(s: Seq<char>) -> bool {
    &&& s.len() >= 1
    &&& is_alnum(s[0])
    &&& is_alnum(s[s.len() - 1])
    &&& forall|i: int| 0 <= i < s.len() ==> is_domain_char(#[trigger] s[i])
    &&& forall|i: int|
        0 < i < s.len() - 1 && #[trigger] s[i] == '.' ==> is_alnum(s[i - 1]) && is_alnum(s[i + 1])
}

/// A domain: not empty, not too long, and a well-formed list of labels.
pub open spec fn valid_domain(s: Seq<char>) -> bool {
    &&& 1 <= s.len() <= MAX_DOMAIN_CHARS
    &&& well_formed_labels(s)
}

/// `s` splits at `at` into a valid local part, an `@` and a valid domain.
pub open spec fn splits_at(s: Seq<char>, at: int) -> bool {
    &&& 0 <= at < s.len()
    &&& s[at] == '@'
    &&& valid_local(s.subrange(0, at))
    &&& valid_domain(s.subrange(at + 1, s.len() as int))
}

/// The grammar: the text splits somewhere into local part, `@` and domain.
pub open spec fn valid_email(s: Seq<char>) -> bool {
    exists|at: int| #[trigger] splits_at(s, at)
}

/// `at` is the place of the first `@` of `s`.
pub open spec fn is_first_at(s: Seq<char>, at: int) -> bool {
    &&& 0 <= at < s.len()
    &&& s[at] == '@'
    &&& forall|j: int| 0 <= j < at ==> #[trigger] s[j] != '@'
}

/// The place of the first `@` of a text that holds one.
pub open spec fn first_at(s: Seq<char>) -> int {
    choose|at: int| is_first_at(s, at)
}

/// The text before the first `@`.
pub open spec fn local_part(s: Seq<char>) -> Seq<char> {
    s.subrange(0, first_at(s))
}

/// The text after the first `@`.
pub open spec fn domain_part(s: Seq<char>) -> Seq<char> {
    s.subrange(first_at(s) + 1, s.len() as int)
}

/// Why an address was refused.
#[derive(Clone, Copy, Debug, PartialEq, Eq, Structural)]
pub enum EmailError {
    /// A character outside ASCII occurs.
    NotAscii,
    /// There is no `@`.
    MissingAt,
    /// Nothing stands before the first `@`.
    EmptyLocal,
    /// The local part has more than `MAX_LOCAL_CHARS` characters.
    LocalTooLong,
    /// The local part holds a character that it may not hold.
    InvalidLocalCharacter,
    /// Nothing follows the first `@`.
    MissingDomain,
    /// The domain has more than `MAX_DOMAIN_CHARS` characters.
    DomainTooLong,
    /// The domain is no well-formed list of labels.
    InvalidDomain,
}

/// The reason reported for `s`: the first rule it breaks, in the order of
/// the variants of `EmailError`; `None` when it breaks none.
pub open spec fn email_fault(s: Seq<char>) -> Option<EmailError> {
    if !is_ascii_chars(s) {
        Some(EmailError::NotAscii)
    } else if !s.contains('@') {
        Some(EmailError::MissingAt)
    } else if local_part(s).len() == 0 {
        Some(EmailError::EmptyLocal)
    } else if local_part(s).len() > MAX_LOCAL_CHARS {
        Some(EmailError::LocalTooLong)
    } else if !all_local_chars(local_part(s)) {
        Some(EmailError::InvalidLocalCharacter)
    } else if domain_part(s).len() == 0 {
        Some(EmailError::MissingDomain)
    } else if domain_part(s).len() > MAX_DOMAIN_CHARS {
        Some(EmailError::DomainTooLong)
    } else if !well_formed_labels(domain_part(s)) {
        Some(EmailError::InvalidDomain)
    } else {
        None
    }
}

/// The place of the first `@` is the only place that meets `is_first_at`.
pub proof fn first_at_is_unique(s: Seq<char>, at: int)
    requires
        is_first_at(s, at),
    ensures
        first_at(s) == at,
{
}

/// Where a text splits into a valid address, its first `@` stands.
pub proof fn split_is_at_first_at(s: Seq<char>, at: int)
    requires
        splits_at(s, at),
    ensures
        is_first_at(s, at),
        first_at(s) == at,
{
    let local = s.subrange(0, at);
    assert forall|j: int| 0 <= j < at implies #[trigger] s[j] != '@' by {
        assert(is_local_char(local[j]));
    }
    first_at_is_unique(s, at);
}

/// An address has no fault exactly when the grammar accepts it.
pub proof fn email_fault_none_iff_valid(s: Seq<char>)
    ensures
        email_fault(s) is None <==> valid_email(s),
{
    if valid_email(s) {
        let at = choose|at: int| #[trigger] splits_at(s, at);
        split_is_at_first_at(s, at);
        let local = s.subrange(0, at);
        let domain = s.subrange(at + 1, s.len() as int);
        assert forall|i: int| 0 <= i < s.len() implies '\0' <= #[trigger] s[i] <= '\u{7f}' by {
            if i < at {
                assert(is_local_char(local[i]));
            } else if i > at {
                assert(is_domain_char(domain[i - at - 1]));
            }
        }
    }
    if email_fault(s) is None {
        let k = choose|k: int| 0 <= k < s.len() && s[k] == '@';
        first_at_exists(s, k);
        assert(splits_at(s, first_at(s)));
    }
}

/// A text that holds an `@` has a first one.
pub proof fn first_at_exists(s: Seq<char>, k: int)
    requires
        0 <= k < s.len(),
        s[k] == '@',
    ensures
        is_first_at(s, first_at(s)),
        first_at(s) <= k,
    decreases k,
{
    if exists|j: int| 0 <= j < k && s[j] == '@' {
        let j = choose|j: int| 0 <= j < k && s[j] == '@';
        first_at_exists(s, j);
    } else {
        first_at_is_unique(s, k);
    }
}

/// A text without `@` is no address.
pub proof fn email_needs_at(s: Seq<char>)
    requires
        !s.contains('@'),
    ensures
        !valid_email(s),
        email_fault(s) is Some,
{
    email_fault_none_iff_valid(s);
}

/// A text that ends with an `@`, so that no domain follows, is no address.
pub proof fn email_needs_domain(s: Seq<char>)
    requires
        s.len() > 0,
        s.last() == '@',
    ensures
        !valid_email(s),
        email_fault(s) is Some,
{
    email_fault_none_iff_valid(s);
}

/// A validated e-mail address.
pub struct UserEmail {
    raw: String,
}

impl View for UserEmail {
    type V = Seq<char>;

    closed spec fn view(&self) -> Seq<char> {
        self.raw@
    }
}

/// An ASCII character is the character of its byte.
proof fn ascii_char_of_byte(c: char)
    requires
        '\0' <= c <= '\u{7f}',
    ensures
        (c as u8) as char == c,
{
}

fn is_alnum_byte(b: u8) -> (r: bool)
    ensures
        r == is_alnum(b as char),
{
    (0x61 <= b && b <= 0x7a) || (0x41 <= b && b <= 0x5a) || (0x30 <= b && b <= 0x39)
}

fn is_local_byte(b: u8) -> (r: bool)
    ensures
        r == is_local_char(b as char),
{
    is_alnum_byte(b) || b == 0x2e || b == 0x21 || b == 0x23 || b == 0x24 || b == 0x25 || b == 0x26
        || b == 0x27 || b == 0x2a || b == 0x2b || b == 0x2f || b == 0x3d || b == 0x3f || b == 0x5e
        || b == 0x5f || b == 0x60 || b == 0x7b || b == 0x7c || b == 0x7d || b == 0x7e || b == 0x2d
}

fn is_domain_byte(b: u8) -> (r: bool)
    ensures
        r == is_domain_char(b as char),
{
    is_alnum_byte(b) || b == 0x2d || b == 0x2e
}

/// The place of the first `@` in an ASCII text, or the text's length where
/// it holds none.
fn find_at(text: &str) -> (at: usize)
    requires
        is_ascii_chars(text@),
    ensures
        at <= text@.len(),
        at < text@.len() ==> is_first_at(text@, at as int),
        at == text@.len() ==> !text@.contains('@'),
{
    let bytes = text.as_bytes();
    proof {
        is_ascii_spec_bytes(text);
    }
    let n: usize = bytes.len();
    let mut i: usize = 0;
    while i < n
        invariant
            i <= n,
            n == text@.len(),
            is_ascii_chars(text@),
            bytes@ =~= Seq::new(text@.len(), |k: int| text@[k] as u8),
            forall|j: int| 0 <= j < i ==> #[trigger] text@[j] != '@',
        decreases n - i,
    {
        if bytes[i] == 0x40 {
            proof {
                ascii_char_of_byte(text@[i as int]);
            }
            return i;
        }
        i += 1;
    }
    i
}

/// Whether every character of an ASCII text may stand in a local part.
fn only_local_chars(text: &str) -> (ok: bool)
    requires
        is_ascii_chars(text@),
    ensures
        ok == all_local_chars(text@),
{
    let bytes = text.as_bytes();
    proof {
        is_ascii_spec_bytes(text);
    }
    let n: usize = bytes.len();
    let mut i: usize = 0;
    while i < n
        invariant
            i <= n,
            n == text@.len(),
            is_ascii_chars(text@),
            bytes@ =~= Seq::new(text@.len(), |k: int| text@[k] as u8),
            forall|j: int| 0 <= j < i ==> is_local_char(#[trigger] text@[j]),
        decreases n - i,
    {
        proof {
            ascii_char_of_byte(text@[i as int]);
        }
        if !is_local_byte(bytes[i]) {
            return false;
        }
        i += 1;
    }
    true
}

/// Whether an ASCII text is a well-formed list of labels.
fn labels_well_formed(text: &str) -> (ok: bool)
    requires
        is_ascii_chars(text@),
    ensures
        ok == well_formed_labels(text@),
{
    let bytes = text.as_bytes();
    proof {
        is_ascii_spec_bytes(text);
    }
    let n: usize = bytes.len();
    if n == 0 {
        return false;
    }
    proof {
        ascii_char_of_byte(text@[0]);
        ascii_char_of_byte(text@[n - 1]);
    }
    if !is_alnum_byte(bytes[0]) || !is_alnum_byte(bytes[n - 1]) {
        return false;
    }
    let mut i: usize = 0;
    while i < n
        invariant
            i <= n,
            n == text@.len(),
            n >= 1,
            is_ascii_chars(text@),
            bytes@ =~= Seq::new(text@.len(), |k: int| text@[k] as u8),
            forall|j: int| 0 <= j < i ==> is_domain_char(#[trigger] text@[j]),
            forall|j: int|
                0 < j < i && j < n - 1 && #[trigger] text@[j] == '.' ==> is_alnum(text@[j - 1])
                    && is_alnum(text@[j + 1]),
        decreases n - i,
    {
        proof {
            ascii_char_of_byte(text@[i as int]);
        }
        let b: u8 = bytes[i];
        if !is_domain_byte(b) {
            return false;
        }
        if b == 0x2e && 0 < i && i < n - 1 {
            proof {
                ascii_char_of_byte(text@[i - 1]);
                ascii_char_of_byte(text@[i + 1]);
            }
            if !is_alnum_byte(bytes[i - 1]) || !is_alnum_byte(bytes[i + 1]) {
                return false;
            }
        }
        i += 1;
    }
    true
}

impl Clone for UserEmail {
    fn clone(&self) -> (copy: Self)
        ensures
            copy@ == self@,
    {
        proof {
            use_type_invariant(self);
        }
        UserEmail { raw: self.raw.clone() }
    }
}

impl UserEmail {
    #[verifier::type_invariant]
    pub open spec fn well_formed(self) -> bool {
        valid_email(self@)
    }

    /// Accepts `raw` exactly when the grammar accepts it, keeping its text;
    /// otherwise reports the first rule that `raw` breaks.
    pub fn parse(raw: String) -> (r: Result<UserEmail, EmailError>)
        ensures
            match r {
                Ok(email) => valid_email(raw@) && email@ == raw@,
                Err(reason) => !valid_email(raw@) && email_fault(raw@) == Some(reason),
            },
    {
        proof {
            email_fault_none_iff_valid(raw@);
        }
        let text = raw.as_str();
        if !text.is_ascii() {
            return Err(EmailError::NotAscii);
        }
        let n: usize = text.unicode_len();
        let at: usize = find_at(text);
        if at == n {
            return Err(EmailError::MissingAt);
        }
        proof {
            first_at_is_unique(raw@, at as int);
        }
        if at == 0 {
            return Err(EmailError::EmptyLocal);
        }
        if at > MAX_LOCAL_CHARS {
            return Err(EmailError::LocalTooLong);
        }
        let local = text.substring_ascii(0, at);
        if !only_local_chars(local) {
            return Err(EmailError::InvalidLocalCharacter);
        }
        let domain = text.substring_ascii(at + 1, n);
        if n - at - 1 == 0 {
            return Err(EmailError::MissingDomain);
        }
        if n - at - 1 > MAX_DOMAIN_CHARS {
            return Err(EmailError::DomainTooLong);
        }
        if !labels_well_formed(domain) {
            return Err(EmailError::InvalidDomain);
        }
        Ok(UserEmail { raw })
    }

    /// The address's text, which the grammar accepts.
    pub fn as_str(&self) -> (s: &str)
        ensures
            s@ == self@,
            valid_email(s@),
    {
        proof {
            use_type_invariant(self);
        }
        self.raw.as_str()
    }

    /// Gives the text back.
    pub fn into_inner(self) -> (s: String)
        ensures
            s@ == self@,
            valid_email(s@),
    {
        proof {
            use_type_invariant(&self);
        }
        self.raw
    }
}

} // verus!
