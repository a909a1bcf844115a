//! Mail addresses: what counts as one, and a type that holds only valid ones.

use crate::text::{
    char_is_alphanumeric, char_is_punctuation, find_from, first_is_unique, first_of, is_alphanumeric,
    is_first, is_punctuation, same_text, split, split_on, texts,
};
use vstd::prelude::*;

verus! {

/// The domain that the festival's own addresses end in.
pub open spec fn sohosai_domain() -> Seq<char> {
    "sohosai.com"@
}

/// The marks that a local part may not hold, the dot aside.
pub open spec fn special(c: char) -> bool {
    c == '(' || c == ')' || c == '<' || c == '>' || c == '[' || c == ']' || c == ':' || c == ';'
        || c == '@' || c == '\\' || c == ',' || c == '.' || c == '"'
}

/// A character that a local part may hold: a dot, an ASCII letter or digit,
/// or an ASCII punctuation mark that is not special.
pub open spec fn local_char(c: char) -> bool {
    c == '.' || is_alphanumeric(c) || (is_punctuation(c) && !special(c))
}

/// A local part is valid when each of its characters may stand in one.
pub open spec fn valid_local(s: Seq<char>) -> bool {
    forall|i: int| 0 <= i < s.len() ==> local_char(#[trigger] s[i])
}

/// A label of a domain is valid when it has between 1 and 63 characters,
/// each a hyphen or an ASCII letter or digit, and a hyphen at neither end.
pub open spec fn valid_label(s: Seq<char>) -> bool {
    &&& 0 < s.len() <= 63
    &&& s[0] != '-'
    &&& s.last() != '-'
    &&& forall|i: int| 0 <= i < s.len() ==> (#[trigger] s[i]) == '-' || is_alphanumeric(s[i])
}

/// A domain is valid when each of the labels between its dots is.
pub open spec fn valid_domain(s: Seq<char>) -> bool {
    forall|k: int| 0 <= k < split_on(s, '.').len() ==> valid_label(#[trigger] split_on(s, '.')[k])
}

/// What stands before and after the first `@` of `s`, where both are not
/// empty.
pub open spec fn local_and_domain(s: Seq<char>) -> Option<(Seq<char>, Seq<char>)> {
    if exists|i: int| is_first(s, '@', i) {
        let i = first_of(s, '@');
        if i == 0 || i + 1 == s.len() {
            None
        } else {
            Some((s.subrange(0, i), s.subrange(i + 1, s.len() as int)))
        }
    } else {
        None
    }
}

/// A mail address is a valid local part, an `@` and a valid domain.
pub open spec fn valid_email(s: Seq<char>) -> bool {
    match local_and_domain(s) {
        Some((local, domain)) => valid_local(local) && valid_domain(domain),
        None => false,
    }
}

/// An address of the festival is a valid local part, an `@` and the
/// festival's domain.
pub open spec fn valid_sohosai_email(s: Seq<char>) -> bool {
    match local_and_domain(s) {
        Some((local, domain)) => valid_local(local) && domain == sohosai_domain(),
        None => false,
    }
}

/// A mail address that has been checked.
#[derive(Debug, Clone, PartialEq, Eq, PartialOrd, Hash)]
pub struct EmailAddress(String);

/// The text given was no mail address.
#[derive(Debug, Clone, Copy)]
pub struct FromStringError {
    _priv: (),
}

impl View for EmailAddress {
    type V = Seq<char>;

    closed spec fn view(&self) -> Seq<char> {
        self.0@
    }
}

impl EmailAddress {
    /// Takes `s` as a mail address if it is a valid one.
    pub fn from_string(s: String) -> (res: Result<EmailAddress, FromStringError>)
        ensures
            res is Ok <==> valid_email(s@),
            res matches Ok(address) ==> address@ == s@,
    {
        if is_valid_email_address(s.as_str()) {
            Ok(EmailAddress(s))
        } else {
            Err(FromStringError { _priv: () })
        }
    }

    /// The address as text.
    pub fn as_str(&self) -> (s: &str)
        ensures
            s@ == self@,
    {
        self.0.as_str()
    }

    /// The address as an owned text.
    pub fn into_string(self) -> (s: String)
        ensures
            s@ == self@,
    {
        self.0
    }

    /// The address as text.
    pub fn to_string(&self) -> (s: String)
        ensures
            s@ == self@,
    {
        self.0.clone()
    }
}

impl FromStringError {
    /// What went wrong, in words.
    pub fn to_string(&self) -> (s: String)
        ensures
            s@ == "incalid email address"@,
    {
        "incalid email address".to_owned()
    }
}

impl std::str::FromStr for EmailAddress {
    type Err = FromStringError;

    fn from_str(s: &str) -> (res: Result<EmailAddress, FromStringError>)
        ensures
            res is Ok <==> valid_email(s@),
            res matches Ok(address) ==> address@ == s@,
    {
        EmailAddress::from_string(s.to_owned())
    }
}

/// Whether `c` is one of the marks that a local part may not hold.
pub fn is_specials(c: char) -> (b: bool)
    ensures
        b == special(c),
{
    c == '(' || c == ')' || c == '<' || c == '>' || c == '[' || c == ']' || c == ':' || c == ';'
        || c == '@' || c == '\\' || c == ',' || c == '.' || c == '"'
}

/// Parts `s` at its first `@`.
pub fn split_local_and_domain(s: &str) -> (parts: Option<(&str, &str)>)
    ensures
        match parts {
            Some((local, domain)) => local_and_domain(s@) == Some((local@, domain@)),
            None => local_and_domain(s@) is None,
        },
{
    let n = s.unicode_len();
    proof {
        assert(s@.subrange(0, n as int) == s@);
    }
    match find_from(s, 0, '@') {
        Some(i) => {
            proof {
                first_is_unique(s@, '@', i as int);
            }
            if i == 0 || i + 1 == n {
                None
            } else {
                Some((s.substring_char(0, i), s.substring_char(i + 1, n)))
            }
        },
        None => {
            assert(!exists|i: int| is_first(s@, '@', i));
            None
        },
    }
}

/// Whether `s` is a valid local part.
pub fn is_valid_local(s: &str) -> (b: bool)
    ensures
        b == valid_local(s@),
{
    let n = s.unicode_len();
    let mut i: usize = 0;
    while i < n
        invariant
            n == s@.len(),
            i <= n,
            forall|j: int| 0 <= j < i ==> local_char(#[trigger] s@[j]),
        decreases n - i,
    {
        let c = s.get_char(i);
        if !(c == '.' || char_is_alphanumeric(c) || (char_is_punctuation(c) && !is_specials(c))) {
            assert(!local_char(s@[i as int]));
            return false;
        }
        i += 1;
    }
    true
}

/// Whether `s` is a valid label of a domain.
fn is_valid_label(s: &str) -> (b: bool)
    ensures
        b == valid_label(s@),
{
    let n = s.unicode_len();
    if n == 0 || n > 63 {
        return false;
    }
    if s.get_char(0) == '-' || s.get_char(n - 1) == '-' {
        return false;
    }
    let mut i: usize = 0;
    while i < n
        invariant
            n == s@.len(),
            i <= n,
            forall|j: int| 0 <= j < i ==> (#[trigger] s@[j]) == '-' || is_alphanumeric(s@[j]),
        decreases n - i,
    {
        let c = s.get_char(i);
        if !(c == '-' || char_is_alphanumeric(c)) {
            assert(!(s@[i as int] == '-' || is_alphanumeric(s@[i as int])));
            return false;
        }
        i += 1;
    }
    true
}

/// Whether `s` is a valid mail address.
pub fn is_valid_email_address(s: &str) -> (b: bool)
    ensures
        b == valid_email(s@),
{
    let (local_part, domain) = match split_local_and_domain(s) {
        None => return false,
        Some(x) => x,
    };
    if !is_valid_local(local_part) {
        return false;
    }
    let labels = split(domain, '.');
    let ghost all = split_on(domain@, '.');
    let mut k: usize = 0;
    while k < labels.len()
        invariant
            local_and_domain(s@) == Some((local_part@, domain@)),
            texts(labels@) == all,
            all == split_on(domain@, '.'),
            k <= labels.len(),
            forall|j: int| 0 <= j < k ==> valid_label(#[trigger] all[j]),
        decreases labels.len() - k,
    {
        assert(texts(labels@)[k as int] == labels@[k as int]@);
        if !is_valid_label(labels[k].as_str()) {
            assert(texts(labels@).len() == labels@.len());
            assert(!valid_label(split_on(domain@, '.')[k as int]));
            assert(!valid_domain(domain@));
            return false;
        }
        k += 1;
    }
    assert(texts(labels@).len() == labels@.len());
    true
}

/// Whether `s` is a valid mail address of the festival.
pub fn is_valid_sohosai_email_address(s: &str) -> (b: bool)
    ensures
        b == valid_sohosai_email(s@),
{
    let (local_part, domain) = match split_local_and_domain(s) {
        None => return false,
        Some(x) => x,
    };
    if !is_valid_local(local_part) {
        return false;
    }
    same_text(domain, "sohosai.com")
}

} // verus!
