//! The token of a `Bearer` authentication header.

use crate::text::{begins_with, strip_prefix, trim, trimmed};
use vstd::prelude::*;

verus! {

/// The token that a request bears.
#[derive(Debug, Clone, PartialEq, Eq)]
pub struct Bearer {
    pub token: String,
}

/// The header's value does not begin with `Bearer`.
#[derive(Debug, Clone, Copy)]
pub struct FromStrError {
    _priv: (),
}

/// The word that the header's value begins with.
pub open spec fn scheme() -> Seq<char> {
    "Bearer"@
}

/// The token in the header's value `s`: what follows the word `Bearer`,
/// without the white space around it. White space before the word does not
/// count.
pub open spec fn bearer_token(s: Seq<char>) -> Option<Seq<char>> {
    let value = trimmed(s);
    if begins_with(value, scheme()) {
        Some(trimmed(value.subrange(scheme().len() as int, value.len() as int)))
    } else {
        None
    }
}

impl Bearer {
    /// Reads the token from the value `s` of an authentication header.
    pub fn parse(s: &str) -> (res: Result<Bearer, FromStrError>)
        ensures
            match res {
                Ok(bearer) => bearer_token(s@) == Some(bearer.token@),
                Err(_) => bearer_token(s@) is None,
            },
    {
        match strip_prefix(trim(s), "Bearer") {
            Some(rest) => Ok(Bearer { token: trim(rest).to_owned() }),
            None => Err(FromStrError { _priv: () }),
        }
    }
}

impl FromStrError {
    /// What went wrong, in words.
    pub fn to_string(&self) -> (s: String)
        ensures
            s@ == "invalid bearer authentication header value"@,
    {
        "invalid bearer authentication header value".to_owned()
    }
}

impl std::str::FromStr for Bearer {
    type Err = FromStrError;

    fn from_str(s: &str) -> (res: Result<Bearer, FromStrError>)
        ensures
            match res {
                Ok(bearer) => bearer_token(s@) == Some(bearer.token@),
                Err(_) => bearer_token(s@) is None,
            },
    {
        Bearer::parse(s)
    }
}

} // verus!
