//! Who is logged in.

use crate::user::User;
use vstd::prelude::*;

verus! {

/// Why the user who is logged in cannot be told.
#[derive(Debug, Clone, Copy, PartialEq, Eq, Structural)]
pub enum Error {
    /// The user has not signed up.
    NotSignedUp,
}

/// Tells the user who is logged in, given what the registry holds under
/// the identifier of the login.
pub fn run(found: Option<User>) -> (res: Result<User, Error>)
    ensures
        match res {
            Ok(user) => found == Some(user),
            Err(e) => found is None && e == Error::NotSignedUp,
        },
{
    match found {
        Some(user) => Ok(user),
        None => Err(Error::NotSignedUp),
    }
}

} // verus!
