//! What a login token claims of its bearer.

use crate::email::EmailAddress;
use crate::user::UserId;
use vstd::prelude::*;

verus! {

/// The claims of a login token.
#[derive(Debug, Clone)]
pub struct Claims {
    /// The bearer's mail address.
    pub email: Option<EmailAddress>,
    /// Whether the mail address was verified.
    pub email_verified: bool,
    /// The bearer's telephone number.
    pub phone_number: Option<String>,
    /// The bearer's name.
    pub name: Option<String>,
    /// The bearer's identifier.
    pub sub: UserId,
}

} // verus!
