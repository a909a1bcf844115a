//! The users of the service.

use crate::certification::Role;
use crate::email::EmailAddress;
use vstd::prelude::*;

verus! {

/// The identifier of a user, as the login service gives it.
#[derive(Debug, Clone, PartialEq, Eq)]
pub struct UserId(pub String);

/// The name of a user.
#[derive(Debug, Clone, PartialEq, Eq)]
pub struct UserName {
    pub first: String,
    pub last: String,
}

/// A user.
#[derive(Debug, Clone, PartialEq, Eq)]
pub struct User {
    /// The user's identifier.
    pub id: UserId,
    /// When the user signed up.
    pub created_at: i64,
    /// The user's name.
    pub name: UserName,
    /// The user's mail address.
    pub email: EmailAddress,
    /// What the user may do.
    pub role: Role,
}

/// Who is logged in for the request at hand.
pub trait AuthenticationContext {
    /// The identifier of the user who is logged in.
    fn login_user(&self) -> UserId;

    /// The mail address of the user who is logged in.
    fn login_email(&self) -> EmailAddress;
}

} // verus!
