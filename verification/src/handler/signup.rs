//! Signing up, as the transport layer calls it.

use crate::email::EmailAddress;
use crate::use_case::signup;
use crate::user::{User, UserId, UserName};
use vstd::prelude::*;

verus! {

/// What a user gives to sign up.
#[derive(Debug, Clone)]
pub struct Request {
    pub name: UserName,
}

/// What a user gets who signed up.
#[derive(Debug, Clone)]
pub struct Response {
    pub user: User,
}

/// Why a user cannot sign up.
#[derive(Debug, Clone, Copy, PartialEq, Eq, Structural)]
pub enum Error {
    /// The user has signed up before.
    AlreadySignedUp,
}

impl Response {
    /// The HTTP status of the response: created.
    pub fn status_code(&self) -> (code: u16)
        ensures
            code == 201,
    {
        201
    }
}

impl Error {
    /// The HTTP status of the error: a conflict.
    pub fn status_code(&self) -> (code: u16)
        ensures
            code == 409,
    {
        match self {
            Error::AlreadySignedUp => 409,
        }
    }

    /// The error as the transport layer tells it.
    pub fn from(err: signup::Error) -> (e: Error)
        ensures
            e == Error::AlreadySignedUp,
    {
        match err {
            signup::Error::AlreadySignedUp => Error::AlreadySignedUp,
        }
    }
}

/// Signs up the user who is logged in under the identifier `id` and the
/// mail address `email`, at the time `now`, given what the registry holds
/// under that identifier.
pub fn handler(found: Option<User>, id: UserId, email: EmailAddress, now: i64, request: Request) -> (res:
    Result<Response, Error>)
    ensures
        match res {
            Ok(response) => found is None && response.user == (User {
                id,
                created_at: now,
                name: request.name,
                email,
                role: crate::certification::Role::General,
            }),
            Err(e) => found is Some && e == Error::AlreadySignedUp,
        },
{
    match signup::run(found, id, request.name, email, now) {
        Ok(user) => Ok(Response { user }),
        Err(e) => Err(Error::from(e)),
    }
}

} // verus!
