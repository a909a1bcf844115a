//! Signing up.

use crate::certification::Role;
use crate::email::EmailAddress;
use crate::model;
use crate::user::{User, UserId, UserName};
use vstd::prelude::*;

verus! {

/// Why a user cannot sign up.
#[derive(Debug, Clone, Copy, PartialEq, Eq, Structural)]
pub enum Error {
    /// The user has signed up before.
    AlreadySignedUp,
}

/// Signs up the user who is logged in under the identifier `id` and the
/// mail address `email`, at the time `now`, given what the registry holds
/// under that identifier: a user who is new becomes a user who may read.
pub fn run(found: Option<User>, id: UserId, name: UserName, email: EmailAddress, now: i64) -> (res:
    Result<User, Error>)
    ensures
        match res {
            Ok(user) => found is None && user == (User {
                id,
                created_at: now,
                name,
                email,
                role: Role::General,
            }),
            Err(e) => found is Some && e == Error::AlreadySignedUp,
        },
{
    match found {
        Some(_) => Err(Error::AlreadySignedUp),
        None => Ok(User { id, created_at: now, name, email, role: Role::General }),
    }
}

/// The stored role of a role.
pub open spec fn stored_role_of(role: Role) -> model::UserRole {
    match role {
        Role::Administrator => model::UserRole::Administrator,
        Role::EquipmentManager => model::UserRole::EquipmentManager,
        Role::General => model::UserRole::General,
    }
}

/// The row under which `user` is stored.
pub fn stored_user(user: User) -> (row: model::User)
    ensures
        row.id@ == user.id.0@,
        row.created_at == user.created_at,
        row.email@ == user.email@,
        row.role == stored_role_of(user.role),
{
    let User { id, created_at, name: _, email, role } = user;
    model::User {
        id: id.0,
        created_at,
        email: email.into_string(),
        role: match role {
            Role::Administrator => model::UserRole::Administrator,
            Role::EquipmentManager => model::UserRole::EquipmentManager,
            Role::General => model::UserRole::General,
        },
    }
}

} // verus!
