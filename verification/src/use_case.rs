//! What a user can ask of the service for themselves.

pub mod get_login_user;
pub mod signup;
