//! The operations on containers.

use crate::certification::Operation;
use crate::database::container as table;
use crate::error_handling::{shown, QrErrorView, Result};
use crate::handler::{guard, App, AppView};
use crate::{Container, ContainerView};
use vstd::prelude::*;

verus! {

impl AppView {
    /// What entering the container `container` answers to the bearer of
    /// `bearer`.
    pub open spec fn insert_container_result(
        self,
        bearer: Seq<char>,
        container: ContainerView,
        now: i64,
    ) -> std::result::Result<(), QrErrorView> {
        match self.guard(bearer, Operation::Change, now) {
            Err(e) => Err(e),
            Ok(()) => self.conn.insert_container_result(container),
        }
    }

    /// The service after the bearer of `bearer` asked to enter the
    /// container `container`.
    pub open spec fn after_insert_container(
        self,
        bearer: Seq<char>,
        container: ContainerView,
        now: i64,
    ) -> AppView {
        if self.guard(bearer, Operation::Change, now) is Ok {
            AppView { conn: self.conn.after_insert_container(container), ..self }
        } else {
            self
        }
    }
}

/// Enters `container` as a new container, for a bearer who may change
/// things.
pub fn insert_container(bearer: &str, container: Container, app: &mut App, now: i64) -> (res: Result<
    (),
>)
    requires
        old(app).wf(),
    ensures
        final(app).wf(),
        final(app)@ == old(app)@.after_insert_container(bearer@, container@, now),
        shown(res) == old(app)@.insert_container_result(bearer@, container@, now),
{
    match guard(app, bearer, Operation::Change, now) {
        Err(e) => Err(e),
        Ok(()) => table::insert_container(&mut app.conn, container),
    }
}

} // verus!
