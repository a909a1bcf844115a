//! The operations on spots.

use crate::certification::Operation;
use crate::database::spot as table;
use crate::database::spot::spot_views;
use crate::error_handling::{shown, shown_view, QrErrorView, Result};
use crate::handler::query::{given, name_parameter, name_parameter_of};
use crate::handler::{guard, App, AppView};
use crate::{Spot, SpotView};
use vstd::prelude::*;

verus! {

impl AppView {
    /// What entering the spot `spot` answers to the bearer of `bearer`.
    pub open spec fn insert_spot_result(self, bearer: Seq<char>, spot: SpotView, now: i64) -> std::result::Result<
        (),
        QrErrorView,
    > {
        match self.guard(bearer, Operation::Change, now) {
            Err(e) => Err(e),
            Ok(()) => self.conn.insert_spot_result(spot),
        }
    }

    /// The service after the bearer of `bearer` asked to enter the spot
    /// `spot`.
    pub open spec fn after_insert_spot(self, bearer: Seq<char>, spot: SpotView, now: i64) -> AppView {
        if self.guard(bearer, Operation::Change, now) is Ok {
            AppView { conn: self.conn.after_insert_spot(spot), ..self }
        } else {
            self
        }
    }

    /// What replacing a spot by `spot` answers to the bearer of `bearer`.
    pub open spec fn update_spot_result(self, bearer: Seq<char>, spot: SpotView, now: i64) -> std::result::Result<
        (),
        QrErrorView,
    > {
        match self.guard(bearer, Operation::Change, now) {
            Err(e) => Err(e),
            Ok(()) => self.conn.update_spot_result(spot),
        }
    }

    /// The service after the bearer of `bearer` asked to replace a spot by
    /// `spot`.
    pub open spec fn after_update_spot(self, bearer: Seq<char>, spot: SpotView, now: i64) -> AppView {
        if self.guard(bearer, Operation::Change, now) is Ok {
            AppView { conn: self.conn.after_update_spot(spot), ..self }
        } else {
            self
        }
    }

    /// What a look for the spot that the parameter `name` names answers.
    pub open spec fn get_one_spot_result(self, name: Option<Seq<char>>) -> std::result::Result<
        SpotView,
        QrErrorView,
    > {
        match name_parameter_of(name) {
            Err(e) => Err(e),
            Ok(s) => self.conn.get_one_spot_result(s),
        }
    }

    /// What dropping the spot that the parameter `name` names answers to
    /// the bearer of `bearer`. Dropping is for administrators.
    pub open spec fn delete_spot_result(self, bearer: Seq<char>, name: Option<Seq<char>>, now: i64) -> std::result::Result<
        (),
        QrErrorView,
    > {
        match self.guard(bearer, Operation::Destroy, now) {
            Err(e) => Err(e),
            Ok(()) => match name_parameter_of(name) {
                Err(e) => Err(e),
                Ok(s) => self.conn.delete_spot_result(s),
            },
        }
    }

    /// The service after the bearer of `bearer` asked to drop the spot
    /// that the parameter `name` names.
    pub open spec fn after_delete_spot(self, bearer: Seq<char>, name: Option<Seq<char>>, now: i64) -> AppView {
        if self.guard(bearer, Operation::Destroy, now) is Ok && name is Some {
            AppView { conn: self.conn.after_delete_spot(name->0), ..self }
        } else {
            self
        }
    }
}

/// Enters `spot` as a new spot, for a bearer who may change things.
pub fn insert_spot(bearer: &str, spot: Spot, app: &mut App, now: i64) -> (res: Result<()>)
    requires
        old(app).wf(),
    ensures
        final(app).wf(),
        final(app)@ == old(app)@.after_insert_spot(bearer@, spot@, now),
        shown(res) == old(app)@.insert_spot_result(bearer@, spot@, now),
{
    match guard(app, bearer, Operation::Change, now) {
        Err(e) => Err(e),
        Ok(()) => table::insert_spot(&mut app.conn, spot),
    }
}

/// Replaces the spot of `spot`'s name by `spot`, for a bearer who may
/// change things.
pub fn update_spot(bearer: &str, spot: Spot, app: &mut App, now: i64) -> (res: Result<()>)
    requires
        old(app).wf(),
    ensures
        final(app).wf(),
        final(app)@ == old(app)@.after_update_spot(bearer@, spot@, now),
        shown(res) == old(app)@.update_spot_result(bearer@, spot@, now),
{
    match guard(app, bearer, Operation::Change, now) {
        Err(e) => Err(e),
        Ok(()) => table::update_spot(&mut app.conn, spot),
    }
}

/// The spot that the parameter `name` names.
pub fn get_one_spot(name: Option<&str>, app: &App) -> (res: Result<Spot>)
    requires
        app.wf(),
    ensures
        shown_view(res) == app@.get_one_spot_result(given(name)),
{
    match name_parameter(name) {
        Err(e) => Err(e),
        Ok(s) => table::get_one_spot(&app.conn, s),
    }
}

/// All spots.
pub fn get_spot_list(app: &App) -> (res: Result<Vec<Spot>>)
    ensures
        match res {
            Ok(list) => app@.conn.get_spot_list_result() == Ok::<Seq<SpotView>, QrErrorView>(
                spot_views(list@),
            ),
            Err(e) => app@.conn.get_spot_list_result() == Err::<Seq<SpotView>, QrErrorView>(e@),
        },
{
    table::get_spot_list(&app.conn)
}

/// Drops the spot that the parameter `name` names, for a bearer who may
/// destroy things.
pub fn delte_spot(bearer: &str, name: Option<&str>, app: &mut App, now: i64) -> (res: Result<()>)
    requires
        old(app).wf(),
    ensures
        final(app).wf(),
        final(app)@ == old(app)@.after_delete_spot(bearer@, given(name), now),
        shown(res) == old(app)@.delete_spot_result(bearer@, given(name), now),
{
    match guard(app, bearer, Operation::Destroy, now) {
        Err(e) => {
            return Err(e);
        },
        Ok(()) => {},
    }
    match name_parameter(name) {
        Err(e) => Err(e),
        Ok(s) => table::delete_spot(&mut app.conn, s),
    }
}

} // verus!
