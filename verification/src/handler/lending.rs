//! The operations on lendings.

use crate::certification::Operation;
use crate::database::lending as table;
use crate::database::lending::lending_views;
use crate::error_handling::{shown, shown_view, QrErrorView, Result};
use crate::handler::query::{given, lending_key, lending_key_of, return_key, return_key_of};
use crate::handler::{guard, App, AppView};
use crate::{Lending, LendingView};
use vstd::prelude::*;

verus! {

impl AppView {
    /// What lending answers to the bearer of `bearer`.
    pub open spec fn insert_lending_result(self, bearer: Seq<char>, info: LendingView, now: i64) -> std::result::Result<
        (),
        QrErrorView,
    > {
        match self.guard(bearer, Operation::Change, now) {
            Err(e) => Err(e),
            Ok(()) => self.conn.insert_lending_result(info),
        }
    }

    /// The service after the bearer of `bearer` asked to lend.
    pub open spec fn after_insert_lending(self, bearer: Seq<char>, info: LendingView, now: i64) -> AppView {
        if self.guard(bearer, Operation::Change, now) is Ok {
            AppView { conn: self.conn.after_insert_lending(info), ..self }
        } else {
            self
        }
    }

    /// What a return answers to the bearer of `bearer`.
    pub open spec fn returned_lending_result(
        self,
        bearer: Seq<char>,
        lending_id: Option<Seq<char>>,
        id: Option<Seq<char>>,
        qr_id: Option<Seq<char>>,
        now: i64,
    ) -> std::result::Result<(), QrErrorView> {
        match self.guard(bearer, Operation::Change, now) {
            Err(e) => Err(e),
            Ok(()) => match return_key_of(lending_id, id, qr_id) {
                Err(e) => Err(e),
                Ok(key) => self.conn.returned_lending_result(key),
            },
        }
    }

    /// The service after the bearer of `bearer` asked for a return at the
    /// time `returned_at`.
    pub open spec fn after_returned_lending(
        self,
        bearer: Seq<char>,
        lending_id: Option<Seq<char>>,
        id: Option<Seq<char>>,
        qr_id: Option<Seq<char>>,
        returned_at: i64,
        now: i64,
    ) -> AppView {
        if self.guard(bearer, Operation::Change, now) is Ok && return_key_of(
            lending_id,
            id,
            qr_id,
        ) is Ok {
            AppView {
                conn: self.conn.after_returned_lending(
                    return_key_of(lending_id, id, qr_id)->Ok_0,
                    returned_at,
                ),
                ..self
            }
        } else {
            self
        }
    }

    /// What a look for the open lending that the parameters name answers.
    pub open spec fn get_one_lending_result(
        self,
        lending_id: Option<Seq<char>>,
        fixtures_id: Option<Seq<char>>,
        fixtures_qr_id: Option<Seq<char>>,
    ) -> std::result::Result<LendingView, QrErrorView> {
        match lending_key_of(lending_id, fixtures_id, fixtures_qr_id) {
            Err(e) => Err(e),
            Ok(key) => self.conn.get_one_lending_result(key),
        }
    }

    /// What the question whether an open lending is held under the key
    /// that the parameters name answers.
    pub open spec fn get_is_lending_result(
        self,
        lending_id: Option<Seq<char>>,
        fixtures_id: Option<Seq<char>>,
        fixtures_qr_id: Option<Seq<char>>,
    ) -> std::result::Result<bool, QrErrorView> {
        match lending_key_of(lending_id, fixtures_id, fixtures_qr_id) {
            Err(e) => Err(e),
            Ok(key) => self.conn.is_lending_result(key),
        }
    }
}

/// Lends an item, for a bearer who may change things.
pub fn insert_lending(bearer: &str, lending: Lending, app: &mut App, now: i64) -> (res: Result<()>)
    requires
        old(app).wf(),
    ensures
        final(app).wf(),
        final(app)@ == old(app)@.after_insert_lending(bearer@, lending@, now),
        shown(res) == old(app)@.insert_lending_result(bearer@, lending@, now),
{
    match guard(app, bearer, Operation::Change, now) {
        Err(e) => Err(e),
        Ok(()) => table::insert_lending(&mut app.conn, lending),
    }
}

/// Takes an item back at the time `returned_at`, for a bearer who may
/// change things. The parameters name the lending, the item, or the QR
/// code that the item carries now.
pub fn returned_lending(
    bearer: &str,
    lending_id: Option<&str>,
    id: Option<&str>,
    qr_id: Option<&str>,
    returned_at: i64,
    app: &mut App,
    now: i64,
) -> (res: Result<()>)
    requires
        old(app).wf(),
    ensures
        final(app).wf(),
        final(app)@ == old(app)@.after_returned_lending(
            bearer@,
            given(lending_id),
            given(id),
            given(qr_id),
            returned_at,
            now,
        ),
        shown(res) == old(app)@.returned_lending_result(
            bearer@,
            given(lending_id),
            given(id),
            given(qr_id),
            now,
        ),
{
    match guard(app, bearer, Operation::Change, now) {
        Err(e) => {
            return Err(e);
        },
        Ok(()) => {},
    }
    match return_key(lending_id, id, qr_id) {
        Err(e) => Err(e),
        Ok(key) => table::returned_lending(&mut app.conn, key, returned_at),
    }
}

/// The open lendings.
pub fn get_lending_list(app: &App) -> (res: Result<Vec<Lending>>)
    ensures
        match res {
            Ok(list) => app@.conn.get_lending_list_result() == Ok::<Seq<LendingView>, QrErrorView>(
                lending_views(list@),
            ),
            Err(e) => app@.conn.get_lending_list_result() == Err::<Seq<LendingView>, QrErrorView>(
                e@,
            ),
        },
{
    table::get_lending_list(&app.conn)
}

/// The open lending that the parameters name.
pub fn get_one_lending(
    lending_id: Option<&str>,
    fixtures_id: Option<&str>,
    fixtures_qr_id: Option<&str>,
    app: &App,
) -> (res: Result<Lending>)
    requires
        app.wf(),
    ensures
        shown_view(res) == app@.get_one_lending_result(
            given(lending_id),
            given(fixtures_id),
            given(fixtures_qr_id),
        ),
{
    match lending_key(lending_id, fixtures_id, fixtures_qr_id) {
        Err(e) => Err(e),
        Ok(key) => table::get_one_lending(&app.conn, key),
    }
}

/// Whether an open lending is held under the key that the parameters
/// name.
pub fn get_is_lending(
    lending_id: Option<&str>,
    fixtures_id: Option<&str>,
    fixtures_qr_id: Option<&str>,
    app: &App,
) -> (res: Result<bool>)
    requires
        app.wf(),
    ensures
        shown(res) == app@.get_is_lending_result(
            given(lending_id),
            given(fixtures_id),
            given(fixtures_qr_id),
        ),
{
    match lending_key(lending_id, fixtures_id, fixtures_qr_id) {
        Err(e) => Err(e),
        Ok(key) => table::get_is_lending(&app.conn, key),
    }
}

} // verus!
