//! The operations on items.

use crate::certification::Operation;
use crate::database::fixtures::{
    after_create, after_delete, after_update, create_result, fixtures_views, holds, names_at, place,
    registry_wf, update_result, IdTypeView,
};
use crate::database::fixtures as table;
use crate::error_handling::{shown_view, QrErrorView, Result};
use crate::handler::query::{fixtures_key, fixtures_key_of, given, id_parameter, id_parameter_of};
use crate::handler::{guard, index_outcome, mirrors, outcome_of, App, AppView, WriteOutcome, WriteOutcomeView};
use crate::search_engine::{index_wf, removed_all, upserted, upserted_all};
use crate::{Fixtures, FixturesView};
use vstd::prelude::*;

verus! {

impl AppView {
    /// What entering the item `item` answers to the bearer of `bearer`.
    pub open spec fn insert_fixtures_result(
        self,
        bearer: Seq<char>,
        item: FixturesView,
        now: i64,
    ) -> std::result::Result<WriteOutcomeView, QrErrorView> {
        match self.guard(bearer, Operation::Change, now) {
            Err(e) => Err(e),
            Ok(()) => match self.conn.insert_fixtures_result(item) {
                Err(e) => Err(e),
                Ok(()) => Ok(outcome_of(self.context.add_or_replace_result())),
            },
        }
    }

    /// The service after the bearer of `bearer` asked to enter the item
    /// `item`: as before where the request failed; else with the item in
    /// the registry and, where the index took it, in the index.
    pub open spec fn after_insert_fixtures(self, bearer: Seq<char>, item: FixturesView, now: i64) -> AppView {
        if self.insert_fixtures_result(bearer, item, now) is Ok {
            AppView {
                conn: self.conn.after_insert_fixtures(item),
                context: self.context.after_add_or_replace(seq![item]),
                ..self
            }
        } else {
            self
        }
    }

    /// What replacing an item by `item` answers to the bearer of `bearer`.
    pub open spec fn update_fixtures_result(
        self,
        bearer: Seq<char>,
        item: FixturesView,
        now: i64,
    ) -> std::result::Result<WriteOutcomeView, QrErrorView> {
        match self.guard(bearer, Operation::Change, now) {
            Err(e) => Err(e),
            Ok(()) => match self.conn.update_fixtures_result(item) {
                Err(e) => Err(e),
                Ok(()) => Ok(outcome_of(self.context.add_or_replace_result())),
            },
        }
    }

    /// The service after the bearer of `bearer` asked to replace an item
    /// by `item`.
    pub open spec fn after_update_fixtures(self, bearer: Seq<char>, item: FixturesView, now: i64) -> AppView {
        if self.update_fixtures_result(bearer, item, now) is Ok {
            AppView {
                conn: self.conn.after_update_fixtures(item),
                context: self.context.after_add_or_replace(seq![item]),
                ..self
            }
        } else {
            self
        }
    }

    /// What dropping the item that the parameter `id` names answers to the
    /// bearer of `bearer`. Dropping is for administrators.
    pub open spec fn delete_fixtures_result(
        self,
        bearer: Seq<char>,
        id: Option<Seq<char>>,
        now: i64,
    ) -> std::result::Result<WriteOutcomeView, QrErrorView> {
        match self.guard(bearer, Operation::Destroy, now) {
            Err(e) => Err(e),
            Ok(()) => match id_parameter_of(id) {
                Err(e) => Err(e),
                Ok(uuid) => match self.conn.delete_fixtures_result(uuid) {
                    Err(e) => Err(e),
                    Ok(()) => Ok(outcome_of(self.context.delete_result())),
                },
            },
        }
    }

    /// The service after the bearer of `bearer` asked to drop the item
    /// that the parameter `id` names.
    pub open spec fn after_delete_fixtures(self, bearer: Seq<char>, id: Option<Seq<char>>, now: i64) -> AppView {
        if self.delete_fixtures_result(bearer, id, now) is Ok {
            AppView {
                conn: self.conn.after_delete_fixtures(id_parameter_of(id)->Ok_0),
                context: self.context.after_delete(seq![id_parameter_of(id)->Ok_0]),
                ..self
            }
        } else {
            self
        }
    }

    /// What a look for the item that the parameters name answers.
    pub open spec fn get_fixtures_result(self, id: Option<Seq<char>>, qr_id: Option<Seq<char>>) -> std::result::Result<
        FixturesView,
        QrErrorView,
    > {
        match fixtures_key_of(id, qr_id) {
            Err(e) => Err(e),
            Ok(key) => self.conn.get_one_fixtures_result(key),
        }
    }
}

/// What a list with distinct identifiers holds after one more item.
proof fn pushed_holds(rows: Seq<FixturesView>, item: FixturesView, other: FixturesView)
    ensures
        rows.push(item).contains(other) <==> (rows.contains(other) || other == item),
{
    let next = rows.push(item);
    if next.contains(other) {
        let i = choose|i: int| 0 <= i < next.len() && next[i] == other;
        if i < rows.len() {
            assert(rows[i] == other);
        }
    }
    if rows.contains(other) {
        let i = choose|i: int| 0 <= i < rows.len() && rows[i] == other;
        assert(next[i] == other);
    }
    if other == item {
        assert(next[rows.len() as int] == other);
    }
}

/// What a list with distinct identifiers holds after one item was
/// replaced by an item of the same identifier.
proof fn updated_holds(rows: Seq<FixturesView>, p: int, item: FixturesView, other: FixturesView)
    requires
        index_wf(rows),
        0 <= p < rows.len(),
        rows[p].id == item.id,
    ensures
        rows.update(p, item).contains(other) <==> (other == item || (rows.contains(other)
            && other.id != item.id)),
{
    let next = rows.update(p, item);
    if next.contains(other) {
        let i = choose|i: int| 0 <= i < next.len() && next[i] == other;
        if i != p {
            assert(rows[i] == other);
            if i < p {
                assert(rows[i].id != rows[p].id);
            } else {
                assert(rows[p].id != rows[i].id);
            }
        }
    }
    if rows.contains(other) && other.id != item.id {
        let i = choose|i: int| 0 <= i < rows.len() && rows[i] == other;
        assert(next[i] == other);
    }
    if other == item {
        assert(next[p] == other);
    }
}

/// What a list with distinct identifiers holds after one item was
/// dropped.
proof fn removed_holds(rows: Seq<FixturesView>, p: int, other: FixturesView)
    requires
        index_wf(rows),
        0 <= p < rows.len(),
    ensures
        rows.remove(p).contains(other) <==> (rows.contains(other) && other.id != rows[p].id),
{
    let next = rows.remove(p);
    if next.contains(other) {
        let i = choose|i: int| 0 <= i < next.len() && next[i] == other;
        let i0 = if i < p { i } else { i + 1 };
        assert(rows[i0] == other);
        if i0 < p {
            assert(rows[i0].id != rows[p].id);
        } else {
            assert(rows[p].id != rows[i0].id);
        }
    }
    if rows.contains(other) && other.id != rows[p].id {
        let i = choose|i: int| 0 <= i < rows.len() && rows[i] == other;
        let i1 = if i < p { i } else { i - 1 };
        assert(next[i1] == other);
    }
}

/// An index that mirrors the registry holds a document of an identifier
/// exactly where the registry holds an item of it.
proof fn mirror_holds_alike(documents: Seq<FixturesView>, rows: Seq<FixturesView>, id: u128)
    requires
        mirrors(documents, rows),
    ensures
        holds(documents, IdTypeView::FixturesId(id)) <==> holds(rows, IdTypeView::FixturesId(id)),
{
    let key = IdTypeView::FixturesId(id);
    if holds(documents, key) {
        let q = place(documents, key);
        assert(names_at(documents, key, q));
        assert(documents.contains(documents[q]));
        assert(rows.contains(documents[q]));
        let i = choose|i: int| 0 <= i < rows.len() && rows[i] == documents[q];
        assert(names_at(rows, key, i));
    }
    if holds(rows, key) {
        let p = place(rows, key);
        assert(names_at(rows, key, p));
        assert(rows.contains(rows[p]));
        assert(documents.contains(rows[p]));
        let i = choose|i: int| 0 <= i < documents.len() && documents[i] == rows[p];
        assert(names_at(documents, key, i));
    }
}

/// A registry's items are apart by identifier.
proof fn registry_is_index_wf(rows: Seq<FixturesView>)
    requires
        registry_wf(rows),
    ensures
        index_wf(rows),
{
    assert forall|i: int, j: int| 0 <= i < j < rows.len() implies (#[trigger] rows[i]).id != (
    #[trigger] rows[j]).id by {
        assert(rows[i].id != rows[j].id && rows[i].qr_id != rows[j].qr_id);
    }
}

/// An index that mirrors the registry mirrors it again once both have
/// taken a new item.
pub proof fn insert_keeps_mirror(
    documents: Seq<FixturesView>,
    rows: Seq<FixturesView>,
    item: FixturesView,
)
    requires
        registry_wf(rows),
        index_wf(documents),
        mirrors(documents, rows),
        create_result(rows, item) is Ok,
    ensures
        mirrors(upserted_all(documents, seq![item]), after_create(rows, item)),
{
    let items = seq![item];
    assert(items.drop_last() =~= Seq::<FixturesView>::empty());
    assert(upserted_all(documents, items.drop_last()) == documents);
    assert(upserted_all(documents, items) == upserted(documents, item));
    mirror_holds_alike(documents, rows, item.id);
    assert forall|other: FixturesView| #[trigger]
        documents.push(item).contains(other) <==> rows.push(item).contains(other) by {
        pushed_holds(documents, item, other);
        pushed_holds(rows, item, other);
    }
}

/// An index that mirrors the registry mirrors it again once both have
/// replaced an item.
pub proof fn update_keeps_mirror(
    documents: Seq<FixturesView>,
    rows: Seq<FixturesView>,
    item: FixturesView,
)
    requires
        registry_wf(rows),
        index_wf(documents),
        mirrors(documents, rows),
        update_result(rows, item) is Ok,
    ensures
        mirrors(upserted_all(documents, seq![item]), after_update(rows, item)),
{
    let key = IdTypeView::FixturesId(item.id);
    let items = seq![item];
    assert(items.drop_last() =~= Seq::<FixturesView>::empty());
    assert(upserted_all(documents, items.drop_last()) == documents);
    assert(upserted_all(documents, items) == upserted(documents, item));
    mirror_holds_alike(documents, rows, item.id);
    registry_is_index_wf(rows);
    let p = place(rows, key);
    let q = place(documents, key);
    assert(names_at(rows, key, p));
    assert(names_at(documents, key, q));
    assert forall|other: FixturesView| #[trigger]
        documents.update(q, item).contains(other) <==> rows.update(p, item).contains(other) by {
        updated_holds(documents, q, item, other);
        updated_holds(rows, p, item, other);
    }
}

/// An index that mirrors the registry mirrors it again once both have
/// dropped an item.
pub proof fn delete_keeps_mirror(documents: Seq<FixturesView>, rows: Seq<FixturesView>, id: u128)
    requires
        registry_wf(rows),
        index_wf(documents),
        mirrors(documents, rows),
    ensures
        mirrors(removed_all(documents, seq![id]), after_delete(rows, id)),
{
    let key = IdTypeView::FixturesId(id);
    let keys = seq![id];
    assert(keys.drop_last() =~= Seq::<u128>::empty());
    assert(removed_all(documents, keys.drop_last()) == documents);
    assert(removed_all(documents, keys) == after_delete(documents, id));
    mirror_holds_alike(documents, rows, id);
    registry_is_index_wf(rows);
    if holds(rows, key) {
        let p = place(rows, key);
        let q = place(documents, key);
        assert(names_at(rows, key, p));
        assert(names_at(documents, key, q));
        assert forall|other: FixturesView| #[trigger]
            documents.remove(q).contains(other) <==> rows.remove(p).contains(other) by {
            removed_holds(documents, q, other);
            removed_holds(rows, p, other);
        }
    }
}

/// Enters `fixtures` as a new item, for a bearer who may change things.
/// The registry takes the item first and the index second. Where the
/// index was a mirror of the registry and takes the item, it is a mirror
/// again.
pub fn insert_fixtures(bearer: &str, fixtures: Fixtures, app: &mut App, now: i64) -> (res: Result<
    WriteOutcome,
>)
    requires
        old(app).wf(),
    ensures
        final(app).wf(),
        final(app)@ == old(app)@.after_insert_fixtures(bearer@, fixtures@, now),
        shown_view(res) == old(app)@.insert_fixtures_result(bearer@, fixtures@, now),
        old(app)@.in_sync() && (res matches Ok(WriteOutcome::Synced)) ==> final(app)@.in_sync(),
{
    match guard(app, bearer, Operation::Change, now) {
        Err(e) => {
            return Err(e);
        },
        Ok(()) => {},
    }
    let document = fixtures.clone();
    match table::insert_fixtures(&mut app.conn, fixtures) {
        Err(e) => {
            return Err(e);
        },
        Ok(()) => {},
    }
    let mut documents: Vec<Fixtures> = Vec::new();
    documents.push(document);
    proof {
        assert(fixtures_views(documents@) =~= seq![fixtures@]);
        if old(app)@.in_sync() && old(app)@.context.online {
            insert_keeps_mirror(old(app)@.context.documents, old(app)@.conn.fixtures, fixtures@);
        }
    }
    let outcome = index_outcome(app.context.add_or_replace(documents.as_slice()));
    Ok(outcome)
}

/// Replaces the item of `fixtures`' identifier by `fixtures`, for a bearer
/// who may change things. The registry takes the item first and the index
/// second.
pub fn update_fixtures(bearer: &str, fixtures: Fixtures, app: &mut App, now: i64) -> (res: Result<
    WriteOutcome,
>)
    requires
        old(app).wf(),
    ensures
        final(app).wf(),
        final(app)@ == old(app)@.after_update_fixtures(bearer@, fixtures@, now),
        shown_view(res) == old(app)@.update_fixtures_result(bearer@, fixtures@, now),
        old(app)@.in_sync() && (res matches Ok(WriteOutcome::Synced)) ==> final(app)@.in_sync(),
{
    match guard(app, bearer, Operation::Change, now) {
        Err(e) => {
            return Err(e);
        },
        Ok(()) => {},
    }
    let document = fixtures.clone();
    match table::update_fixtures(&mut app.conn, fixtures) {
        Err(e) => {
            return Err(e);
        },
        Ok(()) => {},
    }
    let mut documents: Vec<Fixtures> = Vec::new();
    documents.push(document);
    proof {
        assert(fixtures_views(documents@) =~= seq![fixtures@]);
        if old(app)@.in_sync() && old(app)@.context.online {
            update_keeps_mirror(old(app)@.context.documents, old(app)@.conn.fixtures, fixtures@);
        }
    }
    let outcome = index_outcome(app.context.add_or_replace(documents.as_slice()));
    Ok(outcome)
}

/// Drops the item that the parameter `id` names, for a bearer who may
/// destroy things. The registry drops the item first and the index
/// second.
pub fn delete_fixtures(bearer: &str, id: Option<&str>, app: &mut App, now: i64) -> (res: Result<
    WriteOutcome,
>)
    requires
        old(app).wf(),
    ensures
        final(app).wf(),
        final(app)@ == old(app)@.after_delete_fixtures(bearer@, given(id), now),
        shown_view(res) == old(app)@.delete_fixtures_result(bearer@, given(id), now),
        old(app)@.in_sync() && (res matches Ok(WriteOutcome::Synced)) ==> final(app)@.in_sync(),
{
    match guard(app, bearer, Operation::Destroy, now) {
        Err(e) => {
            return Err(e);
        },
        Ok(()) => {},
    }
    let uuid = match id_parameter(id) {
        Err(e) => {
            return Err(e);
        },
        Ok(uuid) => uuid,
    };
    match table::delete_fixtures(&mut app.conn, uuid) {
        Err(e) => {
            return Err(e);
        },
        Ok(()) => {},
    }
    let mut keys: Vec<u128> = Vec::new();
    keys.push(uuid);
    proof {
        assert(keys@ =~= seq![uuid]);
        if old(app)@.in_sync() && old(app)@.context.online {
            delete_keeps_mirror(old(app)@.context.documents, old(app)@.conn.fixtures, uuid);
        }
    }
    let outcome = index_outcome(app.context.delete(keys.as_slice()));
    Ok(outcome)
}

/// The item that the parameters `id` and `qr_id` name.
pub fn get_fixtures(id: Option<&str>, qr_id: Option<&str>, app: &App) -> (res: Result<Fixtures>)
    requires
        app.wf(),
    ensures
        shown_view(res) == app@.get_fixtures_result(given(id), given(qr_id)),
{
    match fixtures_key(id, qr_id) {
        Err(e) => Err(e),
        Ok(key) => table::get_one_fixtures(&app.conn, key),
    }
}

} // verus!
