//! The items table: every item under its identifier and under the QR code
//! that it carries now.

use crate::database::Database;
use crate::error_handling::{shown, shown_view, QrError, QrErrorView, Result};
use crate::identifier::{hyphenated, id_text};
use crate::text::{contains, contains_text, same_text};
use crate::{Fixtures, FixturesView, Stroge};
use vstd::prelude::*;

verus! {

/// A key under which an item is looked up.
#[derive(Debug, Clone, PartialEq, Eq)]
pub enum IdType {
    /// The item's identifier.
    FixturesId(u128),
    /// The QR code that the item carries now.
    QrId(String),
}

/// A key, its text by its characters.
pub enum IdTypeView {
    FixturesId(u128),
    QrId(Seq<char>),
}

impl View for IdType {
    type V = IdTypeView;

    open spec fn view(&self) -> IdTypeView {
        match self {
            IdType::FixturesId(id) => IdTypeView::FixturesId(*id),
            IdType::QrId(qr) => IdTypeView::QrId(qr@),
        }
    }
}

impl IdTypeView {
    /// The key as it is written in a message.
    pub open spec fn text(self) -> Seq<char> {
        match self {
            IdTypeView::FixturesId(id) => hyphenated(id),
            IdTypeView::QrId(qr) => qr,
        }
    }
}

impl IdType {
    /// The key as it is written in a message.
    pub fn to_string(&self) -> (s: String)
        ensures
            s@ == self@.text(),
    {
        match self {
            IdType::FixturesId(id) => id_text(*id),
            IdType::QrId(qr) => qr.clone(),
        }
    }
}

/// One property that the items of a list must have.
#[derive(Debug, Clone, PartialEq, Eq)]
pub enum Filter {
    /// The item has this identifier.
    Id(u128),
    /// The item carries this QR code.
    QrId(String),
    /// The item has this name.
    Name(String),
    /// The item's description holds this text.
    Description(String),
    /// The item is kept in this room.
    Storage(Stroge),
    /// The item is held by the item of this identifier.
    ParentId(String),
}

/// A filter, its text by its characters.
pub enum FilterView {
    Id(u128),
    QrId(Seq<char>),
    Name(Seq<char>),
    Description(Seq<char>),
    Storage(Stroge),
    ParentId(Seq<char>),
}

impl View for Filter {
    type V = FilterView;

    open spec fn view(&self) -> FilterView {
        match self {
            Filter::Id(id) => FilterView::Id(*id),
            Filter::QrId(qr) => FilterView::QrId(qr@),
            Filter::Name(name) => FilterView::Name(name@),
            Filter::Description(part) => FilterView::Description(part@),
            Filter::Storage(room) => FilterView::Storage(*room),
            Filter::ParentId(parent) => FilterView::ParentId(parent@),
        }
    }
}

/// Whether `item` has the property that `filter` asks for. An item
/// without a description holds no text.
pub open spec fn passes(item: FixturesView, filter: FilterView) -> bool {
    match filter {
        FilterView::Id(id) => item.id == id,
        FilterView::QrId(qr) => item.qr_id == qr,
        FilterView::Name(name) => item.name == name,
        FilterView::Description(part) => match item.description {
            Some(text) => contains_text(text, part),
            None => false,
        },
        FilterView::Storage(room) => item.storage == room,
        FilterView::ParentId(parent) => item.parent_id == parent,
    }
}

/// The items that pass `filter`, in the order of the table.
pub open spec fn selected(rows: Seq<FixturesView>, filter: FilterView) -> Seq<FixturesView>
    decreases rows.len(),
{
    if rows.len() == 0 {
        rows
    } else if passes(rows.last(), filter) {
        selected(rows.drop_last(), filter).push(rows.last())
    } else {
        selected(rows.drop_last(), filter)
    }
}

/// Whether `key` names `item`.
pub open spec fn names(item: FixturesView, key: IdTypeView) -> bool {
    match key {
        IdTypeView::FixturesId(id) => item.id == id,
        IdTypeView::QrId(qr) => item.qr_id == qr,
    }
}

/// Whether `key` names the `i`-th item.
pub open spec fn names_at(rows: Seq<FixturesView>, key: IdTypeView, i: int) -> bool {
    0 <= i < rows.len() && names(rows[i], key)
}

/// Whether the table holds an item under `key`.
pub open spec fn holds(rows: Seq<FixturesView>, key: IdTypeView) -> bool {
    exists|i: int| names_at(rows, key, i)
}

/// The place of the item under `key`, where the table holds one.
pub open spec fn place(rows: Seq<FixturesView>, key: IdTypeView) -> int {
    choose|i: int| names_at(rows, key, i)
}

/// Whether an item other than the one with the identifier `id` carries
/// the QR code `qr`.
pub open spec fn qr_taken_by_other(rows: Seq<FixturesView>, id: u128, qr: Seq<char>) -> bool {
    exists|i: int| 0 <= i < rows.len() && (#[trigger] rows[i]).qr_id == qr && rows[i].id != id
}

/// What every items table keeps: no two items share an identifier, and no
/// two carry one QR code.
pub open spec fn registry_wf(rows: Seq<FixturesView>) -> bool {
    forall|i: int, j: int|
        0 <= i < j < rows.len() ==> (#[trigger] rows[i]).id != (#[trigger] rows[j]).id && rows[i].qr_id
            != rows[j].qr_id
}

/// What entering `item` answers: its identifier and its QR code must both
/// be new.
pub open spec fn create_result(rows: Seq<FixturesView>, item: FixturesView) -> std::result::Result<
    (),
    QrErrorView,
> {
    if holds(rows, IdTypeView::FixturesId(item.id)) || holds(rows, IdTypeView::QrId(item.qr_id)) {
        Err(QrErrorView::AlreadyExists)
    } else {
        Ok(())
    }
}

/// The table after entering `item`.
pub open spec fn after_create(rows: Seq<FixturesView>, item: FixturesView) -> Seq<FixturesView> {
    if create_result(rows, item) is Ok {
        rows.push(item)
    } else {
        rows
    }
}

/// What a look under `key` answers: the item, or that there is none.
pub open spec fn find_result(rows: Seq<FixturesView>, key: IdTypeView) -> std::result::Result<
    FixturesView,
    QrErrorView,
> {
    if holds(rows, key) {
        Ok(rows[place(rows, key)])
    } else {
        Err(QrErrorView::DatabaseNotFound(key.text()))
    }
}

/// What replacing an item by `item` answers: the table must hold an item
/// of that identifier, and no other item may carry the new QR code.
pub open spec fn update_result(rows: Seq<FixturesView>, item: FixturesView) -> std::result::Result<
    (),
    QrErrorView,
> {
    if !holds(rows, IdTypeView::FixturesId(item.id)) {
        Err(QrErrorView::DatabaseNotFound(hyphenated(item.id)))
    } else if qr_taken_by_other(rows, item.id, item.qr_id) {
        Err(QrErrorView::AlreadyExists)
    } else {
        Ok(())
    }
}

/// The table after replacing an item by `item`.
pub open spec fn after_update(rows: Seq<FixturesView>, item: FixturesView) -> Seq<FixturesView> {
    if update_result(rows, item) is Ok {
        rows.update(place(rows, IdTypeView::FixturesId(item.id)), item)
    } else {
        rows
    }
}

/// The table after dropping the item of the identifier `id`: the table
/// without it, or the same table where it holds no such item.
pub open spec fn after_delete(rows: Seq<FixturesView>, id: u128) -> Seq<FixturesView> {
    if holds(rows, IdTypeView::FixturesId(id)) {
        rows.remove(place(rows, IdTypeView::FixturesId(id)))
    } else {
        rows
    }
}

/// The views of a list of items.
pub open spec fn fixtures_views(rows: Seq<Fixtures>) -> Seq<FixturesView> {
    Seq::new(rows.len(), |i: int| rows[i]@)
}

/// In an items table, one item at most is named by a key.
pub proof fn item_is_unique(rows: Seq<FixturesView>, key: IdTypeView, i: int)
    requires
        registry_wf(rows),
        names_at(rows, key, i),
    ensures
        holds(rows, key),
        place(rows, key) == i,
{
    let j = place(rows, key);
    assert(names_at(rows, key, j));
    if i < j {
        assert(rows[i].id != rows[j].id && rows[i].qr_id != rows[j].qr_id);
    }
    if j < i {
        assert(rows[j].id != rows[i].id && rows[j].qr_id != rows[i].qr_id);
    }
}

/// The items table of the registry.
#[derive(Debug)]
pub struct FixturesTable {
    rows: Vec<Fixtures>,
}

impl View for FixturesTable {
    type V = Seq<FixturesView>;

    closed spec fn view(&self) -> Seq<FixturesView> {
        fixtures_views(self.rows@)
    }
}

impl FixturesTable {
    /// Whether the table keeps what every items table keeps.
    pub open spec fn wf(&self) -> bool {
        registry_wf(self@)
    }

    /// A table without items.
    pub fn new() -> (table: FixturesTable)
        ensures
            table.wf(),
            table@ == Seq::<FixturesView>::empty(),
    {
        let table = FixturesTable { rows: Vec::new() };
        assert(table@ =~= Seq::<FixturesView>::empty());
        table
    }

    /// The number of items.
    pub fn len(&self) -> (n: usize)
        ensures
            n == self@.len(),
    {
        self.rows.len()
    }

    /// The place of the item under `key`.
    fn position(&self, key: &IdType) -> (found: Option<usize>)
        ensures
            match found {
                Some(i) => names_at(self@, key@, i as int),
                None => !holds(self@, key@),
            },
    {
        let mut i: usize = 0;
        while i < self.rows.len()
            invariant
                i <= self.rows.len(),
                forall|j: int| 0 <= j < i ==> !names_at(self@, key@, j),
            decreases self.rows.len() - i,
        {
            let row = &self.rows[i];
            let hit = match key {
                IdType::FixturesId(id) => row.id == *id,
                IdType::QrId(qr) => same_text(row.qr_id.as_str(), qr.as_str()),
            };
            if hit {
                return Some(i);
            }
            i += 1;
        }
        None
    }

    /// Whether an item other than the one with the identifier `id` carries
    /// the QR code `qr`.
    fn qr_is_taken(&self, id: u128, qr: &str) -> (taken: bool)
        ensures
            taken == qr_taken_by_other(self@, id, qr@),
    {
        let mut i: usize = 0;
        while i < self.rows.len()
            invariant
                i <= self.rows.len(),
                forall|j: int|
                    0 <= j < i ==> !((#[trigger] self@[j]).qr_id == qr@ && self@[j].id != id),
            decreases self.rows.len() - i,
        {
            let row = &self.rows[i];
            if row.id != id && same_text(row.qr_id.as_str(), qr) {
                assert(self@[i as int].qr_id == qr@ && self@[i as int].id != id);
                return true;
            }
            i += 1;
        }
        false
    }

    /// The item under `key`.
    pub fn get(&self, key: &IdType) -> (res: Result<Fixtures>)
        requires
            self.wf(),
        ensures
            shown_view(res) == find_result(self@, key@),
    {
        match self.position(key) {
            Some(i) => {
                proof {
                    item_is_unique(self@, key@, i as int);
                }
                Ok(self.rows[i].clone())
            },
            None => Err(QrError::DatabaseNotFound(key.to_string())),
        }
    }

    /// Enters `item`, unless its identifier or its QR code is taken.
    pub fn insert(&mut self, item: Fixtures) -> (res: Result<()>)
        requires
            old(self).wf(),
        ensures
            final(self).wf(),
            final(self)@ == after_create(old(self)@, item@),
            shown(res) == create_result(old(self)@, item@),
    {
        let by_id = self.position(&IdType::FixturesId(item.id));
        let by_qr = self.position(&IdType::QrId(item.qr_id.clone()));
        if by_id.is_some() || by_qr.is_some() {
            return Err(QrError::AlreadyExists);
        }
        proof {
            let rows = self@;
            let next = rows.push(item@);
            assert forall|i: int, j: int| 0 <= i < j < next.len() implies (#[trigger] next[i]).id
                != (#[trigger] next[j]).id && next[i].qr_id != next[j].qr_id by {
                if j == rows.len() {
                    assert(!names_at(rows, IdTypeView::FixturesId(item.id), i));
                    assert(!names_at(rows, IdTypeView::QrId(item.qr_id@), i));
                }
            }
            assert(fixtures_views(self.rows@.push(item)) =~= next);
        }
        self.rows.push(item);
        Ok(())
    }

    /// Replaces the item of `item`'s identifier by `item`. Without such an
    /// item, or where another item carries the new QR code, nothing
    /// changes.
    pub fn update(&mut self, item: Fixtures) -> (res: Result<()>)
        requires
            old(self).wf(),
        ensures
            final(self).wf(),
            final(self)@ == after_update(old(self)@, item@),
            shown(res) == update_result(old(self)@, item@),
    {
        let found = self.position(&IdType::FixturesId(item.id));
        match found {
            None => Err(QrError::DatabaseNotFound(id_text(item.id))),
            Some(i) => {
                if self.qr_is_taken(item.id, item.qr_id.as_str()) {
                    return Err(QrError::AlreadyExists);
                }
                proof {
                    let rows = self@;
                    item_is_unique(rows, IdTypeView::FixturesId(item.id), i as int);
                    let next = rows.update(i as int, item@);
                    assert forall|a: int, b: int| 0 <= a < b < next.len() implies (
                    #[trigger] next[a]).id != (#[trigger] next[b]).id && next[a].qr_id
                        != next[b].qr_id by {
                        assert(rows[a].id != rows[b].id && rows[a].qr_id != rows[b].qr_id);
                        if a == i {
                            assert(!(rows[b].qr_id == item.qr_id@ && rows[b].id != item.id));
                        }
                        if b == i {
                            assert(!(rows[a].qr_id == item.qr_id@ && rows[a].id != item.id));
                        }
                    }
                    assert(fixtures_views(self.rows@.update(i as int, item)) =~= next);
                }
                self.rows.set(i, item);
                Ok(())
            },
        }
    }

    /// Drops the item of the identifier `id`, if the table holds it.
    pub fn delete(&mut self, id: u128)
        requires
            old(self).wf(),
        ensures
            final(self).wf(),
            final(self)@ == after_delete(old(self)@, id),
    {
        match self.position(&IdType::FixturesId(id)) {
            None => {},
            Some(i) => {
                proof {
                    let rows = self@;
                    item_is_unique(rows, IdTypeView::FixturesId(id), i as int);
                    let next = rows.remove(i as int);
                    assert forall|a: int, b: int| 0 <= a < b < next.len() implies (
                    #[trigger] next[a]).id != (#[trigger] next[b]).id && next[a].qr_id
                        != next[b].qr_id by {
                        let a0 = if a < i { a } else { a + 1 };
                        let b0 = if b < i { b } else { b + 1 };
                        assert(rows[a0].id != rows[b0].id && rows[a0].qr_id != rows[b0].qr_id);
                    }
                    assert(fixtures_views(self.rows@.remove(i as int)) =~= next);
                }
                self.rows.remove(i);
            },
        }
    }

    /// All items, in the order in which they were entered.
    pub fn list(&self) -> (list: Vec<Fixtures>)
        ensures
            fixtures_views(list@) == self@,
    {
        let mut list: Vec<Fixtures> = Vec::new();
        let mut i: usize = 0;
        while i < self.rows.len()
            invariant
                i <= self.rows.len(),
                list@.len() == i,
                forall|j: int| 0 <= j < i ==> (#[trigger] list@[j])@ == self@[j],
            decreases self.rows.len() - i,
        {
            list.push(self.rows[i].clone());
            i += 1;
        }
        assert(fixtures_views(list@) =~= self@);
        list
    }

    /// The items that pass `filter`, in the order in which they were
    /// entered.
    pub fn select(&self, filter: &Filter) -> (list: Vec<Fixtures>)
        ensures
            fixtures_views(list@) == selected(self@, filter@),
    {
        let mut list: Vec<Fixtures> = Vec::new();
        let mut i: usize = 0;
        proof {
            assert(self@.take(0) =~= Seq::<FixturesView>::empty());
            assert(fixtures_views(list@) =~= selected(self@.take(0), filter@));
        }
        while i < self.rows.len()
            invariant
                i <= self.rows.len(),
                fixtures_views(list@) == selected(self@.take(i as int), filter@),
            decreases self.rows.len() - i,
        {
            proof {
                let before = self@.take(i as int);
                let now = self@.take(i + 1);
                assert(now.drop_last() =~= before);
                assert(now.last() == self@[i as int]);
                assert(self@[i as int] == self.rows@[i as int]@);
            }
            if item_passes(&self.rows[i], filter) {
                let row = self.rows[i].clone();
                proof {
                    assert(fixtures_views(list@.push(row)) =~= fixtures_views(list@).push(row@));
                }
                list.push(row);
            }
            i += 1;
        }
        proof {
            assert(self@.take(self.rows.len() as int) =~= self@);
        }
        list
    }
}

/// Enters `info` as a new item. Its identifier and its QR code must both
/// be new.
pub fn insert_fixtures(conn: &mut Database, info: Fixtures) -> (res: Result<()>)
    requires
        old(conn).wf(),
    ensures
        final(conn).wf(),
        final(conn)@ == old(conn)@.after_insert_fixtures(info@),
        shown(res) == old(conn)@.insert_fixtures_result(info@),
{
    if !conn.online {
        return Err(QrError::DatabaseAdd("fixtures".to_owned()));
    }
    conn.fixtures.insert(info)
}

/// Replaces the item of `new_info`'s identifier by `new_info`. The
/// registry must hold such an item, and no other item may carry the new QR
/// code.
pub fn update_fixtures(conn: &mut Database, new_info: Fixtures) -> (res: Result<()>)
    requires
        old(conn).wf(),
    ensures
        final(conn).wf(),
        final(conn)@ == old(conn)@.after_update_fixtures(new_info@),
        shown(res) == old(conn)@.update_fixtures_result(new_info@),
{
    if !conn.online {
        return Err(QrError::DatabaseUpdate("fixtures".to_owned()));
    }
    conn.fixtures.update(new_info)
}

/// Drops the item of the identifier `uuid`. Dropping what is not there
/// succeeds and changes nothing.
pub fn delete_fixtures(conn: &mut Database, uuid: u128) -> (res: Result<()>)
    requires
        old(conn).wf(),
    ensures
        final(conn).wf(),
        final(conn)@ == old(conn)@.after_delete_fixtures(uuid),
        shown(res) == old(conn)@.delete_fixtures_result(uuid),
{
    if !conn.online {
        return Err(QrError::DatabaseDelete("fixtures".to_owned()));
    }
    conn.fixtures.delete(uuid);
    Ok(())
}

/// The item under `id`.
pub fn get_one_fixtures(conn: &Database, id: IdType) -> (res: Result<Fixtures>)
    requires
        conn.wf(),
    ensures
        shown_view(res) == conn@.get_one_fixtures_result(id@),
{
    if !conn.online {
        return Err(QrError::DatabaseGet("fixtures".to_owned()));
    }
    conn.fixtures.get(&id)
}

/// All items, in the order in which they were entered.
pub fn get_fixtures_list(conn: &Database) -> (res: Result<Vec<Fixtures>>)
    ensures
        match res {
            Ok(list) => conn@.get_fixtures_list_result() == Ok::<Seq<FixturesView>, QrErrorView>(
                fixtures_views(list@),
            ),
            Err(e) => conn@.get_fixtures_list_result() == Err::<Seq<FixturesView>, QrErrorView>(e@),
        },
{
    if !conn.online {
        return Err(QrError::DatabaseGet("fixtures".to_owned()));
    }
    Ok(conn.fixtures.list())
}

/// The items that pass `filter`, in the order in which they were entered.
pub fn list_fixtures(conn: &Database, filter: &Filter) -> (res: Result<Vec<Fixtures>>)
    ensures
        match res {
            Ok(list) => conn@.list_fixtures_result(filter@) == Ok::<Seq<FixturesView>, QrErrorView>(
                fixtures_views(list@),
            ),
            Err(e) => conn@.list_fixtures_result(filter@) == Err::<Seq<FixturesView>, QrErrorView>(
                e@,
            ),
        },
{
    if !conn.online {
        return Err(QrError::DatabaseGet("fixtures".to_owned()));
    }
    Ok(conn.fixtures.select(filter))
}

/// Whether `item` has the property that `filter` asks for.
pub fn item_passes(item: &Fixtures, filter: &Filter) -> (b: bool)
    ensures
        b == passes(item@, filter@),
{
    match filter {
        Filter::Id(id) => item.id == *id,
        Filter::QrId(qr) => same_text(item.qr_id.as_str(), qr.as_str()),
        Filter::Name(name) => same_text(item.name.as_str(), name.as_str()),
        Filter::Description(part) => match &item.description {
            Some(text) => contains(text.as_str(), part.as_str()),
            None => false,
        },
        Filter::Storage(room) => item.storage == *room,
        Filter::ParentId(parent) => same_text(item.parent_id.as_str(), parent.as_str()),
    }
}

} // verus!
