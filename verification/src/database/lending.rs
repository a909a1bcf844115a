//! The ledger: who has which item.
//!
//! An item is available or lent. It is lent while the ledger holds an open
//! lending of it, one without a time of return. The ledger holds at most
//! one open lending for each item and at most one for each QR code: a QR
//! code can move from one item to another, and the code that a lending was
//! made under must not stand for a second item that is out.

use crate::database::fixtures;
use crate::database::Database;
use crate::error_handling::{shown, shown_view, QrError, QrErrorView, Result};
use crate::identifier::{hyphenated, id_text};
use crate::text::same_text;
use crate::{Fixtures, Lending, LendingView};
use vstd::prelude::*;

verus! {

/// A key under which an open lending is looked up.
#[derive(Debug, Clone, PartialEq, Eq)]
pub enum IdType {
    /// The identifier of the lending itself.
    LendingId(u128),
    /// The identifier of the item lent.
    FixturesId(u128),
    /// The QR code that the item carried when it was lent.
    QrId(String),
}

/// A key, its text by its characters.
pub enum IdTypeView {
    LendingId(u128),
    FixturesId(u128),
    QrId(Seq<char>),
}

impl View for IdType {
    type V = IdTypeView;

    open spec fn view(&self) -> IdTypeView {
        match self {
            IdType::LendingId(id) => IdTypeView::LendingId(*id),
            IdType::FixturesId(id) => IdTypeView::FixturesId(*id),
            IdType::QrId(qr) => IdTypeView::QrId(qr@),
        }
    }
}

impl IdTypeView {
    /// The key as it is written in a message.
    pub open spec fn text(self) -> Seq<char> {
        match self {
            IdTypeView::LendingId(id) => hyphenated(id),
            IdTypeView::FixturesId(id) => hyphenated(id),
            IdTypeView::QrId(qr) => qr,
        }
    }
}

impl IdType {
    /// The key as it is written in a message.
    pub fn to_string(&self) -> (s: String)
        ensures
            s@ == self@.text(),
    {
        match self {
            IdType::LendingId(id) => id_text(*id),
            IdType::FixturesId(id) => id_text(*id),
            IdType::QrId(qr) => qr.clone(),
        }
    }
}

/// Whether `row` is an open lending that `key` speaks of.
pub open spec fn answers(row: LendingView, key: IdTypeView) -> bool {
    row.is_open() && match key {
        IdTypeView::LendingId(id) => row.id == id,
        IdTypeView::FixturesId(id) => row.fixtures_id == id,
        IdTypeView::QrId(qr) => row.fixtures_qr_id == qr,
    }
}

/// Whether the `i`-th row is an open lending that `key` speaks of.
pub open spec fn answers_at(rows: Seq<LendingView>, key: IdTypeView, i: int) -> bool {
    0 <= i < rows.len() && answers(rows[i], key)
}

/// Whether the ledger holds an open lending under `key`.
pub open spec fn is_lending(rows: Seq<LendingView>, key: IdTypeView) -> bool {
    exists|i: int| answers_at(rows, key, i)
}

/// The place of an open lending under `key`, where the ledger holds one.
pub open spec fn open_at(rows: Seq<LendingView>, key: IdTypeView) -> int {
    choose|i: int| answers_at(rows, key, i)
}

/// Whether some lending, open or closed, has the identifier `id`.
pub open spec fn has_id(rows: Seq<LendingView>, id: u128) -> bool {
    exists|i: int| 0 <= i < rows.len() && (#[trigger] rows[i]).id == id
}

/// What every ledger keeps: no two lendings share an identifier, no two
/// open lendings are of one item, and no two open lendings were made under
/// one QR code.
pub open spec fn ledger_wf(rows: Seq<LendingView>) -> bool {
    &&& forall|i: int, j: int|
        0 <= i < j < rows.len() ==> (#[trigger] rows[i]).id != (#[trigger] rows[j]).id
    &&& forall|i: int, j: int|
        0 <= i < j < rows.len() && (#[trigger] rows[i]).is_open() && (#[trigger] rows[j]).is_open()
            ==> rows[i].fixtures_id != rows[j].fixtures_id && rows[i].fixtures_qr_id
            != rows[j].fixtures_qr_id
}

/// The lending as the ledger enters it: open.
pub open spec fn begun(info: LendingView) -> LendingView {
    LendingView { returned_at: None, ..info }
}

/// The lending once the item is back.
pub open spec fn ended(row: LendingView, at: i64) -> LendingView {
    LendingView { returned_at: Some(at), ..row }
}

/// What lending answers: the item must not be out, neither under its
/// identifier nor under the QR code given, and the lending's identifier
/// must be new.
pub open spec fn lend_result(rows: Seq<LendingView>, info: LendingView) -> std::result::Result<
    (),
    QrErrorView,
> {
    if is_lending(rows, IdTypeView::FixturesId(info.fixtures_id)) || is_lending(
        rows,
        IdTypeView::QrId(info.fixtures_qr_id),
    ) {
        Err(QrErrorView::AlreadyLent)
    } else if has_id(rows, info.id) {
        Err(QrErrorView::AlreadyExists)
    } else {
        Ok(())
    }
}

/// The ledger after lending: one open lending more where lending succeeds,
/// the same ledger where it fails.
pub open spec fn after_lend(rows: Seq<LendingView>, info: LendingView) -> Seq<LendingView> {
    if lend_result(rows, info) is Ok {
        rows.push(begun(info))
    } else {
        rows
    }
}

/// What a look under `key` answers: the open lending, or that there is
/// none.
pub open spec fn find_result(rows: Seq<LendingView>, key: IdTypeView) -> std::result::Result<
    LendingView,
    QrErrorView,
> {
    if is_lending(rows, key) {
        Ok(rows[open_at(rows, key)])
    } else {
        Err(QrErrorView::DatabaseNotFound(key.text()))
    }
}

/// What a return under `key` answers: it succeeds where an open lending is
/// held under the key.
pub open spec fn return_result(rows: Seq<LendingView>, key: IdTypeView) -> std::result::Result<
    (),
    QrErrorView,
> {
    if is_lending(rows, key) {
        Ok(())
    } else {
        Err(QrErrorView::DatabaseNotFound(key.text()))
    }
}

/// The ledger after a return under `key` at the time `at`: the open lending
/// under the key is closed; without one the ledger stays as it is.
pub open spec fn after_return(rows: Seq<LendingView>, key: IdTypeView, at: i64) -> Seq<
    LendingView,
> {
    if is_lending(rows, key) {
        rows.update(open_at(rows, key), ended(rows[open_at(rows, key)], at))
    } else {
        rows
    }
}

/// The open lendings, in the order in which they were made.
pub open spec fn open_rows(rows: Seq<LendingView>) -> Seq<LendingView>
    decreases rows.len(),
{
    if rows.len() == 0 {
        rows
    } else if rows.last().is_open() {
        open_rows(rows.drop_last()).push(rows.last())
    } else {
        open_rows(rows.drop_last())
    }
}

/// The views of a list of lendings.
pub open spec fn lending_views(rows: Seq<Lending>) -> Seq<LendingView> {
    Seq::new(rows.len(), |i: int| rows[i]@)
}

/// In a ledger, one open lending at most answers a key.
pub proof fn open_lending_is_unique(rows: Seq<LendingView>, key: IdTypeView, i: int)
    requires
        ledger_wf(rows),
        answers_at(rows, key, i),
    ensures
        is_lending(rows, key),
        open_at(rows, key) == i,
{
    let j = open_at(rows, key);
    assert(answers_at(rows, key, j));
    if i < j {
        assert(rows[i].id != rows[j].id);
        assert(rows[i].is_open() && rows[j].is_open());
    }
    if j < i {
        assert(rows[j].id != rows[i].id);
        assert(rows[j].is_open() && rows[i].is_open());
    }
}

/// The lendings table of the registry.
#[derive(Debug)]
pub struct LendingTable {
    rows: Vec<Lending>,
}

impl View for LendingTable {
    type V = Seq<LendingView>;

    closed spec fn view(&self) -> Seq<LendingView> {
        lending_views(self.rows@)
    }
}

impl LendingTable {
    /// Whether the table is a ledger.
    pub open spec fn wf(&self) -> bool {
        ledger_wf(self@)
    }

    /// A ledger without lendings.
    pub fn new() -> (table: LendingTable)
        ensures
            table.wf(),
            table@ == Seq::<LendingView>::empty(),
    {
        let table = LendingTable { rows: Vec::new() };
        assert(table@ =~= Seq::<LendingView>::empty());
        table
    }

    /// The number of lendings, open and closed.
    pub fn len(&self) -> (n: usize)
        ensures
            n == self@.len(),
    {
        self.rows.len()
    }

    /// The place of an open lending under `key`.
    fn position(&self, key: &IdType) -> (found: Option<usize>)
        ensures
            match found {
                Some(i) => answers_at(self@, key@, i as int),
                None => !is_lending(self@, key@),
            },
    {
        let mut i: usize = 0;
        while i < self.rows.len()
            invariant
                i <= self.rows.len(),
                forall|j: int| 0 <= j < i ==> !answers_at(self@, key@, j),
            decreases self.rows.len() - i,
        {
            let row = &self.rows[i];
            let hit = row.returned_at.is_none() && match key {
                IdType::LendingId(id) => row.id == *id,
                IdType::FixturesId(id) => row.fixtures_id == *id,
                IdType::QrId(qr) => same_text(row.fixtures_qr_id.as_str(), qr.as_str()),
            };
            if hit {
                return Some(i);
            }
            i += 1;
        }
        None
    }

    /// Whether some lending has the identifier `id`.
    fn holds_id(&self, id: u128) -> (held: bool)
        ensures
            held == has_id(self@, id),
    {
        let mut i: usize = 0;
        while i < self.rows.len()
            invariant
                i <= self.rows.len(),
                forall|j: int| 0 <= j < i ==> (#[trigger] self@[j]).id != id,
            decreases self.rows.len() - i,
        {
            if self.rows[i].id == id {
                assert(self@[i as int].id == id);
                return true;
            }
            i += 1;
        }
        false
    }

    /// The open lending under `key`.
    pub fn get(&self, key: &IdType) -> (res: Result<Lending>)
        requires
            self.wf(),
        ensures
            shown_view(res) == find_result(self@, key@),
    {
        match self.position(key) {
            Some(i) => {
                proof {
                    open_lending_is_unique(self@, key@, i as int);
                }
                Ok(self.rows[i].clone())
            },
            None => Err(QrError::DatabaseNotFound(key.to_string())),
        }
    }

    /// Lends: enters `info` as an open lending, unless the item is out
    /// already or the lending's identifier is taken.
    pub fn insert(&mut self, info: Lending) -> (res: Result<()>)
        requires
            old(self).wf(),
        ensures
            final(self).wf(),
            final(self)@ == after_lend(old(self)@, info@),
            shown(res) == lend_result(old(self)@, info@),
    {
        let by_item = self.position(&IdType::FixturesId(info.fixtures_id));
        let by_qr = self.position(&IdType::QrId(info.fixtures_qr_id.clone()));
        if by_item.is_some() || by_qr.is_some() {
            return Err(QrError::AlreadyLent);
        }
        if self.holds_id(info.id) {
            return Err(QrError::AlreadyExists);
        }
        let mut row = info;
        row.returned_at = None;
        proof {
            let rows = self@;
            let next = rows.push(row@);
            assert(row@ == begun(info@));
            assert forall|i: int, j: int| 0 <= i < j < next.len() implies (#[trigger] next[i]).id
                != (#[trigger] next[j]).id by {
                if j == rows.len() {
                    assert(rows[i].id != info.id);
                }
            }
            assert forall|i: int, j: int|
                0 <= i < j < next.len() && (#[trigger] next[i]).is_open() && (
                #[trigger] next[j]).is_open() implies next[i].fixtures_id != next[j].fixtures_id
                && next[i].fixtures_qr_id != next[j].fixtures_qr_id by {
                if j == rows.len() {
                    assert(!answers_at(rows, IdTypeView::FixturesId(info.fixtures_id), i));
                    assert(!answers_at(rows, IdTypeView::QrId(info.fixtures_qr_id@), i));
                }
            }
            assert(lending_views(self.rows@.push(row)) =~= next);
        }
        self.rows.push(row);
        Ok(())
    }

    /// Takes the item back: closes the open lending under `key` at the time
    /// `at`. Without an open lending under the key nothing changes.
    pub fn give_back(&mut self, key: &IdType, at: i64) -> (res: Result<()>)
        requires
            old(self).wf(),
        ensures
            final(self).wf(),
            final(self)@ == after_return(old(self)@, key@, at),
            shown(res) == return_result(old(self)@, key@),
    {
        match self.position(key) {
            Some(i) => {
                let mut row = self.rows[i].clone();
                row.returned_at = Some(at);
                proof {
                    let rows = self@;
                    open_lending_is_unique(rows, key@, i as int);
                    let next = rows.update(i as int, row@);
                    assert(row@ == ended(rows[i as int], at));
                    assert forall|a: int, b: int| 0 <= a < b < next.len() implies (
                    #[trigger] next[a]).id != (#[trigger] next[b]).id by {
                        assert(rows[a].id != rows[b].id);
                    }
                    assert forall|a: int, b: int|
                        0 <= a < b < next.len() && (#[trigger] next[a]).is_open() && (
                        #[trigger] next[b]).is_open() implies next[a].fixtures_id
                        != next[b].fixtures_id && next[a].fixtures_qr_id
                        != next[b].fixtures_qr_id by {
                        assert(rows[a].is_open() && rows[b].is_open());
                    }
                    assert(lending_views(self.rows@.update(i as int, row)) =~= next);
                }
                self.rows.set(i, row);
                Ok(())
            },
            None => Err(QrError::DatabaseNotFound(key.to_string())),
        }
    }

    /// The open lendings, in the order in which they were made.
    pub fn open_list(&self) -> (list: Vec<Lending>)
        ensures
            lending_views(list@) == open_rows(self@),
    {
        let mut list: Vec<Lending> = Vec::new();
        let mut i: usize = 0;
        proof {
            assert(self@.take(0) =~= Seq::<LendingView>::empty());
            assert(lending_views(list@) =~= open_rows(self@.take(0)));
        }
        while i < self.rows.len()
            invariant
                i <= self.rows.len(),
                lending_views(list@) == open_rows(self@.take(i as int)),
            decreases self.rows.len() - i,
        {
            proof {
                let before = self@.take(i as int);
                let now = self@.take(i + 1);
                assert(now.drop_last() =~= before);
                assert(now.last() == self@[i as int]);
                assert(self@[i as int] == self.rows@[i as int]@);
                assert(open_rows(now) == if now.last().is_open() {
                    open_rows(before).push(now.last())
                } else {
                    open_rows(before)
                });
            }
            if self.rows[i].returned_at.is_none() {
                let row = self.rows[i].clone();
                proof {
                    assert(lending_views(list@.push(row)) =~= lending_views(list@).push(row@));
                }
                list.push(row);
            }
            i += 1;
        }
        proof {
            assert(self@.take(self.rows.len() as int) =~= self@);
        }
        list
    }
}

/// What the guard of a lending answers to the two looks that precede it,
/// one under the item's identifier and one under its QR code: an open
/// lending under either forbids the new one; a look that failed for
/// another reason than that nothing was found fails the guard with its
/// error, the look under the identifier first.
pub open spec fn guard_result(
    by_item: std::result::Result<LendingView, QrErrorView>,
    by_qr: std::result::Result<LendingView, QrErrorView>,
) -> std::result::Result<(), QrErrorView> {
    if by_item is Ok || by_qr is Ok {
        Err(QrErrorView::AlreadyLent)
    } else if !(by_item->Err_0 is DatabaseNotFound) {
        Err(by_item->Err_0)
    } else if !(by_qr->Err_0 is DatabaseNotFound) {
        Err(by_qr->Err_0)
    } else {
        Ok(())
    }
}

/// Guards a lending by the two looks that precede it.
pub fn lend_guard(by_item: Result<Lending>, by_qr: Result<Lending>) -> (res: Result<()>)
    ensures
        shown(res) == guard_result(shown_view(by_item), shown_view(by_qr)),
{
    match (by_item, by_qr) {
        (Ok(_), _) => Err(QrError::AlreadyLent),
        (_, Ok(_)) => Err(QrError::AlreadyLent),
        (Err(QrError::DatabaseNotFound(_)), Err(QrError::DatabaseNotFound(_))) => Ok(()),
        (Err(QrError::DatabaseNotFound(_)), Err(e)) => Err(e),
        (Err(e), _) => Err(e),
    }
}

/// How the store ended the write of a new lending.
#[derive(Debug, Clone, Copy, PartialEq, Eq, Structural)]
pub enum Commit {
    /// The row is written.
    Written,
    /// The store refused the row because the item has an open lending: a
    /// lending of the same item came first.
    OpenLendingExists,
    /// The store refused the row because its identifier is taken.
    IdentifierTaken,
    /// The store failed.
    Failed,
}

/// What lending answers once the store has ended the write: the store's
/// refusal of a second open lending is the same conflict as the guard's.
pub open spec fn commit_result(commit: Commit) -> std::result::Result<(), QrErrorView> {
    match commit {
        Commit::Written => Ok(()),
        Commit::OpenLendingExists => Err(QrErrorView::AlreadyLent),
        Commit::IdentifierTaken => Err(QrErrorView::AlreadyExists),
        Commit::Failed => Err(QrErrorView::DatabaseUpdate("lending"@)),
    }
}

/// Tells how the store ended the write of a new lending.
pub fn lend_commit(commit: Commit) -> (res: Result<()>)
    ensures
        shown(res) == commit_result(commit),
{
    match commit {
        Commit::Written => Ok(()),
        Commit::OpenLendingExists => Err(QrError::AlreadyLent),
        Commit::IdentifierTaken => Err(QrError::AlreadyExists),
        Commit::Failed => Err(QrError::DatabaseUpdate("lending".to_owned())),
    }
}

/// What the question whether an item is lent answers to a look for its
/// open lending: yes where one was found, no where none was found, and the
/// look's error where the look failed.
pub open spec fn status_result(found: std::result::Result<LendingView, QrErrorView>) -> std::result::Result<
    bool,
    QrErrorView,
> {
    match found {
        Ok(_) => Ok(true),
        Err(QrErrorView::DatabaseNotFound(_)) => Ok(false),
        Err(e) => Err(e),
    }
}

/// Turns a look for an open lending into the answer whether there is one.
pub fn lending_status(found: Result<Lending>) -> (res: Result<bool>)
    ensures
        shown(res) == status_result(shown_view(found)),
{
    match found {
        Ok(_) => Ok(true),
        Err(QrError::DatabaseNotFound(_)) => Ok(false),
        Err(e) => Err(e),
    }
}

/// Lends an item: enters `info` as an open lending. The item must not be
/// out, neither under its identifier nor under the QR code given, and the
/// lending's identifier must be new; else the ledger stays as it is.
pub fn insert_lending(conn: &mut Database, info: Lending) -> (res: Result<()>)
    requires
        old(conn).wf(),
    ensures
        final(conn).wf(),
        final(conn)@ == old(conn)@.after_insert_lending(info@),
        shown(res) == old(conn)@.insert_lending_result(info@),
{
    if !conn.online {
        return Err(QrError::DatabaseUpdate("lending".to_owned()));
    }
    let by_item = conn.lending.get(&IdType::FixturesId(info.fixtures_id));
    let by_qr = conn.lending.get(&IdType::QrId(info.fixtures_qr_id.clone()));
    match lend_guard(by_item, by_qr) {
        Err(e) => Err(e),
        Ok(()) => conn.lending.insert(info),
    }
}

/// The open lending under `id`.
pub fn get_one_lending(conn: &Database, id: IdType) -> (res: Result<Lending>)
    requires
        conn.wf(),
    ensures
        shown_view(res) == conn@.get_one_lending_result(id@),
{
    if !conn.online {
        return Err(QrError::DatabaseGet("lending".to_owned()));
    }
    conn.lending.get(&id)
}

/// Whether an open lending is held under `id`. Each kind of key is
/// answered for itself: an item can be out under one QR code and carry
/// another by now.
pub fn get_is_lending(conn: &Database, id: IdType) -> (res: Result<bool>)
    requires
        conn.wf(),
    ensures
        shown(res) == conn@.is_lending_result(id@),
{
    lending_status(get_one_lending(conn, id))
}

/// The open lendings, in the order in which they were made.
pub fn get_lending_list(conn: &Database) -> (res: Result<Vec<Lending>>)
    ensures
        match res {
            Ok(list) => conn@.get_lending_list_result() == Ok::<Seq<LendingView>, QrErrorView>(
                lending_views(list@),
            ),
            Err(e) => conn@.get_lending_list_result() == Err::<Seq<LendingView>, QrErrorView>(e@),
        },
{
    if !conn.online {
        return Err(QrError::DatabaseGet("lending".to_owned()));
    }
    Ok(conn.lending.open_list())
}

/// Takes an item back at the time `returned_at`: closes the open lending
/// under `id`. A QR code stands for the item that carries it now, not for
/// the item that carried it when something was lent under it. Without an
/// open lending nothing changes.
pub fn returned_lending(conn: &mut Database, id: IdType, returned_at: i64) -> (res: Result<()>)
    requires
        old(conn).wf(),
    ensures
        final(conn).wf(),
        final(conn)@ == old(conn)@.after_returned_lending(id@, returned_at),
        shown(res) == old(conn)@.returned_lending_result(id@),
{
    if !conn.online {
        return Err(QrError::DatabaseUpdate("lending".to_owned()));
    }
    let key = match return_lookup(&id) {
        Some(carried) => match return_key_of_item(conn.fixtures.get(&carried)) {
            Ok(key) => key,
            Err(e) => {
                return Err(e);
            },
        },
        None => id,
    };
    conn.lending.give_back(&key, returned_at)
}

/// The key of the item that must be looked up before a return under
/// `key`: a QR code is looked up among the items, other keys are not.
pub fn return_lookup(key: &IdType) -> (carried: Option<fixtures::IdType>)
    ensures
        match key@ {
            IdTypeView::QrId(qr) => carried matches Some(k) && k@ == fixtures::IdTypeView::QrId(qr),
            _ => carried is None,
        },
{
    match key {
        IdType::QrId(qr) => Some(fixtures::IdType::QrId(qr.clone())),
        _ => None,
    }
}

/// The key under which the ledger is asked at a return under a QR code,
/// given what the look for the item that carries the code answered: the
/// item's identifier, or the look's error.
pub fn return_key_of_item(found: Result<Fixtures>) -> (res: Result<IdType>)
    ensures
        match found {
            Ok(item) => res matches Ok(key) && key@ == IdTypeView::FixturesId(item.id),
            Err(e) => res matches Err(f) && f@ == e@,
        },
{
    match found {
        Ok(item) => Ok(IdType::FixturesId(item.id)),
        Err(e) => Err(e),
    }
}

} // verus!
