//! The spots table: every spot under its name.

use crate::database::Database;
use crate::error_handling::{shown, shown_view, QrError, QrErrorView, Result};
use crate::text::same_text;
use crate::{Spot, SpotView};
use vstd::prelude::*;

verus! {

/// Whether the `i`-th spot has the name `name`.
pub open spec fn named_at(rows: Seq<SpotView>, name: Seq<char>, i: int) -> bool {
    0 <= i < rows.len() && rows[i].name == name
}

/// Whether the table holds a spot of the name `name`.
pub open spec fn holds(rows: Seq<SpotView>, name: Seq<char>) -> bool {
    exists|i: int| named_at(rows, name, i)
}

/// The place of the spot of the name `name`, where the table holds one.
pub open spec fn place(rows: Seq<SpotView>, name: Seq<char>) -> int {
    choose|i: int| named_at(rows, name, i)
}

/// What every spots table keeps: no two spots share a name.
pub open spec fn spots_wf(rows: Seq<SpotView>) -> bool {
    forall|i: int, j: int|
        0 <= i < j < rows.len() ==> (#[trigger] rows[i]).name != (#[trigger] rows[j]).name
}

/// What entering `spot` answers: its name must be new.
pub open spec fn create_result(rows: Seq<SpotView>, spot: SpotView) -> std::result::Result<
    (),
    QrErrorView,
> {
    if holds(rows, spot.name) {
        Err(QrErrorView::AlreadyExists)
    } else {
        Ok(())
    }
}

/// The table after entering `spot`.
pub open spec fn after_create(rows: Seq<SpotView>, spot: SpotView) -> Seq<SpotView> {
    if holds(rows, spot.name) {
        rows
    } else {
        rows.push(spot)
    }
}

/// What a look under `name` answers: the spot, or that there is none.
pub open spec fn find_result(rows: Seq<SpotView>, name: Seq<char>) -> std::result::Result<
    SpotView,
    QrErrorView,
> {
    if holds(rows, name) {
        Ok(rows[place(rows, name)])
    } else {
        Err(QrErrorView::DatabaseNotFound(name))
    }
}

/// What replacing a spot by `spot` answers: the table must hold a spot of
/// that name.
pub open spec fn update_result(rows: Seq<SpotView>, spot: SpotView) -> std::result::Result<
    (),
    QrErrorView,
> {
    if holds(rows, spot.name) {
        Ok(())
    } else {
        Err(QrErrorView::DatabaseNotFound(spot.name))
    }
}

/// The table after replacing a spot by `spot`.
pub open spec fn after_update(rows: Seq<SpotView>, spot: SpotView) -> Seq<SpotView> {
    if holds(rows, spot.name) {
        rows.update(place(rows, spot.name), spot)
    } else {
        rows
    }
}

/// The table after dropping the spot of the name `name`.
pub open spec fn after_delete(rows: Seq<SpotView>, name: Seq<char>) -> Seq<SpotView> {
    if holds(rows, name) {
        rows.remove(place(rows, name))
    } else {
        rows
    }
}

/// The views of a list of spots.
pub open spec fn spot_views(rows: Seq<Spot>) -> Seq<SpotView> {
    Seq::new(rows.len(), |i: int| rows[i]@)
}

/// In a spots table, one spot at most has a given name.
pub proof fn spot_is_unique(rows: Seq<SpotView>, name: Seq<char>, i: int)
    requires
        spots_wf(rows),
        named_at(rows, name, i),
    ensures
        holds(rows, name),
        place(rows, name) == i,
{
    let j = place(rows, name);
    assert(named_at(rows, name, j));
    if i < j {
        assert(rows[i].name != rows[j].name);
    }
    if j < i {
        assert(rows[j].name != rows[i].name);
    }
}

/// The spots table of the registry.
#[derive(Debug)]
pub struct SpotTable {
    rows: Vec<Spot>,
}

impl View for SpotTable {
    type V = Seq<SpotView>;

    closed spec fn view(&self) -> Seq<SpotView> {
        spot_views(self.rows@)
    }
}

impl SpotTable {
    /// Whether the table keeps what every spots table keeps.
    pub open spec fn wf(&self) -> bool {
        spots_wf(self@)
    }

    /// A table without spots.
    pub fn new() -> (table: SpotTable)
        ensures
            table.wf(),
            table@ == Seq::<SpotView>::empty(),
    {
        let table = SpotTable { rows: Vec::new() };
        assert(table@ =~= Seq::<SpotView>::empty());
        table
    }

    /// The number of spots.
    pub fn len(&self) -> (n: usize)
        ensures
            n == self@.len(),
    {
        self.rows.len()
    }

    /// The place of the spot of the name `name`.
    fn position(&self, name: &str) -> (found: Option<usize>)
        ensures
            match found {
                Some(i) => named_at(self@, name@, i as int),
                None => !holds(self@, name@),
            },
    {
        let mut i: usize = 0;
        while i < self.rows.len()
            invariant
                i <= self.rows.len(),
                forall|j: int| 0 <= j < i ==> !named_at(self@, name@, j),
            decreases self.rows.len() - i,
        {
            if same_text(self.rows[i].name.as_str(), name) {
                return Some(i);
            }
            i += 1;
        }
        None
    }

    /// The spot of the name `name`.
    pub fn get(&self, name: &str) -> (res: Result<Spot>)
        requires
            self.wf(),
        ensures
            shown_view(res) == find_result(self@, name@),
    {
        match self.position(name) {
            Some(i) => {
                proof {
                    spot_is_unique(self@, name@, i as int);
                }
                Ok(self.rows[i].clone())
            },
            None => Err(QrError::DatabaseNotFound(name.to_owned())),
        }
    }

    /// Enters `spot`, unless its name is taken.
    pub fn insert(&mut self, spot: Spot) -> (res: Result<()>)
        requires
            old(self).wf(),
        ensures
            final(self).wf(),
            final(self)@ == after_create(old(self)@, spot@),
            shown(res) == create_result(old(self)@, spot@),
    {
        if self.position(spot.name.as_str()).is_some() {
            return Err(QrError::AlreadyExists);
        }
        proof {
            let rows = self@;
            let next = rows.push(spot@);
            assert forall|i: int, j: int| 0 <= i < j < next.len() implies (#[trigger] next[i]).name
                != (#[trigger] next[j]).name by {
                if j == rows.len() {
                    assert(!named_at(rows, spot.name@, i));
                }
            }
            assert(spot_views(self.rows@.push(spot)) =~= next);
        }
        self.rows.push(spot);
        Ok(())
    }

    /// Replaces the spot of `spot`'s name by `spot`. Without such a spot
    /// nothing changes.
    pub fn update(&mut self, spot: Spot) -> (res: Result<()>)
        requires
            old(self).wf(),
        ensures
            final(self).wf(),
            final(self)@ == after_update(old(self)@, spot@),
            shown(res) == update_result(old(self)@, spot@),
    {
        match self.position(spot.name.as_str()) {
            None => Err(QrError::DatabaseNotFound(spot.name.clone())),
            Some(i) => {
                proof {
                    let rows = self@;
                    spot_is_unique(rows, spot.name@, i as int);
                    let next = rows.update(i as int, spot@);
                    assert forall|a: int, b: int| 0 <= a < b < next.len() implies (
                    #[trigger] next[a]).name != (#[trigger] next[b]).name by {
                        assert(rows[a].name != rows[b].name);
                    }
                    assert(spot_views(self.rows@.update(i as int, spot)) =~= next);
                }
                self.rows.set(i, spot);
                Ok(())
            },
        }
    }

    /// Drops the spot of the name `name`, if the table holds it.
    pub fn delete(&mut self, name: &str)
        requires
            old(self).wf(),
        ensures
            final(self).wf(),
            final(self)@ == after_delete(old(self)@, name@),
    {
        match self.position(name) {
            None => {},
            Some(i) => {
                proof {
                    let rows = self@;
                    spot_is_unique(rows, name@, i as int);
                    let next = rows.remove(i as int);
                    assert forall|a: int, b: int| 0 <= a < b < next.len() implies (
                    #[trigger] next[a]).name != (#[trigger] next[b]).name by {
                        let a0 = if a < i { a } else { a + 1 };
                        let b0 = if b < i { b } else { b + 1 };
                        assert(rows[a0].name != rows[b0].name);
                    }
                    assert(spot_views(self.rows@.remove(i as int)) =~= next);
                }
                self.rows.remove(i);
            },
        }
    }

    /// All spots, in the order in which they were entered.
    pub fn list(&self) -> (list: Vec<Spot>)
        ensures
            spot_views(list@) == self@,
    {
        let mut list: Vec<Spot> = Vec::new();
        let mut i: usize = 0;
        while i < self.rows.len()
            invariant
                i <= self.rows.len(),
                list@.len() == i,
                forall|j: int| 0 <= j < i ==> (#[trigger] list@[j])@ == self@[j],
            decreases self.rows.len() - i,
        {
            list.push(self.rows[i].clone());
            i += 1;
        }
        assert(spot_views(list@) =~= self@);
        list
    }
}

/// Enters `info` as a new spot. Its name must be new.
pub fn insert_spot(conn: &mut Database, info: Spot) -> (res: Result<()>)
    requires
        old(conn).wf(),
    ensures
        final(conn).wf(),
        final(conn)@ == old(conn)@.after_insert_spot(info@),
        shown(res) == old(conn)@.insert_spot_result(info@),
{
    if !conn.online {
        return Err(QrError::DatabaseAdd("spot".to_owned()));
    }
    conn.spot.insert(info)
}

/// Replaces the spot of `new_info`'s name by `new_info`. The registry
/// must hold such a spot.
pub fn update_spot(conn: &mut Database, new_info: Spot) -> (res: Result<()>)
    requires
        old(conn).wf(),
    ensures
        final(conn).wf(),
        final(conn)@ == old(conn)@.after_update_spot(new_info@),
        shown(res) == old(conn)@.update_spot_result(new_info@),
{
    if !conn.online {
        return Err(QrError::DatabaseUpdate("spot".to_owned()));
    }
    conn.spot.update(new_info)
}

/// The spot of the name `name`.
pub fn get_one_spot(conn: &Database, name: &str) -> (res: Result<Spot>)
    requires
        conn.wf(),
    ensures
        shown_view(res) == conn@.get_one_spot_result(name@),
{
    if !conn.online {
        return Err(QrError::DatabaseGet("spot".to_owned()));
    }
    conn.spot.get(name)
}

/// All spots, in the order in which they were entered.
pub fn get_spot_list(conn: &Database) -> (res: Result<Vec<Spot>>)
    ensures
        match res {
            Ok(list) => conn@.get_spot_list_result() == Ok::<Seq<SpotView>, QrErrorView>(
                spot_views(list@),
            ),
            Err(e) => conn@.get_spot_list_result() == Err::<Seq<SpotView>, QrErrorView>(e@),
        },
{
    if !conn.online {
        return Err(QrError::DatabaseGet("spot".to_owned()));
    }
    Ok(conn.spot.list())
}

/// Drops the spot of the name `name`. Dropping what is not there succeeds
/// and changes nothing.
pub fn delete_spot(conn: &mut Database, name: &str) -> (res: Result<()>)
    requires
        old(conn).wf(),
    ensures
        final(conn).wf(),
        final(conn)@ == old(conn)@.after_delete_spot(name@),
        shown(res) == old(conn)@.delete_spot_result(name@),
{
    if !conn.online {
        return Err(QrError::DatabaseDelete("spot".to_owned()));
    }
    conn.spot.delete(name);
    Ok(())
}

} // verus!
