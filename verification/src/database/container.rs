//! The containers table: every container under its identifier.

use crate::database::Database;
use crate::error_handling::{shown, QrError, QrErrorView, Result};
use crate::{Container, ContainerView};
use vstd::prelude::*;

verus! {

/// Whether the table holds a container of the identifier `id`.
pub open spec fn holds(rows: Seq<ContainerView>, id: u128) -> bool {
    exists|i: int| 0 <= i < rows.len() && (#[trigger] rows[i]).id == id
}

/// What every containers table keeps: no two containers share an
/// identifier.
pub open spec fn containers_wf(rows: Seq<ContainerView>) -> bool {
    forall|i: int, j: int|
        0 <= i < j < rows.len() ==> (#[trigger] rows[i]).id != (#[trigger] rows[j]).id
}

/// What entering `container` answers: its identifier must be new.
pub open spec fn create_result(
    rows: Seq<ContainerView>,
    container: ContainerView,
) -> std::result::Result<(), QrErrorView> {
    if holds(rows, container.id) {
        Err(QrErrorView::AlreadyExists)
    } else {
        Ok(())
    }
}

/// The table after entering `container`.
pub open spec fn after_create(rows: Seq<ContainerView>, container: ContainerView) -> Seq<
    ContainerView,
> {
    if holds(rows, container.id) {
        rows
    } else {
        rows.push(container)
    }
}

/// The views of a list of containers.
pub open spec fn container_views(rows: Seq<Container>) -> Seq<ContainerView> {
    Seq::new(rows.len(), |i: int| rows[i]@)
}

/// The containers table of the registry.
#[derive(Debug)]
pub struct ContainerTable {
    rows: Vec<Container>,
}

impl View for ContainerTable {
    type V = Seq<ContainerView>;

    closed spec fn view(&self) -> Seq<ContainerView> {
        container_views(self.rows@)
    }
}

impl ContainerTable {
    /// Whether the table keeps what every containers table keeps.
    pub open spec fn wf(&self) -> bool {
        containers_wf(self@)
    }

    /// A table without containers.
    pub fn new() -> (table: ContainerTable)
        ensures
            table.wf(),
            table@ == Seq::<ContainerView>::empty(),
    {
        let table = ContainerTable { rows: Vec::new() };
        assert(table@ =~= Seq::<ContainerView>::empty());
        table
    }

    /// The number of containers.
    pub fn len(&self) -> (n: usize)
        ensures
            n == self@.len(),
    {
        self.rows.len()
    }

    /// Whether the table holds a container of the identifier `id`.
    pub fn contains(&self, id: u128) -> (held: bool)
        ensures
            held == holds(self@, id),
    {
        let mut i: usize = 0;
        while i < self.rows.len()
            invariant
                i <= self.rows.len(),
                forall|j: int| 0 <= j < i ==> (#[trigger] self@[j]).id != id,
            decreases self.rows.len() - i,
        {
            if self.rows[i].id == id {
                assert(self@[i as int].id == id);
                return true;
            }
            i += 1;
        }
        false
    }

    /// Enters `container`, unless its identifier is taken.
    pub fn insert(&mut self, container: Container) -> (res: Result<()>)
        requires
            old(self).wf(),
        ensures
            final(self).wf(),
            final(self)@ == after_create(old(self)@, container@),
            shown(res) == create_result(old(self)@, container@),
    {
        if self.contains(container.id) {
            return Err(QrError::AlreadyExists);
        }
        proof {
            let rows = self@;
            let next = rows.push(container@);
            assert forall|i: int, j: int| 0 <= i < j < next.len() implies (#[trigger] next[i]).id
                != (#[trigger] next[j]).id by {
                if j == rows.len() {
                    assert(rows[i].id != container.id);
                }
            }
            assert(container_views(self.rows@.push(container)) =~= next);
        }
        self.rows.push(container);
        Ok(())
    }

    /// All containers, in the order in which they were entered.
    pub fn list(&self) -> (list: Vec<Container>)
        ensures
            container_views(list@) == self@,
    {
        let mut list: Vec<Container> = Vec::new();
        let mut i: usize = 0;
        while i < self.rows.len()
            invariant
                i <= self.rows.len(),
                list@.len() == i,
                forall|j: int| 0 <= j < i ==> (#[trigger] list@[j])@ == self@[j],
            decreases self.rows.len() - i,
        {
            list.push(self.rows[i].clone());
            i += 1;
        }
        assert(container_views(list@) =~= self@);
        list
    }
}

/// Enters `info` as a new container. Its identifier must be new.
pub fn insert_container(conn: &mut Database, info: Container) -> (res: Result<()>)
    requires
        old(conn).wf(),
    ensures
        final(conn).wf(),
        final(conn)@ == old(conn)@.after_insert_container(info@),
        shown(res) == old(conn)@.insert_container_result(info@),
{
    if !conn.online {
        return Err(QrError::DatabaseAdd("container".to_owned()));
    }
    conn.container.insert(info)
}

} // verus!
