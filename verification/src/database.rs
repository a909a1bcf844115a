//! The registry: a model of the relational store that the service writes
//! to, table by table.
//!
//! The registry can be out of reach. While it is, every operation on it
//! fails with the error of its kind and leaves every table as it was.

pub mod container;
pub mod fixtures;
pub mod lending;
pub mod spot;

use crate::certification::{
    after_store, passtokens_wf, role_result, store_result, PasstokenTable, PasstokenView, Role,
};
use crate::database::container::{containers_wf, ContainerTable};
use crate::database::fixtures::{registry_wf, FixturesTable};
use crate::database::lending::{ledger_wf, LendingTable};
use crate::database::spot::{spots_wf, SpotTable};
use crate::error_handling::QrErrorView;
use crate::{ContainerView, FixturesView, LendingView, SpotView};
use vstd::prelude::*;

verus! {

/// The registry.
#[derive(Debug)]
pub struct Database {
    /// Whether the registry can be reached.
    pub online: bool,
    /// The items.
    pub fixtures: FixturesTable,
    /// The lendings.
    pub lending: LendingTable,
    /// The spots.
    pub spot: SpotTable,
    /// The containers.
    pub container: ContainerTable,
    /// The credentials.
    pub passtoken: PasstokenTable,
}

/// What the registry holds.
pub struct DatabaseView {
    pub online: bool,
    pub fixtures: Seq<FixturesView>,
    pub lending: Seq<LendingView>,
    pub spot: Seq<SpotView>,
    pub container: Seq<ContainerView>,
    pub passtoken: Seq<PasstokenView>,
}

impl View for Database {
    type V = DatabaseView;

    open spec fn view(&self) -> DatabaseView {
        DatabaseView {
            online: self.online,
            fixtures: self.fixtures@,
            lending: self.lending@,
            spot: self.spot@,
            container: self.container@,
            passtoken: self.passtoken@,
        }
    }
}

impl DatabaseView {
    /// Whether every table keeps what it has to keep.
    pub open spec fn wf(self) -> bool {
        &&& registry_wf(self.fixtures)
        &&& ledger_wf(self.lending)
        &&& spots_wf(self.spot)
        &&& containers_wf(self.container)
        &&& passtokens_wf(self.passtoken)
    }

    /// What entering the item `item` answers.
    pub open spec fn insert_fixtures_result(self, item: FixturesView) -> Result<(), QrErrorView> {
        if !self.online {
            Err(QrErrorView::DatabaseAdd("fixtures"@))
        } else {
            fixtures::create_result(self.fixtures, item)
        }
    }

    /// The registry after entering the item `item`.
    pub open spec fn after_insert_fixtures(self, item: FixturesView) -> DatabaseView {
        if !self.online {
            self
        } else {
            DatabaseView { fixtures: fixtures::after_create(self.fixtures, item), ..self }
        }
    }

    /// What replacing an item by `item` answers.
    pub open spec fn update_fixtures_result(self, item: FixturesView) -> Result<(), QrErrorView> {
        if !self.online {
            Err(QrErrorView::DatabaseUpdate("fixtures"@))
        } else {
            fixtures::update_result(self.fixtures, item)
        }
    }

    /// The registry after replacing an item by `item`.
    pub open spec fn after_update_fixtures(self, item: FixturesView) -> DatabaseView {
        if !self.online {
            self
        } else {
            DatabaseView { fixtures: fixtures::after_update(self.fixtures, item), ..self }
        }
    }

    /// What dropping the item of the identifier `id` answers: it succeeds
    /// whether or not the item is there.
    pub open spec fn delete_fixtures_result(self, id: u128) -> Result<(), QrErrorView> {
        if !self.online {
            Err(QrErrorView::DatabaseDelete("fixtures"@))
        } else {
            Ok(())
        }
    }

    /// The registry after dropping the item of the identifier `id`.
    pub open spec fn after_delete_fixtures(self, id: u128) -> DatabaseView {
        if !self.online {
            self
        } else {
            DatabaseView { fixtures: fixtures::after_delete(self.fixtures, id), ..self }
        }
    }

    /// What a look for the item under `key` answers.
    pub open spec fn get_one_fixtures_result(self, key: fixtures::IdTypeView) -> Result<
        FixturesView,
        QrErrorView,
    > {
        if !self.online {
            Err(QrErrorView::DatabaseGet("fixtures"@))
        } else {
            fixtures::find_result(self.fixtures, key)
        }
    }

    /// What listing the items answers.
    pub open spec fn get_fixtures_list_result(self) -> Result<Seq<FixturesView>, QrErrorView> {
        if !self.online {
            Err(QrErrorView::DatabaseGet("fixtures"@))
        } else {
            Ok(self.fixtures)
        }
    }

    /// What listing the items that pass `filter` answers.
    pub open spec fn list_fixtures_result(self, filter: fixtures::FilterView) -> Result<
        Seq<FixturesView>,
        QrErrorView,
    > {
        if !self.online {
            Err(QrErrorView::DatabaseGet("fixtures"@))
        } else {
            Ok(fixtures::selected(self.fixtures, filter))
        }
    }

    /// What lending answers.
    pub open spec fn insert_lending_result(self, info: LendingView) -> Result<(), QrErrorView> {
        if !self.online {
            Err(QrErrorView::DatabaseUpdate("lending"@))
        } else {
            lending::lend_result(self.lending, info)
        }
    }

    /// The registry after lending.
    pub open spec fn after_insert_lending(self, info: LendingView) -> DatabaseView {
        if !self.online {
            self
        } else {
            DatabaseView { lending: lending::after_lend(self.lending, info), ..self }
        }
    }

    /// What a look for the open lending under `key` answers.
    pub open spec fn get_one_lending_result(self, key: lending::IdTypeView) -> Result<
        LendingView,
        QrErrorView,
    > {
        if !self.online {
            Err(QrErrorView::DatabaseGet("lending"@))
        } else {
            lending::find_result(self.lending, key)
        }
    }

    /// What the question whether an open lending is held under `key`
    /// answers.
    pub open spec fn is_lending_result(self, key: lending::IdTypeView) -> Result<
        bool,
        QrErrorView,
    > {
        if !self.online {
            Err(QrErrorView::DatabaseGet("lending"@))
        } else {
            Ok(lending::is_lending(self.lending, key))
        }
    }

    /// What listing the open lendings answers.
    pub open spec fn get_lending_list_result(self) -> Result<Seq<LendingView>, QrErrorView> {
        if !self.online {
            Err(QrErrorView::DatabaseGet("lending"@))
        } else {
            Ok(lending::open_rows(self.lending))
        }
    }

    /// The key under which a return looks for the open lending. A QR code
    /// is not looked up in the ledger: it stands for the item that carries
    /// it now, and the return is that item's.
    pub open spec fn return_key(self, key: lending::IdTypeView) -> Result<
        lending::IdTypeView,
        QrErrorView,
    > {
        match key {
            lending::IdTypeView::QrId(qr) => match fixtures::find_result(
                self.fixtures,
                fixtures::IdTypeView::QrId(qr),
            ) {
                Ok(item) => Ok(lending::IdTypeView::FixturesId(item.id)),
                Err(e) => Err(e),
            },
            _ => Ok(key),
        }
    }

    /// What a return under `key` answers.
    pub open spec fn returned_lending_result(self, key: lending::IdTypeView) -> Result<
        (),
        QrErrorView,
    > {
        if !self.online {
            Err(QrErrorView::DatabaseUpdate("lending"@))
        } else {
            match self.return_key(key) {
                Ok(k) => lending::return_result(self.lending, k),
                Err(e) => Err(e),
            }
        }
    }

    /// The registry after a return under `key` at the time `at`.
    pub open spec fn after_returned_lending(self, key: lending::IdTypeView, at: i64) -> DatabaseView {
        if !self.online {
            self
        } else {
            match self.return_key(key) {
                Ok(k) => DatabaseView { lending: lending::after_return(self.lending, k, at), ..self },
                Err(_) => self,
            }
        }
    }

    /// What entering the spot `spot` answers.
    pub open spec fn insert_spot_result(self, spot: SpotView) -> Result<(), QrErrorView> {
        if !self.online {
            Err(QrErrorView::DatabaseAdd("spot"@))
        } else {
            spot::create_result(self.spot, spot)
        }
    }

    /// The registry after entering the spot `spot`.
    pub open spec fn after_insert_spot(self, spot: SpotView) -> DatabaseView {
        if !self.online {
            self
        } else {
            DatabaseView { spot: spot::after_create(self.spot, spot), ..self }
        }
    }

    /// What replacing a spot by `spot` answers.
    pub open spec fn update_spot_result(self, spot: SpotView) -> Result<(), QrErrorView> {
        if !self.online {
            Err(QrErrorView::DatabaseUpdate("spot"@))
        } else {
            spot::update_result(self.spot, spot)
        }
    }

    /// The registry after replacing a spot by `spot`.
    pub open spec fn after_update_spot(self, spot: SpotView) -> DatabaseView {
        if !self.online {
            self
        } else {
            DatabaseView { spot: spot::after_update(self.spot, spot), ..self }
        }
    }

    /// What a look for the spot of the name `name` answers.
    pub open spec fn get_one_spot_result(self, name: Seq<char>) -> Result<SpotView, QrErrorView> {
        if !self.online {
            Err(QrErrorView::DatabaseGet("spot"@))
        } else {
            spot::find_result(self.spot, name)
        }
    }

    /// What listing the spots answers.
    pub open spec fn get_spot_list_result(self) -> Result<Seq<SpotView>, QrErrorView> {
        if !self.online {
            Err(QrErrorView::DatabaseGet("spot"@))
        } else {
            Ok(self.spot)
        }
    }

    /// What dropping the spot of the name `name` answers.
    pub open spec fn delete_spot_result(self, name: Seq<char>) -> Result<(), QrErrorView> {
        if !self.online {
            Err(QrErrorView::DatabaseDelete("spot"@))
        } else {
            Ok(())
        }
    }

    /// The registry after dropping the spot of the name `name`.
    pub open spec fn after_delete_spot(self, name: Seq<char>) -> DatabaseView {
        if !self.online {
            self
        } else {
            DatabaseView { spot: spot::after_delete(self.spot, name), ..self }
        }
    }

    /// What entering the container `container` answers.
    pub open spec fn insert_container_result(self, container: ContainerView) -> Result<
        (),
        QrErrorView,
    > {
        if !self.online {
            Err(QrErrorView::DatabaseAdd("container"@))
        } else {
            container::create_result(self.container, container)
        }
    }

    /// The registry after entering the container `container`.
    pub open spec fn after_insert_container(self, container: ContainerView) -> DatabaseView {
        if !self.online {
            self
        } else {
            DatabaseView { container: container::after_create(self.container, container), ..self }
        }
    }

    /// What entering the credential `passtoken` answers.
    pub open spec fn insert_passtoken_result(self, passtoken: PasstokenView) -> Result<
        (),
        QrErrorView,
    > {
        if !self.online {
            Err(QrErrorView::DatabaseAdd("passtoken"@))
        } else {
            store_result(self.passtoken, passtoken)
        }
    }

    /// The registry after entering the credential `passtoken`.
    pub open spec fn after_insert_passtoken(self, passtoken: PasstokenView) -> DatabaseView {
        if !self.online {
            self
        } else {
            DatabaseView { passtoken: after_store(self.passtoken, passtoken), ..self }
        }
    }

    /// What the check of `token` at the time `now` answers.
    pub open spec fn role_at(self, token: Seq<char>, now: i64) -> Result<Role, QrErrorView> {
        if !self.online {
            Err(QrErrorView::DatabaseGet("passtoken"@))
        } else {
            role_result(self.passtoken, token, now)
        }
    }
}

impl Database {
    /// Whether every table keeps what it has to keep.
    pub open spec fn wf(&self) -> bool {
        self@.wf()
    }

    /// A registry within reach and without rows.
    pub fn new() -> (conn: Database)
        ensures
            conn.wf(),
            conn@ == (DatabaseView {
                online: true,
                fixtures: Seq::empty(),
                lending: Seq::empty(),
                spot: Seq::empty(),
                container: Seq::empty(),
                passtoken: Seq::empty(),
            }),
    {
        Database {
            online: true,
            fixtures: FixturesTable::new(),
            lending: LendingTable::new(),
            spot: SpotTable::new(),
            container: ContainerTable::new(),
            passtoken: PasstokenTable::new(),
        }
    }
}

} // verus!
