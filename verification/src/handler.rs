//! The operations of the service, as the transport layer calls them.
//!
//! An operation that changes something is guarded: the bearer's credential
//! is checked first, and a role that may not do the operation is turned
//! away before anything else is looked at. A change of an item is written
//! twice, to the registry and then to the index. The registry decides:
//! where it fails, nothing has happened; where it succeeds and the index
//! fails, the change stands and the outcome says that the index is behind.

pub mod authentication;
pub mod container;
pub mod fixtures;
pub mod lending;
pub mod query;
pub mod signup;
pub mod spot;

use crate::certification::{
    authorize, get_role_at, guard_result, Operation, PassSettings,
};
use crate::database::{Database, DatabaseView};
use crate::error_handling::{shown, QrError, QrErrorView, Result};
use crate::search_engine::{index_wf, SearchFixtures, SearchFixturesView};
use crate::FixturesView;
use vstd::prelude::*;

verus! {

/// The service: the registry, the index, and what is configured for the
/// issue of credentials.
#[derive(Debug)]
pub struct App {
    /// The registry.
    pub conn: Database,
    /// The index of the items.
    pub context: SearchFixtures,
    /// The secrets and lifetimes of the roles.
    pub settings: PassSettings,
}

/// What the service holds.
pub struct AppView {
    pub conn: DatabaseView,
    pub context: SearchFixturesView,
    pub settings: PassSettings,
}

impl View for App {
    type V = AppView;

    open spec fn view(&self) -> AppView {
        AppView { conn: self.conn@, context: self.context@, settings: self.settings }
    }
}

/// How a change of the items ended that the registry took.
#[derive(Debug, Clone, PartialEq, Eq)]
pub enum WriteOutcome {
    /// The index took the change too.
    Synced,
    /// The index failed with this error. The change stands in the
    /// registry, and the index is behind until the change is handed to it
    /// again.
    IndexOutOfSync(QrError),
}

/// An outcome, its error by its view.
pub enum WriteOutcomeView {
    Synced,
    IndexOutOfSync(QrErrorView),
}

impl View for WriteOutcome {
    type V = WriteOutcomeView;

    open spec fn view(&self) -> WriteOutcomeView {
        match self {
            WriteOutcome::Synced => WriteOutcomeView::Synced,
            WriteOutcome::IndexOutOfSync(e) => WriteOutcomeView::IndexOutOfSync(e@),
        }
    }
}

/// The outcome of a change that the registry took, given what the index
/// answered.
pub open spec fn outcome_of(index: std::result::Result<(), QrErrorView>) -> WriteOutcomeView {
    match index {
        Ok(()) => WriteOutcomeView::Synced,
        Err(e) => WriteOutcomeView::IndexOutOfSync(e),
    }
}

/// Tells the outcome of a change that the registry took from what the
/// index answered.
pub fn index_outcome(index: Result<()>) -> (outcome: WriteOutcome)
    ensures
        outcome@ == outcome_of(shown(index)),
{
    match index {
        Ok(()) => WriteOutcome::Synced,
        Err(e) => WriteOutcome::IndexOutOfSync(e),
    }
}

impl WriteOutcome {
    /// The outcome as a result: the index's error where the index is
    /// behind.
    pub fn into_result(self) -> (res: Result<()>)
        ensures
            shown(res) == match self@ {
                WriteOutcomeView::Synced => Ok::<(), QrErrorView>(()),
                WriteOutcomeView::IndexOutOfSync(e) => Err::<(), QrErrorView>(e),
            },
    {
        match self {
            WriteOutcome::Synced => Ok(()),
            WriteOutcome::IndexOutOfSync(e) => Err(e),
        }
    }
}

/// Whether the index mirrors the items of the registry: it holds a
/// document for an item exactly where the registry holds that item.
pub open spec fn mirrors(documents: Seq<FixturesView>, rows: Seq<FixturesView>) -> bool {
    forall|item: FixturesView| #[trigger] documents.contains(item) <==> rows.contains(item)
}

impl AppView {
    /// Whether the registry and the index keep what they have to keep.
    pub open spec fn wf(self) -> bool {
        self.conn.wf() && index_wf(self.context.documents)
    }

    /// Whether the index mirrors the items of the registry.
    pub open spec fn in_sync(self) -> bool {
        mirrors(self.context.documents, self.conn.fixtures)
    }

    /// What the guard of `operation` answers to the bearer of `bearer` at
    /// the time `now`.
    pub open spec fn guard(self, bearer: Seq<char>, operation: Operation, now: i64) -> std::result::Result<
        (),
        QrErrorView,
    > {
        guard_result(self.conn.role_at(bearer, now), operation)
    }
}

impl App {
    /// Whether the registry and the index keep what they have to keep.
    pub open spec fn wf(&self) -> bool {
        self@.wf()
    }

    /// A service with an empty registry and an empty index, both within
    /// reach.
    pub fn new(settings: PassSettings) -> (app: App)
        ensures
            app.wf(),
            app@.in_sync(),
            app@ == (AppView {
                conn: DatabaseView {
                    online: true,
                    fixtures: Seq::empty(),
                    lending: Seq::empty(),
                    spot: Seq::empty(),
                    container: Seq::empty(),
                    passtoken: Seq::empty(),
                },
                context: SearchFixturesView { online: true, documents: Seq::empty() },
                settings,
            }),
    {
        App { conn: Database::new(), context: SearchFixtures::new(), settings }
    }
}

/// Guards `operation`: checks the credential of the token `bearer` at the
/// time `now`.
pub fn guard(app: &App, bearer: &str, operation: Operation, now: i64) -> (res: Result<()>)
    requires
        app.wf(),
    ensures
        shown(res) == app@.guard(bearer@, operation, now),
{
    let role = get_role_at(&app.conn, bearer, now);
    authorize(&role, operation)
}

} // verus!
