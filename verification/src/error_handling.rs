//! What can go wrong, and how a result is told to the caller of the service.

use vstd::prelude::*;
use vstd::string::StringExecFns;

verus! {

/// A failure of one operation. None ends the service.
#[derive(Debug, Clone, PartialEq, Eq)]
pub enum QrError {
    /// A setting that the service needs is missing or unreadable.
    Environment(String),
    /// The index could not take or replace documents.
    SearchEngineAddOrReplace(String),
    /// The index could not drop documents.
    SearchEngineDelete(String),
    /// The index could not answer a query.
    SearchEngineSearch(String),
    /// The registry could not add a row.
    DatabaseAdd(String),
    /// The registry could not change a row.
    DatabaseUpdate(String),
    /// The registry could not drop a row.
    DatabaseDelete(String),
    /// The registry could not be read.
    DatabaseGet(String),
    /// The request lacks a parameter.
    UrlQuery(String),
    /// The credential is wrong, expired, or bound to a role that may not
    /// do this.
    Authorized,
    /// The text is no identifier.
    BrokenUuid(String),
    /// The registry holds nothing under the key given.
    DatabaseNotFound(String),
    /// The item is lent already.
    AlreadyLent,
    /// The registry holds a row with this key already.
    AlreadyExists,
    /// The runtime could not be built.
    TokioRuntime,
    /// The registry's layout could not be brought up to date.
    Migrations,
    /// The registry could not be reached.
    ConnectionPool,
    /// Logging could not be set up.
    LoggingConfig,
    /// The service could not be served.
    Serve,
}

/// A failure, its text by its characters.
pub enum QrErrorView {
    Environment(Seq<char>),
    SearchEngineAddOrReplace(Seq<char>),
    SearchEngineDelete(Seq<char>),
    SearchEngineSearch(Seq<char>),
    DatabaseAdd(Seq<char>),
    DatabaseUpdate(Seq<char>),
    DatabaseDelete(Seq<char>),
    DatabaseGet(Seq<char>),
    UrlQuery(Seq<char>),
    Authorized,
    BrokenUuid(Seq<char>),
    DatabaseNotFound(Seq<char>),
    AlreadyLent,
    AlreadyExists,
    TokioRuntime,
    Migrations,
    ConnectionPool,
    LoggingConfig,
    Serve,
}

impl View for QrError {
    type V = QrErrorView;

    open spec fn view(&self) -> QrErrorView {
        match self {
            QrError::Environment(s) => QrErrorView::Environment(s@),
            QrError::SearchEngineAddOrReplace(s) => QrErrorView::SearchEngineAddOrReplace(s@),
            QrError::SearchEngineDelete(s) => QrErrorView::SearchEngineDelete(s@),
            QrError::SearchEngineSearch(s) => QrErrorView::SearchEngineSearch(s@),
            QrError::DatabaseAdd(s) => QrErrorView::DatabaseAdd(s@),
            QrError::DatabaseUpdate(s) => QrErrorView::DatabaseUpdate(s@),
            QrError::DatabaseDelete(s) => QrErrorView::DatabaseDelete(s@),
            QrError::DatabaseGet(s) => QrErrorView::DatabaseGet(s@),
            QrError::UrlQuery(s) => QrErrorView::UrlQuery(s@),
            QrError::Authorized => QrErrorView::Authorized,
            QrError::BrokenUuid(s) => QrErrorView::BrokenUuid(s@),
            QrError::DatabaseNotFound(s) => QrErrorView::DatabaseNotFound(s@),
            QrError::AlreadyLent => QrErrorView::AlreadyLent,
            QrError::AlreadyExists => QrErrorView::AlreadyExists,
            QrError::TokioRuntime => QrErrorView::TokioRuntime,
            QrError::Migrations => QrErrorView::Migrations,
            QrError::ConnectionPool => QrErrorView::ConnectionPool,
            QrError::LoggingConfig => QrErrorView::LoggingConfig,
            QrError::Serve => QrErrorView::Serve,
        }
    }
}

/// The result of an operation of the service.
pub type Result<T> = std::result::Result<T, QrError>;

/// What a result shows: its value, or its failure by its view.
pub open spec fn shown<T>(res: Result<T>) -> std::result::Result<T, QrErrorView> {
    match res {
        Ok(t) => Ok(t),
        Err(e) => Err(e@),
    }
}

/// What a result shows: its value by its view, or its failure by its view.
pub open spec fn shown_view<T: View>(res: Result<T>) -> std::result::Result<T::V, QrErrorView> {
    match res {
        Ok(t) => Ok(t@),
        Err(e) => Err(e@),
    }
}

/// Which rule was broken, of two that forbid a second row.
#[derive(Debug, Clone, Copy, PartialEq, Eq, Structural)]
pub enum Conflict {
    /// The item is out and cannot be lent again.
    AlreadyLent,
    /// The key is taken.
    AlreadyExists,
}

/// The kinds of failure that an operation on the stores can end in.
#[derive(Debug, Clone, Copy, PartialEq, Eq, Structural)]
pub enum ErrorKind {
    /// Nothing is held under the key.
    NotFound,
    /// A rule forbids the row.
    Conflict(Conflict),
    /// The credential is bad, missing or expired, or its role is too low.
    Unauthorized,
    /// The registry failed.
    StoreError,
    /// The index failed. Where the registry took the change before, that
    /// change stands.
    IndexError,
    /// The secret or the lifetime of a role is not configured.
    ConfigMissing,
}

/// Glues `head`, `name` and `tail` together.
fn framed(head: &str, name: &String, tail: &str) -> (s: String)
    ensures
        s@ == head@ + name@ + tail@,
{
    head.to_owned().concat(name.as_str()).concat(tail)
}

impl QrErrorView {
    /// The kind of the failure, where it is one of an operation on the
    /// stores; `None` for a fault of the request's form or of the start of
    /// the service.
    pub open spec fn kind(self) -> Option<ErrorKind> {
        match self {
            QrErrorView::Environment(_) => Some(ErrorKind::ConfigMissing),
            QrErrorView::SearchEngineAddOrReplace(_) => Some(ErrorKind::IndexError),
            QrErrorView::SearchEngineDelete(_) => Some(ErrorKind::IndexError),
            QrErrorView::SearchEngineSearch(_) => Some(ErrorKind::IndexError),
            QrErrorView::DatabaseAdd(_) => Some(ErrorKind::StoreError),
            QrErrorView::DatabaseUpdate(_) => Some(ErrorKind::StoreError),
            QrErrorView::DatabaseDelete(_) => Some(ErrorKind::StoreError),
            QrErrorView::DatabaseGet(_) => Some(ErrorKind::StoreError),
            QrErrorView::UrlQuery(_) => None,
            QrErrorView::Authorized => Some(ErrorKind::Unauthorized),
            QrErrorView::BrokenUuid(_) => None,
            QrErrorView::DatabaseNotFound(_) => Some(ErrorKind::NotFound),
            QrErrorView::AlreadyLent => Some(ErrorKind::Conflict(Conflict::AlreadyLent)),
            QrErrorView::AlreadyExists => Some(ErrorKind::Conflict(Conflict::AlreadyExists)),
            QrErrorView::TokioRuntime => None,
            QrErrorView::Migrations => None,
            QrErrorView::ConnectionPool => None,
            QrErrorView::LoggingConfig => None,
            QrErrorView::Serve => None,
        }
    }

    /// The failure in words.
    pub open spec fn message(self) -> Seq<char> {
        match self {
            QrErrorView::Environment(s) => "Couldn't found "@ + s + " on environment"@,
            QrErrorView::SearchEngineAddOrReplace(s) => "Couldn't add/replace "@ + s
                + " to search engine"@,
            QrErrorView::SearchEngineDelete(s) => "Couldn't delete "@ + s + " from search engine"@,
            QrErrorView::SearchEngineSearch(s) => "Couldn't search "@ + s + " from search engine"@,
            QrErrorView::DatabaseAdd(s) => "Couldn't add "@ + s + " to database"@,
            QrErrorView::DatabaseUpdate(s) => "Couldn't update "@ + s + " to database"@,
            QrErrorView::DatabaseDelete(s) => "Couldn't delete "@ + s + " from database"@,
            QrErrorView::DatabaseGet(s) => "Couldn't get "@ + s + " from database"@,
            QrErrorView::UrlQuery(s) => "Couldn't found "@ + s + " query in the url"@,
            QrErrorView::Authorized => "Unauthorized"@,
            QrErrorView::BrokenUuid(s) => ""@ + s + " is broken UUID"@,
            QrErrorView::DatabaseNotFound(s) => "Couldn't find "@ + s + " from database"@,
            QrErrorView::AlreadyLent => "Already lent"@,
            QrErrorView::AlreadyExists => "Already exists"@,
            QrErrorView::TokioRuntime => "Failed to build the Tokio Runtime"@,
            QrErrorView::Migrations => "Failed to run migrations"@,
            QrErrorView::ConnectionPool => "Failed to connection pool"@,
            QrErrorView::LoggingConfig => "Failed to set logging confing"@,
            QrErrorView::Serve => "Failed to serve app"@,
        }
    }

    /// The label under which the failure is told to the caller.
    pub open spec fn label(self) -> Seq<char> {
        match self {
            QrErrorView::Environment(_) => "CouldNotFoundEnv"@,
            QrErrorView::SearchEngineAddOrReplace(_) => "SearchEngineAddOrReplace"@,
            QrErrorView::SearchEngineDelete(_) => "SearchEngineDelete"@,
            QrErrorView::SearchEngineSearch(_) => "SearchEngineSearch"@,
            QrErrorView::DatabaseAdd(_) => "DatabaseAdd"@,
            QrErrorView::DatabaseUpdate(_) => "DatabaseUpdate"@,
            QrErrorView::DatabaseDelete(_) => "DatabaseDelete"@,
            QrErrorView::DatabaseGet(_) => "DatabaseGet"@,
            QrErrorView::UrlQuery(_) => "UrlQuery"@,
            QrErrorView::Authorized => "Authorized"@,
            QrErrorView::BrokenUuid(_) => "BrokenUuid"@,
            QrErrorView::DatabaseNotFound(_) => "DatabaseNotFound"@,
            QrErrorView::AlreadyLent => "AlreadyLent"@,
            QrErrorView::AlreadyExists => "AlreadyExists"@,
            QrErrorView::TokioRuntime => "TokioRutime"@,
            QrErrorView::Migrations => "Migrations"@,
            QrErrorView::ConnectionPool => "ConnectionPool"@,
            QrErrorView::LoggingConfig => "LoggingConfing"@,
            QrErrorView::Serve => "Serve"@,
        }
    }

    /// The HTTP status under which the failure is told to the caller.
    pub open spec fn status(self) -> u16 {
        match self {
            QrErrorView::Environment(_) => 503,
            QrErrorView::UrlQuery(_) => 400,
            QrErrorView::Authorized => 401,
            QrErrorView::BrokenUuid(_) => 400,
            QrErrorView::DatabaseNotFound(_) => 400,
            QrErrorView::AlreadyLent => 409,
            QrErrorView::AlreadyExists => 409,
            _ => 500,
        }
    }
}

impl QrError {
    /// The kind of the failure, where it is one of an operation on the
    /// stores.
    pub fn kind(&self) -> (k: Option<ErrorKind>)
        ensures
            k == self@.kind(),
    {
        match self {
            QrError::Environment(_) => Some(ErrorKind::ConfigMissing),
            QrError::SearchEngineAddOrReplace(_) => Some(ErrorKind::IndexError),
            QrError::SearchEngineDelete(_) => Some(ErrorKind::IndexError),
            QrError::SearchEngineSearch(_) => Some(ErrorKind::IndexError),
            QrError::DatabaseAdd(_) => Some(ErrorKind::StoreError),
            QrError::DatabaseUpdate(_) => Some(ErrorKind::StoreError),
            QrError::DatabaseDelete(_) => Some(ErrorKind::StoreError),
            QrError::DatabaseGet(_) => Some(ErrorKind::StoreError),
            QrError::UrlQuery(_) => None,
            QrError::Authorized => Some(ErrorKind::Unauthorized),
            QrError::BrokenUuid(_) => None,
            QrError::DatabaseNotFound(_) => Some(ErrorKind::NotFound),
            QrError::AlreadyLent => Some(ErrorKind::Conflict(Conflict::AlreadyLent)),
            QrError::AlreadyExists => Some(ErrorKind::Conflict(Conflict::AlreadyExists)),
            QrError::TokioRuntime => None,
            QrError::Migrations => None,
            QrError::ConnectionPool => None,
            QrError::LoggingConfig => None,
            QrError::Serve => None,
        }
    }

    /// The failure in words.
    pub fn to_string(&self) -> (s: String)
        ensures
            s@ == self@.message(),
    {
        match self {
            QrError::Environment(s) => framed("Couldn't found ", s, " on environment"),
            QrError::SearchEngineAddOrReplace(s) => framed(
                "Couldn't add/replace ",
                s,
                " to search engine",
            ),
            QrError::SearchEngineDelete(s) => framed("Couldn't delete ", s, " from search engine"),
            QrError::SearchEngineSearch(s) => framed("Couldn't search ", s, " from search engine"),
            QrError::DatabaseAdd(s) => framed("Couldn't add ", s, " to database"),
            QrError::DatabaseUpdate(s) => framed("Couldn't update ", s, " to database"),
            QrError::DatabaseDelete(s) => framed("Couldn't delete ", s, " from database"),
            QrError::DatabaseGet(s) => framed("Couldn't get ", s, " from database"),
            QrError::UrlQuery(s) => framed("Couldn't found ", s, " query in the url"),
            QrError::Authorized => "Unauthorized".to_owned(),
            QrError::BrokenUuid(s) => framed("", s, " is broken UUID"),
            QrError::DatabaseNotFound(s) => framed("Couldn't find ", s, " from database"),
            QrError::AlreadyLent => "Already lent".to_owned(),
            QrError::AlreadyExists => "Already exists".to_owned(),
            QrError::TokioRuntime => "Failed to build the Tokio Runtime".to_owned(),
            QrError::Migrations => "Failed to run migrations".to_owned(),
            QrError::ConnectionPool => "Failed to connection pool".to_owned(),
            QrError::LoggingConfig => "Failed to set logging confing".to_owned(),
            QrError::Serve => "Failed to serve app".to_owned(),
        }
    }

    /// The label under which the failure is told to the caller.
    pub fn error_type(&self) -> (s: String)
        ensures
            s@ == self@.label(),
    {
        match self {
            QrError::Environment(_) => "CouldNotFoundEnv".to_owned(),
            QrError::SearchEngineAddOrReplace(_) => "SearchEngineAddOrReplace".to_owned(),
            QrError::SearchEngineDelete(_) => "SearchEngineDelete".to_owned(),
            QrError::SearchEngineSearch(_) => "SearchEngineSearch".to_owned(),
            QrError::DatabaseAdd(_) => "DatabaseAdd".to_owned(),
            QrError::DatabaseUpdate(_) => "DatabaseUpdate".to_owned(),
            QrError::DatabaseDelete(_) => "DatabaseDelete".to_owned(),
            QrError::DatabaseGet(_) => "DatabaseGet".to_owned(),
            QrError::UrlQuery(_) => "UrlQuery".to_owned(),
            QrError::Authorized => "Authorized".to_owned(),
            QrError::BrokenUuid(_) => "BrokenUuid".to_owned(),
            QrError::DatabaseNotFound(_) => "DatabaseNotFound".to_owned(),
            QrError::AlreadyLent => "AlreadyLent".to_owned(),
            QrError::AlreadyExists => "AlreadyExists".to_owned(),
            QrError::TokioRuntime => "TokioRutime".to_owned(),
            QrError::Migrations => "Migrations".to_owned(),
            QrError::ConnectionPool => "ConnectionPool".to_owned(),
            QrError::LoggingConfig => "LoggingConfing".to_owned(),
            QrError::Serve => "Serve".to_owned(),
        }
    }

    /// The HTTP status under which the failure is told to the caller.
    pub fn status_code(&self) -> (code: u16)
        ensures
            code == self@.status(),
    {
        match self {
            QrError::Environment(_) => 503,
            QrError::UrlQuery(_) => 400,
            QrError::Authorized => 401,
            QrError::BrokenUuid(_) => 400,
            QrError::DatabaseNotFound(_) => 400,
            QrError::AlreadyLent => 409,
            QrError::AlreadyExists => 409,
            _ => 500,
        }
    }
}

/// What a change of the row under the key `key` answers that touched
/// `changed` rows: a change that touched none found nothing.
pub open spec fn touched_result(changed: u64, key: Seq<char>) -> std::result::Result<
    (),
    QrErrorView,
> {
    if changed == 0 {
        Err(QrErrorView::DatabaseNotFound(key))
    } else {
        Ok(())
    }
}

/// Tells whether a change of the row under the key `key` found its row,
/// by the number of rows that it touched.
pub fn touched(changed: u64, key: String) -> (res: Result<()>)
    ensures
        shown(res) == touched_result(changed, key@),
{
    if changed == 0 {
        Err(QrError::DatabaseNotFound(key))
    } else {
        Ok(())
    }
}

/// What the caller of the service is told: the value on success, the label
/// and the words of the failure otherwise. `ok` is set either way; it is
/// `error_type` that tells a failure.
#[derive(Debug, Clone, PartialEq, Eq)]
pub struct Msg<T> {
    pub ok: bool,
    pub data: Option<T>,
    pub error_type: Option<String>,
    pub error_message: Option<String>,
}

/// An HTTP status and the message that goes with it.
pub type ReturnData<T> = (u16, Msg<T>);

/// Tells a result to the caller: status 200 and the value on success, the
/// failure's status, label and words otherwise.
pub fn result_to_handler<T>(res: Result<T>) -> (told: ReturnData<T>)
    ensures
        told.1.ok,
        match res {
            Ok(t) => {
                &&& told.0 == 200
                &&& told.1.data == Some(t)
                &&& told.1.error_type is None
                &&& told.1.error_message is None
            },
            Err(e) => {
                &&& told.0 == e@.status()
                &&& told.1.data is None
                &&& told.1.error_type matches Some(label) && label@ == e@.label()
                &&& told.1.error_message matches Some(words) && words@ == e@.message()
            },
        },
{
    match res {
        Ok(t) => (200, Msg { ok: true, data: Some(t), error_type: None, error_message: None }),
        Err(e) => (
            e.status_code(),
            Msg {
                ok: true,
                data: None,
                error_type: Some(e.error_type()),
                error_message: Some(e.to_string()),
            },
        ),
    }
}

} // verus!
