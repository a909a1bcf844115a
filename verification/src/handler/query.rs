//! From the parameters of a request to the key that they name.
//!
//! A request names what it is about by one of several parameters. Where it
//! gives more than one, the first in the order of the function's
//! parameters counts. An identifier is given as text and must be readable
//! as one.

use crate::database::fixtures;
use crate::database::lending;
use crate::error_handling::{shown, shown_view, QrError, QrErrorView, Result};
use crate::identifier::{id_of_reading, parse_id, uuid_read};
use vstd::prelude::*;

verus! {

/// The text of an optional parameter.
pub open spec fn given(parameter: Option<&str>) -> Option<Seq<char>> {
    match parameter {
        Some(s) => Some(s@),
        None => None,
    }
}

/// The identifier that the text `s` spells, or the error that names the
/// text.
pub open spec fn id_of(s: Seq<char>) -> std::result::Result<u128, QrErrorView> {
    id_of_reading(uuid_read(s), s)
}

/// The key of an item that the parameters `id` and `qr_id` name.
pub open spec fn fixtures_key_of(
    id: Option<Seq<char>>,
    qr_id: Option<Seq<char>>,
) -> std::result::Result<fixtures::IdTypeView, QrErrorView> {
    match (id, qr_id) {
        (Some(s), _) => match id_of(s) {
            Ok(id) => Ok(fixtures::IdTypeView::FixturesId(id)),
            Err(e) => Err(e),
        },
        (None, Some(qr)) => Ok(fixtures::IdTypeView::QrId(qr)),
        (None, None) => Err(QrErrorView::UrlQuery("qr_id, id"@)),
    }
}

/// The key of an item that the parameters `id` and `qr_id` name.
pub fn fixtures_key(id: Option<&str>, qr_id: Option<&str>) -> (res: Result<fixtures::IdType>)
    ensures
        shown_view(res) == fixtures_key_of(given(id), given(qr_id)),
{
    match (id, qr_id) {
        (Some(s), _) => match parse_id(s) {
            Ok(id) => Ok(fixtures::IdType::FixturesId(id)),
            Err(e) => Err(e),
        },
        (None, Some(qr)) => Ok(fixtures::IdType::QrId(qr.to_owned())),
        (None, None) => Err(QrError::UrlQuery("qr_id, id".to_owned())),
    }
}

/// The identifier that the one parameter `id` names.
pub open spec fn id_parameter_of(id: Option<Seq<char>>) -> std::result::Result<u128, QrErrorView> {
    match id {
        Some(s) => id_of(s),
        None => Err(QrErrorView::UrlQuery("id"@)),
    }
}

/// The identifier that the one parameter `id` names.
pub fn id_parameter(id: Option<&str>) -> (res: Result<u128>)
    ensures
        shown(res) == id_parameter_of(given(id)),
{
    match id {
        Some(s) => parse_id(s),
        None => Err(QrError::UrlQuery("id".to_owned())),
    }
}

/// The name that the one parameter `name` gives.
pub open spec fn name_parameter_of(name: Option<Seq<char>>) -> std::result::Result<
    Seq<char>,
    QrErrorView,
> {
    match name {
        Some(s) => Ok(s),
        None => Err(QrErrorView::UrlQuery("name"@)),
    }
}

/// The name that the one parameter `name` gives.
pub fn name_parameter<'a>(name: Option<&'a str>) -> (res: Result<&'a str>)
    ensures
        match res {
            Ok(s) => name_parameter_of(given(name)) == Ok::<Seq<char>, QrErrorView>(s@),
            Err(e) => name_parameter_of(given(name)) == Err::<Seq<char>, QrErrorView>(e@),
        },
{
    match name {
        Some(s) => Ok(s),
        None => Err(QrError::UrlQuery("name".to_owned())),
    }
}

/// The key of a lending that the parameters `lending_id`, `fixtures_id`
/// and `fixtures_qr_id` name.
pub open spec fn lending_key_of(
    lending_id: Option<Seq<char>>,
    fixtures_id: Option<Seq<char>>,
    fixtures_qr_id: Option<Seq<char>>,
) -> std::result::Result<lending::IdTypeView, QrErrorView> {
    match (lending_id, fixtures_id, fixtures_qr_id) {
        (Some(s), _, _) => match id_of(s) {
            Ok(id) => Ok(lending::IdTypeView::LendingId(id)),
            Err(e) => Err(e),
        },
        (None, Some(s), _) => match id_of(s) {
            Ok(id) => Ok(lending::IdTypeView::FixturesId(id)),
            Err(e) => Err(e),
        },
        (None, None, Some(qr)) => Ok(lending::IdTypeView::QrId(qr)),
        (None, None, None) => Err(
            QrErrorView::UrlQuery("lending_id, fixtures_id, fixtures_qr_id"@),
        ),
    }
}

/// The key of a lending that the parameters `lending_id`, `fixtures_id`
/// and `fixtures_qr_id` name.
pub fn lending_key(
    lending_id: Option<&str>,
    fixtures_id: Option<&str>,
    fixtures_qr_id: Option<&str>,
) -> (res: Result<lending::IdType>)
    ensures
        shown_view(res) == lending_key_of(given(lending_id), given(fixtures_id), given(fixtures_qr_id)),
{
    match (lending_id, fixtures_id, fixtures_qr_id) {
        (Some(s), _, _) => match parse_id(s) {
            Ok(id) => Ok(lending::IdType::LendingId(id)),
            Err(e) => Err(e),
        },
        (None, Some(s), _) => match parse_id(s) {
            Ok(id) => Ok(lending::IdType::FixturesId(id)),
            Err(e) => Err(e),
        },
        (None, None, Some(qr)) => Ok(lending::IdType::QrId(qr.to_owned())),
        (None, None, None) => Err(
            QrError::UrlQuery("lending_id, fixtures_id, fixtures_qr_id".to_owned()),
        ),
    }
}

/// The key of a return that the parameters `lending_id`, `id` and `qr_id`
/// name: the lending itself, the item, or the QR code that the item
/// carries.
pub open spec fn return_key_of(
    lending_id: Option<Seq<char>>,
    id: Option<Seq<char>>,
    qr_id: Option<Seq<char>>,
) -> std::result::Result<lending::IdTypeView, QrErrorView> {
    match (lending_id, id, qr_id) {
        (Some(s), _, _) => match id_of(s) {
            Ok(id) => Ok(lending::IdTypeView::LendingId(id)),
            Err(e) => Err(e),
        },
        (None, Some(s), _) => match id_of(s) {
            Ok(id) => Ok(lending::IdTypeView::FixturesId(id)),
            Err(e) => Err(e),
        },
        (None, None, Some(qr)) => Ok(lending::IdTypeView::QrId(qr)),
        (None, None, None) => Err(QrErrorView::UrlQuery("qr_id, id"@)),
    }
}

/// The key of a return that the parameters `lending_id`, `id` and `qr_id`
/// name.
pub fn return_key(lending_id: Option<&str>, id: Option<&str>, qr_id: Option<&str>) -> (res: Result<
    lending::IdType,
>)
    ensures
        shown_view(res) == return_key_of(given(lending_id), given(id), given(qr_id)),
{
    match (lending_id, id, qr_id) {
        (Some(s), _, _) => match parse_id(s) {
            Ok(id) => Ok(lending::IdType::LendingId(id)),
            Err(e) => Err(e),
        },
        (None, Some(s), _) => match parse_id(s) {
            Ok(id) => Ok(lending::IdType::FixturesId(id)),
            Err(e) => Err(e),
        },
        (None, None, Some(qr)) => Ok(lending::IdType::QrId(qr.to_owned())),
        (None, None, None) => Err(QrError::UrlQuery("qr_id, id".to_owned())),
    }
}

} // verus!
