//! Identifiers as numbers and as text.
//!
//! An identifier is a UUID. The crate holds it as the 128-bit number that
//! its sixteen bytes spell, first byte first, and turns to the `uuid` crate
//! to write it, to read it and to make a new one.

use crate::error_handling::{shown, QrError, QrErrorView, Result};
use vstd::prelude::*;

verus! {

/// The sixteen hexadecimal digits, in lower case.
pub open spec fn hex_digits() -> Seq<char> {
    seq!['0', '1', '2', '3', '4', '5', '6', '7', '8', '9', 'a', 'b', 'c', 'd', 'e', 'f']
}

/// The value of the `k`-th of the 32 hexadecimal digits of `id`, the
/// highest first.
pub open spec fn digit_value(id: u128, k: int) -> int {
    ((id as int) / pow16(31 - k)) % 16
}

/// The `k`-th of the 32 hexadecimal digits of `id`, the highest first.
pub open spec fn digit(id: u128, k: int) -> char {
    hex_digits()[digit_value(id, k)]
}

/// Whether `id` is marked as a random identifier: its thirteenth digit,
/// the version, is 4, and its seventeenth, which holds the variant, is one
/// of 8, 9, a and b.
pub open spec fn is_random_id(id: u128) -> bool {
    digit_value(id, 12) == 4 && 8 <= digit_value(id, 16) <= 11
}

/// Sixteen to the power of `n`.
pub open spec fn pow16(n: int) -> int
    decreases n,
{
    if n <= 0 {
        1
    } else {
        16 * pow16(n - 1)
    }
}

/// The text of an identifier: its 32 digits in groups of 8, 4, 4, 4 and 12,
/// with a hyphen between the groups.
pub open spec fn hyphenated(id: u128) -> Seq<char> {
    Seq::new(
        36,
        |i: int|
            if i == 8 || i == 13 || i == 18 || i == 23 {
                '-'
            } else if i < 8 {
                digit(id, i)
            } else if i < 13 {
                digit(id, i - 1)
            } else if i < 18 {
                digit(id, i - 2)
            } else if i < 23 {
                digit(id, i - 3)
            } else {
                digit(id, i - 4)
            },
    )
}

/// The identifier that the `uuid` crate reads from a text, or `None` where
/// it reads none.
pub uninterp spec fn uuid_read(s: Seq<char>) -> Option<u128>;

/// `Uuid`'s `Display`, on the UUID of the number `id`: the hyphenated form
/// in lower case, which `hyphenated` spells out.
#[verifier::external_body]
fn uuid_text(id: u128) -> (s: String)
    ensures
        s@ == hyphenated(id),
{
    uuid::Uuid::from_u128(id).to_string()
}

/// `Uuid::parse_str`: what it reads from `s`, as a number, is a function of
/// the text alone. It takes several forms of one identifier, so that the
/// result has a name and no formula.
#[verifier::external_body]
fn uuid_parse(s: &str) -> (id: Option<u128>)
    ensures
        id == uuid_read(s@),
{
    uuid::Uuid::parse_str(s).ok().map(|u| u.as_u128())
}

/// `Uuid::new_v4`: a random identifier, as a number. Which one comes is
/// left open; whichever comes bears the marks of version 4 and of the
/// variant of RFC 9562, which `new_v4` sets on the random number.
#[verifier::external_body]
fn uuid_new_v4() -> (id: u128)
    ensures
        is_random_id(id),
{
    uuid::Uuid::new_v4().as_u128()
}

/// Writes an identifier as text.
pub fn id_text(id: u128) -> (s: String)
    ensures
        s@ == hyphenated(id),
{
    uuid_text(id)
}

/// Reads an identifier from a text, or says that the text is broken.
pub fn parse_id(s: &str) -> (res: Result<u128>)
    ensures
        shown(res) == id_of_reading(uuid_read(s@), s@),
{
    id_from_reading(uuid_parse(s), s)
}

/// What `parse_id` answers on the text `s`, given what was read from it.
pub open spec fn id_of_reading(read: Option<u128>, s: Seq<char>) -> std::result::Result<
    u128,
    QrErrorView,
> {
    match read {
        Some(id) => Ok(id),
        None => Err(QrErrorView::BrokenUuid(s)),
    }
}

/// Takes what was read from the text `s`: the identifier, or the error
/// that names the text.
pub fn id_from_reading(read: Option<u128>, s: &str) -> (res: Result<u128>)
    ensures
        shown(res) == id_of_reading(read, s@),
{
    match read {
        Some(id) => Ok(id),
        None => Err(QrError::BrokenUuid(s.to_owned())),
    }
}

/// A new random identifier, marked as one.
pub fn new_id() -> (id: u128)
    ensures
        is_random_id(id),
{
    uuid_new_v4()
}

} // verus!
