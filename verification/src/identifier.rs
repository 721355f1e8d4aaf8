//! Identifiers of books and users.
//!
//! An identifier is a UUID. The library holds it as the `u128` whose
//! big-endian bytes are the UUID's sixteen bytes; that is the number
//! `uuid::Uuid::as_u128` gives and `uuid::Uuid::from_u128` takes.

use crate::errors::{MyError, MyErrorView};
use vstd::prelude::*;

verus! {

/// What `uuid::Uuid::parse_str` makes of `text`: the UUID it reads, as a
/// `u128`, or `None` where it reports an error. The parser reads 32
/// hexadecimal digits, written together or in hyphenated groups of 8, 4, 4, 4
/// and 12, the groups also in braces or after `urn:uuid:`.
pub uninterp spec fn uuid_parse(text: Seq<char>) -> Option<u128>;

/// Calls `uuid::Uuid::parse_str` and takes the UUID's 128 bits with
/// `uuid::Uuid::as_u128`. The contract only gives the result its name,
/// [`uuid_parse`]; which texts are well-formed is the `uuid` crate's rule and
/// is not restated here.
#[verifier::external_body]
pub(crate) fn parse_uuid(text: &str) -> (parsed: Option<u128>)
    ensures
        parsed == uuid_parse(text@),
{
    match uuid::Uuid::parse_str(text) {
        Ok(id) => Some(id.as_u128()),
        Err(_) => None,
    }
}

/// The identifier that a path segment stands for, given what the UUID parser
/// made of it: the parsed UUID, or `InvalidUuid` with the segment's text.
pub open spec fn spec_identifier(text: Seq<char>, parsed: Option<u128>) -> Result<
    u128,
    MyErrorView,
> {
    match parsed {
        Some(id) => Ok(id),
        None => Err(MyErrorView::InvalidUuid(text)),
    }
}

/// Model of a `Result<u128, MyError>`.
pub open spec fn identifier_view(result: Result<u128, MyError>) -> Result<u128, MyErrorView> {
    match result {
        Ok(id) => Ok(id),
        Err(e) => Err(e@),
    }
}

/// Turns the parser's verdict on `text` into an identifier or the
/// `InvalidUuid` error that carries `text`.
pub fn identifier(text: &str, parsed: Option<u128>) -> (result: Result<u128, MyError>)
    ensures
        identifier_view(result) == spec_identifier(text@, parsed),
{
    match parsed {
        Some(id) => Ok(id),
        None => Err(MyError::InvalidUuid(text.to_owned())),
    }
}

} // verus!
