//! Identifiers of entities: 128-bit UUIDs carried as plain integers.
//!
//! The core holds an identifier as its 128-bit value. Reading one from its
//! textual form, and writing it back, is done by the `uuid` crate behind
//! trusted wrappers.

use vstd::prelude::*;

verus! {

/// The identifier value a textual UUID denotes, if the text is one of the
/// formats `uuid::Uuid::parse_str` accepts; the 128 bits are in big-endian
/// order, as `uuid::Uuid::as_u128` reads them.
pub uninterp spec fn uuid_of(s: Seq<char>) -> Option<u128>;

/// The canonical hyphenated, lower-case text of an identifier, as
/// `uuid::Uuid::hyphenated` writes it.
pub uninterp spec fn uuid_str_of(n: u128) -> Seq<char>;

/// Relies on `uuid::Uuid::parse_str` and `uuid::Uuid::as_u128`: the text
/// denotes an identifier or parsing fails, on the text alone.
#[verifier::external_body]
pub fn parse_uuid(s: &str) -> (r: Option<u128>)
    ensures
        r == uuid_of(s@),
{
    match uuid::Uuid::parse_str(s) {
        Ok(u) => Some(u.as_u128()),
        Err(_) => None,
    }
}

/// Relies on `uuid::Uuid::from_u128` and the `Hyphenated` display: every
/// identifier has one canonical 36-character text.
#[verifier::external_body]
pub fn uuid_string(n: u128) -> (r: String)
    ensures
        r@ == uuid_str_of(n),
        r@.len() == 36,
{
    uuid::Uuid::from_u128(n).hyphenated().to_string()
}

} // verus!
