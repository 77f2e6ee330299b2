//! Owner and item identifiers.
//!
//! Identifiers travel through this crate as text. Whether a text is a
//! syntactically valid identifier is decided by the `uuid` crate, and the
//! server-assigned item identifier is a freshly generated time-ordered
//! identifier from the same crate.

use vstd::prelude::*;

verus! {

/// Whether `uuid::Uuid::parse_str` accepts this text. The result depends
/// on the characters alone.
pub uninterp spec fn is_uuid_text(s: Seq<char>) -> bool;

/// Relies on uuid::Uuid::parse_str: it accepts a string of hexadecimal
/// digits with optional hyphens, deciding by the characters alone.
#[verifier::external_body]
fn parse_ok(s: &str) -> (r: bool)
    ensures
        r == is_uuid_text(s@),
{
    uuid::Uuid::parse_str(s).is_ok()
}

/// Relies on uuid::Uuid::now_v7 and its hyphenated rendering: a fresh
/// version-7 identifier, 36 characters long, in one of the formats that
/// uuid::Uuid::parse_str accepts back.
#[verifier::external_body]
pub(crate) fn generate_item_id() -> (r: String)
    ensures
        is_uuid_text(r@),
        r@.len() == 36,
{
    uuid::Uuid::now_v7().to_string()
}

/// Whether the given text is a syntactically valid identifier.
pub fn is_valid_identifier(s: &String) -> (r: bool)
    ensures
        r == is_uuid_text(s@),
{
    parse_ok(s.as_str())
}

} // verus!
