//! The items of the `uuid` crate that this library builds on, each with the
//! contract that the rest of the crate takes on trust. Nothing in this file is
//! proved: every contract restates what the `uuid` crate documents or what its
//! source shows.

use std::cmp::Ordering;
use std::str::FromStr;
use vstd::prelude::*;

use crate::order::octets_order;
use crate::text::hyphenated_text;
use crate::text::is_any_form;
use crate::text::spelled_octets;
use uuid::ParseError;
use uuid::Uuid;

verus! {

/// `uuid::Uuid`, carried through as an opaque value.
#[verifier::external_type_specification]
#[verifier::external_body]
pub struct ExUuid(Uuid);

/// `uuid::ParseError`, carried through as an opaque value.
#[verifier::external_type_specification]
#[verifier::external_body]
pub struct ExParseError(ParseError);

/// The sixteen octets that a `Uuid` holds, first octet first: what
/// `Uuid::as_bytes` shows of it.
pub uninterp spec fn uuid_bytes(id: Uuid) -> Seq<u8>;

/// The error with which `Uuid`'s `FromStr::from_str` turns down a text that
/// denotes no UUID.
pub uninterp spec fn parse_failure(text: Seq<char>) -> ParseError;

/// The error `ParseError::InvalidLength` with the length `len`.
pub uninterp spec fn length_failure(len: usize) -> ParseError;

/// `Uuid`'s `FromStr::from_str`, which is `Uuid::parse_str`. It accepts the
/// simple, the hyphenated and the URN form, with digits of either case, and
/// nothing else; the identifier it returns holds the octets that the digits
/// spell, two digits to the octet. What it returns for any other text is a
/// `ParseError` that depends on the text alone; for a text whose length in
/// bytes is none of 32, 36 and 45 it is `InvalidLength` with that length.
#[verifier::external_body]
pub(crate) fn parse_uuid(text: &str) -> (parsed: Result<Uuid, ParseError>)
    ensures
        parsed is Ok <==> is_any_form(text@),
        parsed matches Ok(id) ==> uuid_bytes(id) == spelled_octets(text@),
        parsed matches Err(e) ==> e == parse_failure(text@),
        parsed matches Err(e) ==> (text.len() != 32 && text.len() != 36 && text.len() != 45
            ==> e == length_failure(text.len())),
{
    Uuid::from_str(text)
}

/// The variant `ParseError::InvalidLength`, which holds the length it is
/// given and nothing else.
#[verifier::external_body]
pub(crate) fn invalid_length(len: usize) -> (e: ParseError)
    ensures
        e == length_failure(len),
{
    ParseError::InvalidLength(len)
}

/// `Uuid`'s `Display`, through `to_string`: the octets as lower-case
/// hexadecimal digits in the hyphenated form.
#[verifier::external_body]
pub(crate) fn uuid_to_string(id: &Uuid) -> (text: String)
    ensures
        text@ == hyphenated_text(uuid_bytes(*id)),
{
    id.to_string()
}

/// `Uuid`'s `==`: two identifiers are equal when their octets are.
#[verifier::external_body]
pub(crate) fn uuid_eq(a: &Uuid, b: &Uuid) -> (same: bool)
    ensures
        same == (uuid_bytes(*a) == uuid_bytes(*b)),
{
    a == b
}

/// `Uuid`'s `Ord::cmp`: identifiers are ordered as their octets are, the
/// first octet that differs deciding.
#[verifier::external_body]
pub(crate) fn uuid_order(a: &Uuid, b: &Uuid) -> (o: Ordering)
    ensures
        o == octets_order(uuid_bytes(*a), uuid_bytes(*b)),
{
    a.cmp(b)
}

} // verus!
