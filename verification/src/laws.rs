//! What holds between the operations of the wrapper, stated once and proved
//! from their contracts.

use std::cmp::Ordering;
use vstd::prelude::*;
use vstd::std_specs::cmp::PartialEqSpec;
use vstd::std_specs::cmp::PartialOrdSpec;

use crate::order::lemma_order_equal;
use crate::order::lemma_order_reversed;
use crate::order::lemma_order_transitive;
use crate::order::octets_order;
use crate::order::reversed;
use crate::trusted::length_failure;
use crate::trusted::uuid_bytes;
use crate::param::parses_as;
use crate::param::URN_LENGTH;
use crate::param::UUID;
use crate::text::hyphenated_text;
use crate::text::is_any_form;
use crate::text::is_hyphenated;
use crate::text::is_urn;
use crate::text::is_uuid_text;
use crate::text::lemma_spell_written;
use crate::text::lemma_write_spelled;
use crate::text::lowercase;
use crate::text::spelled_octets;
use uuid::ParseError;
use uuid::Uuid;

verus! {

/// Whether `id` is what the `uuid` crate itself parses `text` into.
pub open spec fn is_plain_parse(text: Seq<char>, id: Uuid) -> bool {
    is_any_form(text) && uuid_bytes(id) == spelled_octets(text)
}

/// Every wrapper that parsing gives has sixteen octets.
pub proof fn lemma_parsed_is_well_formed(text: Seq<char>, parsed: UUID)
    requires
        parses_as(text, Ok(parsed)),
    ensures
        parsed.wf(),
{
}

/// Parsing a text in the hyphenated form and writing the result out gives the
/// text back, in lower case and with its hyphens where they were.
pub proof fn lemma_parse_then_write(text: Seq<char>, parsed: UUID)
    requires
        is_hyphenated(text),
        parses_as(text, Ok(parsed)),
    ensures
        hyphenated_text(parsed@) == lowercase(text),
{
    lemma_write_spelled(text);
}

/// Writing a wrapper out and parsing the text succeeds, and gives a wrapper
/// equal to the first.
pub proof fn lemma_write_then_parse(id: UUID, outcome: Result<UUID, ParseError>)
    requires
        id.wf(),
        parses_as(hyphenated_text(id@), outcome),
    ensures
        outcome is Ok,
        outcome->Ok_0.eq_spec(&id),
{
    lemma_spell_written(id@);
}

/// Every text that denotes a UUID parses, and every other text is turned down:
/// no text has two outcomes.
pub proof fn lemma_one_outcome(
    text: Seq<char>,
    first: Result<UUID, ParseError>,
    second: Result<UUID, ParseError>,
)
    requires
        parses_as(text, first),
        parses_as(text, second),
    ensures
        first is Ok <==> is_uuid_text(text),
        first is Ok <==> second is Ok,
        first is Ok ==> first->Ok_0.eq_spec(&second->Ok_0),
        first is Err ==> first->Err_0 == second->Err_0,
{
}

/// A text in the URN form is turned down, with the error for its length.
pub proof fn lemma_urn_is_turned_down(text: Seq<char>, outcome: Result<UUID, ParseError>)
    requires
        is_urn(text),
        parses_as(text, outcome),
    ensures
        outcome == Err::<UUID, ParseError>(length_failure(URN_LENGTH)),
{
}

/// A parsed wrapper equals the identifier that the `uuid` crate itself parses
/// the same text into.
pub proof fn lemma_equals_plain_parse(text: Seq<char>, parsed: UUID, plain: Uuid)
    requires
        parses_as(text, Ok(parsed)),
        is_plain_parse(text, plain),
    ensures
        parsed.eq_spec(&plain),
{
}

/// Unwrapping a parsed wrapper gives an identifier with the octets of the one
/// that the `uuid` crate itself parses the same text into.
pub proof fn lemma_inner_is_plain_parse(text: Seq<char>, parsed: UUID, plain: Uuid)
    requires
        parses_as(text, Ok(parsed)),
        is_plain_parse(text, plain),
    ensures
        is_plain_parse(text, parsed.inner()),
        uuid_bytes(parsed.inner()) == uuid_bytes(plain),
{
}

/// Two parsed wrappers stand to each other as the identifiers do that the
/// `uuid` crate itself parses the same two texts into.
pub proof fn lemma_ordered_as_plain_parses(
    text_a: Seq<char>,
    text_b: Seq<char>,
    parsed_a: UUID,
    parsed_b: UUID,
    plain_a: Uuid,
    plain_b: Uuid,
)
    requires
        parses_as(text_a, Ok(parsed_a)),
        parses_as(text_b, Ok(parsed_b)),
        is_plain_parse(text_a, plain_a),
        is_plain_parse(text_b, plain_b),
    ensures
        parsed_a.partial_cmp_spec(&parsed_b) == Some(
            octets_order(uuid_bytes(plain_a), uuid_bytes(plain_b)),
        ),
{
}

/// The order of wrappers is total and agrees with their equality: any two
/// wrappers are ordered, they stand as equal exactly when they are equal, and
/// swapping them reverses the order.
pub proof fn lemma_order_total(a: UUID, b: UUID)
    ensures
        a.partial_cmp_spec(&b) is Some,
        a.partial_cmp_spec(&b) == Some(Ordering::Equal) <==> a.eq_spec(&b),
        b.partial_cmp_spec(&a) == Some(reversed(a.partial_cmp_spec(&b)->Some_0)),
{
    lemma_order_equal(a@, b@);
    lemma_order_reversed(a@, b@);
}

/// The order of wrappers is transitive.
pub proof fn lemma_order_chain(a: UUID, b: UUID, c: UUID)
    requires
        a.partial_cmp_spec(&b) != Some(Ordering::Greater),
        b.partial_cmp_spec(&c) != Some(Ordering::Greater),
    ensures
        a.partial_cmp_spec(&c) != Some(Ordering::Greater),
{
    lemma_order_transitive(a@, b@, c@);
}

} // verus!
