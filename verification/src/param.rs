//! The wrapper itself: a `uuid::Uuid` that a request handler takes as a
//! dynamic path segment or as a form value.

use std::cmp::Ordering;
use std::ops::Deref;
use std::str::FromStr;
use vstd::prelude::*;
use vstd::std_specs::cmp::PartialEqSpecImpl;
use vstd::std_specs::cmp::PartialOrdSpecImpl;

use crate::order::octets_order;
use crate::trusted::invalid_length;
use crate::trusted::length_failure;
use crate::trusted::parse_failure;
use crate::trusted::parse_uuid;
use crate::trusted::uuid_bytes;
use crate::trusted::uuid_eq;
use crate::trusted::uuid_order;
use crate::trusted::uuid_to_string;
use crate::text::byte_length;
use crate::text::hyphenated_text;
use crate::text::is_any_form;
use crate::text::is_hyphenated;
use crate::text::is_urn;
use crate::text::is_uuid_text;
use crate::text::lemma_forms_are_ascii;
use crate::text::lemma_spell_written;
use crate::text::spelled_octets;
use uuid::ParseError;
use uuid::Uuid;

verus! {

/// A UUID taken from a request. A value of this type only ever comes out of
/// parsing a text that denotes a UUID, and never changes afterwards.
///
/// Its view is the sequence of the sixteen octets of the identifier. Two
/// wrappers are equal when their octets are, a wrapper equals a bare
/// `uuid::Uuid` with the same octets, and wrappers are ordered as the
/// identifiers inside them.
#[derive(Clone, Copy, Debug, Eq, Ord)]
pub struct UUID(Uuid);

impl View for UUID {
    type V = Seq<u8>;

    open spec fn view(&self) -> Seq<u8> {
        uuid_bytes(self.inner())
    }
}

/// The length in bytes of a text in the URN form.
pub const URN_LENGTH: usize = 45;

/// The error for a text that denotes no UUID. A text in the URN form, and a
/// text whose length in bytes is none of 32, 36 and 45, gets the `uuid` crate's
/// `InvalidLength` with its length; every other text gets the error that the
/// `uuid` crate's parser gives for it.
pub open spec fn failure_of(text: Seq<char>) -> ParseError {
    if is_urn(text) {
        length_failure(URN_LENGTH)
    } else if byte_length(text) != 32 && byte_length(text) != 36 && byte_length(text)
        != URN_LENGTH {
        length_failure(byte_length(text))
    } else {
        parse_failure(text)
    }
}

/// What parsing `text` comes to: a wrapper around the octets that the text
/// spells where it denotes a UUID, and the error for it where it does not.
pub open spec fn parses_as(text: Seq<char>, outcome: Result<UUID, ParseError>) -> bool {
    match outcome {
        Ok(id) => is_uuid_text(text) && id@ == spelled_octets(text),
        Err(e) => !is_uuid_text(text) && e == failure_of(text),
    }
}

impl UUID {
    /// The identifier inside the wrapper.
    pub closed spec fn inner(&self) -> Uuid {
        self.0
    }

    /// What holds of every wrapper that a program can hold: it has sixteen
    /// octets.
    pub open spec fn wf(&self) -> bool {
        self@.len() == 16
    }

    #[verifier::type_invariant]
    spec fn well_formed(&self) -> bool {
        self.wf()
    }

    /// Consumes the wrapper and hands out the identifier inside it, which has
    /// sixteen octets.
    pub fn into_inner(self) -> (id: Uuid)
        ensures
            id == self.inner(),
            self.wf(),
    {
        proof {
            use_type_invariant(&self);
        }
        self.0
    }

    /// Parses a path segment, with the outcome that `from_str` has on the text
    /// of the segment: the wrapper where the segment denotes a UUID, and else
    /// the error for it, which is one of the `uuid` crate's own.
    pub fn from_param(param: &str) -> (outcome: Result<UUID, ParseError>)
        ensures
            parses_as(param@, outcome),
    {
        UUID::from_str(param)
    }

    /// Parses a form value. Succeeds exactly where `from_str` does on the text
    /// of the value; where it does not, the error is the value itself, as it
    /// came in, and nothing of the parser's diagnosis.
    pub fn from_form_value(form_value: &str) -> (outcome: Result<UUID, &str>)
        ensures
            match outcome {
                Ok(id) => is_uuid_text(form_value@) && id@ == spelled_octets(form_value@),
                Err(raw) => !is_uuid_text(form_value@) && raw == form_value,
            },
    {
        match UUID::from_str(form_value) {
            Ok(id) => Ok(id),
            Err(_) => Err(form_value),
        }
    }

    /// The canonical text of the identifier: lower-case digits in the
    /// hyphenated form. Parsing that text gives the same identifier back.
    pub fn to_string(&self) -> (text: String)
        ensures
            text@ == hyphenated_text(self@),
            is_hyphenated(text@),
            spelled_octets(text@) == self@,
    {
        proof {
            use_type_invariant(self);
            lemma_spell_written(self@);
        }
        uuid_to_string(&self.0)
    }
}

impl FromStr for UUID {
    type Err = ParseError;

    /// Parses a text into a wrapper. Succeeds exactly on the texts that denote
    /// a UUID: thirty-two hexadecimal digits, bare or hyphenated. A text in the
    /// URN form is turned down as any other text of its length is; on every
    /// other text the error is the one that the `uuid` crate gives for it,
    /// handed on as it is.
    fn from_str(s: &str) -> (outcome: Result<UUID, ParseError>)
        ensures
            parses_as(s@, outcome),
    {
        let parsed = parse_uuid(s);
        proof {
            if is_any_form(s@) {
                lemma_forms_are_ascii(s@);
            }
        }
        match parsed {
            Ok(id) => {
                if s.len() == URN_LENGTH {
                    Err(invalid_length(URN_LENGTH))
                } else {
                    Ok(UUID(id))
                }
            },
            Err(e) => Err(e),
        }
    }
}

impl Deref for UUID {
    type Target = Uuid;

    /// The identifier inside the wrapper, for reading; it has sixteen octets.
    fn deref(&self) -> (id: &Uuid)
        ensures
            *id == self.inner(),
            self.wf(),
    {
        proof {
            use_type_invariant(self);
        }
        &self.0
    }
}

impl PartialEq for UUID {
    /// Whether both wrappers hold the same sixteen octets.
    fn eq(&self, other: &UUID) -> (same: bool) {
        uuid_eq(&self.0, &other.0)
    }
}

impl PartialEqSpecImpl for UUID {
    open spec fn obeys_eq_spec() -> bool {
        true
    }

    open spec fn eq_spec(&self, other: &UUID) -> bool {
        self@ == other@
    }
}

impl PartialEq<Uuid> for UUID {
    /// Whether the wrapper holds the sixteen octets of `other`.
    fn eq(&self, other: &Uuid) -> (same: bool) {
        uuid_eq(&self.0, other)
    }
}

impl PartialEqSpecImpl<Uuid> for UUID {
    open spec fn obeys_eq_spec() -> bool {
        true
    }

    open spec fn eq_spec(&self, other: &Uuid) -> bool {
        self@ == uuid_bytes(*other)
    }
}

impl PartialOrd for UUID {
    /// How the wrapper stands to `other`: as the identifiers inside them do.
    fn partial_cmp(&self, other: &UUID) -> (o: Option<Ordering>) {
        Some(uuid_order(&self.0, &other.0))
    }
}

impl PartialOrdSpecImpl for UUID {
    open spec fn obeys_partial_cmp_spec() -> bool {
        true
    }

    open spec fn partial_cmp_spec(&self, other: &UUID) -> Option<Ordering> {
        Some(octets_order(self@, other@))
    }
}

} // verus!
