//! Internationalized resource identifiers, parsed by the `iref` crate.

use vstd::prelude::*;

use crate::error::Error;

verus! {

/// The ways in which `iref` refuses a text as an IRI, one for each variant
/// of `iref::Error`.
#[derive(Debug, Clone, Copy, PartialEq, Eq, Structural)]
pub enum IriParseError {
    InvalidEncoding,
    InvalidPercentEncoding,
    MissingScheme,
    InvalidScheme,
    InvalidAuthority,
    InvalidUserInfo,
    InvalidHost,
    InvalidPort,
    InvalidSegment,
    InvalidPath,
    InvalidQuery,
    InvalidFragment,
}

/// What `iref` makes of a text offered as an IRI: `None` where it accepts
/// it, else the position, among the variants of `iref::Error` in the order
/// of their declaration, of the reason it refuses it.
pub uninterp spec fn iri_parse(text: Seq<char>) -> Option<u8>;

/// The reason for the refusal at a position among the variants of
/// `iref::Error`.
pub open spec fn iri_error_of_code(code: u8) -> IriParseError {
    match code {
        0u8 => IriParseError::InvalidEncoding,
        1u8 => IriParseError::InvalidPercentEncoding,
        2u8 => IriParseError::MissingScheme,
        3u8 => IriParseError::InvalidScheme,
        4u8 => IriParseError::InvalidAuthority,
        5u8 => IriParseError::InvalidUserInfo,
        6u8 => IriParseError::InvalidHost,
        7u8 => IriParseError::InvalidPort,
        8u8 => IriParseError::InvalidSegment,
        9u8 => IriParseError::InvalidPath,
        10u8 => IriParseError::InvalidQuery,
        _ => IriParseError::InvalidFragment,
    }
}

/// Why `iref` refuses a text as an IRI.
pub open spec fn iri_parse_error(text: Seq<char>) -> IriParseError {
    iri_error_of_code(iri_parse(text)->0)
}

/// Whether `iref` accepts the text as an IRI (an IRI reference that has a
/// scheme).
pub open spec fn iri_is_valid(text: Seq<char>) -> bool {
    iri_parse(text) is None
}

/// Parses `text` with `iref::IriBuf::new`. The IRI keeps the parsed bytes
/// unchanged, so on success the text is handed back as it was given. Which
/// texts `iref` accepts, and why it refuses the others, is left to the name
/// `iri_parse`.
#[verifier::external_body]
fn parse_iri(text: &str) -> (r: Result<String, u8>)
    ensures
        r is Ok <==> iri_parse(text@) is None,
        r matches Ok(s) ==> s@ == text@,
        r matches Err(code) ==> iri_parse(text@) == Some(code) && code < 12,
{
    match iref::IriBuf::new(text) {
        Ok(iri) => Ok(iri.as_str().to_string()),
        Err(e) => Err(e as u8),
    }
}

/// The reason for the refusal at a position among the variants of
/// `iref::Error`.
fn iri_error_from_code(code: u8) -> (r: IriParseError)
    ensures
        r == iri_error_of_code(code),
{
    match code {
        0u8 => IriParseError::InvalidEncoding,
        1u8 => IriParseError::InvalidPercentEncoding,
        2u8 => IriParseError::MissingScheme,
        3u8 => IriParseError::InvalidScheme,
        4u8 => IriParseError::InvalidAuthority,
        5u8 => IriParseError::InvalidUserInfo,
        6u8 => IriParseError::InvalidHost,
        7u8 => IriParseError::InvalidPort,
        8u8 => IriParseError::InvalidSegment,
        9u8 => IriParseError::InvalidPath,
        10u8 => IriParseError::InvalidQuery,
        _ => IriParseError::InvalidFragment,
    }
}

/// An IRI: text that `iref` accepts as an IRI.
#[derive(Debug, Hash)]
pub struct Iri {
    text: String,
}

impl View for Iri {
    type V = Seq<char>;

    closed spec fn view(&self) -> Seq<char> {
        self.text@
    }
}

impl Clone for Iri {
    fn clone(&self) -> (r: Self)
        ensures
            r == *self,
    {
        proof {
            use_type_invariant(self);
        }
        Iri { text: self.text.clone() }
    }
}

impl Iri {
    #[verifier::type_invariant]
    closed spec fn is_valid(self) -> bool {
        iri_is_valid(self.text@)
    }

    /// Parses an IRI; `IriParseError` where `iref` refuses the text.
    pub fn new(text: &str) -> (r: Result<Iri, Error>)
        ensures
            r is Ok <==> iri_is_valid(text@),
            r matches Ok(iri) ==> iri@ == text@,
            r matches Err(e) ==> e == Error::IriParseError(iri_parse_error(text@)),
    {
        match parse_iri(text) {
            Ok(s) => Ok(Iri { text: s }),
            Err(code) => Err(Error::IriParseError(iri_error_from_code(code))),
        }
    }

    /// The text of the IRI.
    pub fn as_str(&self) -> (r: &str)
        ensures
            r@ == self@,
    {
        self.text.as_str()
    }
}

} // verus!
