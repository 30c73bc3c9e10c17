//! RDF terms: an IRI, a literal or a blank node.

use vstd::prelude::*;

use super::data_type::DataType;
use super::lexical_value::{turtle, LexicalContent, LexicalValue};
use crate::error::Error;
use crate::iri::{iri_is_valid, iri_parse_error, Iri};

verus! {

/// An RDF term: an IRI, a literal or a blank node, each held as a lexical
/// value.
#[derive(Debug, Clone)]
pub enum Term {
    Iri(LexicalValue),
    Literal(LexicalValue),
    BlankNode(LexicalValue),
}

impl Term {
    /// The lexical value that the term holds.
    pub open spec fn value(self) -> LexicalValue {
        match self {
            Term::Iri(v) => v,
            Term::Literal(v) => v,
            Term::BlankNode(v) => v,
        }
    }

    /// The IRI term for an IRI (a value of data type `IriReference`).
    pub fn new_iri(iri: &Iri) -> (r: Result<Term, Error>)
        ensures
            r matches Ok(t) && t is Iri && t.value().wf() && t.value()@.data_type
                == DataType::IriReference && t.value()@.content == LexicalContent::Iri(iri@),
    {
        Ok(Term::Iri(LexicalValue::from_iri(iri)?))
    }

    /// The IRI term for an IRI given as text; `IriParseError` where `iref`
    /// refuses the text.
    pub fn new_iri_from_str(iri_str: &str) -> (r: Result<Term, Error>)
        ensures
            r is Ok <==> iri_is_valid(iri_str@),
            r matches Ok(t) ==> t is Iri && t.value().wf() && t.value()@.data_type
                == DataType::IriReference && t.value()@.content == LexicalContent::Iri(iri_str@),
            r matches Err(e) ==> e == Error::IriParseError(iri_parse_error(iri_str@)),
    {
        let iri = Iri::new(iri_str)?;
        Term::new_iri(&iri)
    }

    /// The literal term for a string (a value of data type `PlainLiteral`).
    pub fn new_str(s: &str) -> (r: Result<Term, Error>)
        ensures
            r matches Ok(t) && t is Literal && t.value().wf() && t.value()@.data_type
                == DataType::PlainLiteral && t.value()@.content == LexicalContent::String(s@),
    {
        Ok(Term::Literal(LexicalValue::new_plain_literal_string(s)?))
    }

    /// The blank node term for a blank node id.
    pub fn new_blank_node(s: &str) -> (r: Result<Term, Error>)
        ensures
            r matches Ok(t) && t is BlankNode && t.value().wf() && t.value()@.data_type
                == DataType::BlankNode && t.value()@.content == LexicalContent::BlankNode(s@),
    {
        let v = LexicalValue::from_type_and_buffer(DataType::BlankNode, s)?;
        Ok(Term::BlankNode(v.unwrap()))
    }

    /// The term in Turtle notation.
    pub fn display_turtle(&self) -> (r: String)
        requires
            self.value().wf(),
        ensures
            r@ == turtle(self.value()@.content),
    {
        match self {
            Term::Iri(v) => v.display_turtle(),
            Term::Literal(v) => v.display_turtle(),
            Term::BlankNode(v) => v.display_turtle(),
        }
    }
}

impl core::str::FromStr for Term {
    type Err = Error;

    /// The literal term for a string (see `Term::new_str`).
    fn from_str(s: &str) -> (r: Result<Term, Error>)
        ensures
            r matches Ok(t) && t is Literal && t.value().wf() && t.value()@.data_type
                == DataType::PlainLiteral && t.value()@.content == LexicalContent::String(s@),
    {
        Term::new_str(s)
    }
}

} // verus!
