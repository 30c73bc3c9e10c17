//! Classes: a local name within a namespace.

use vstd::prelude::*;

use crate::error::Error;
use crate::iri::{iri_is_valid, iri_parse_error, Iri};
use crate::prefix::Prefix;
use crate::text::{chars_of, push_str, string_of_chars, string_of_str};

verus! {

/// A class, named by a local name within the namespace of a prefix.
#[derive(Debug, Clone)]
pub struct Class {
    pub prefix: Prefix,
    pub local_name: String,
}

impl Class {
    pub fn declare(prefix: Prefix, local_name: &str) -> (r: Class)
        ensures
            r.prefix == prefix,
            r.local_name@ == local_name@,
    {
        Class { prefix, local_name: string_of_str(local_name) }
    }

    /// The class in prefixed form: prefix name and local name.
    pub fn to_string(&self) -> (r: String)
        ensures
            r@ == self.prefix.name@ + self.local_name@,
    {
        let mut v = chars_of(self.prefix.name.as_str());
        push_str(&mut v, self.local_name.as_str());
        string_of_chars(&v)
    }

    /// The class in Turtle: its prefixed form.
    pub fn display_turtle(&self) -> (r: String)
        ensures
            r@ == self.prefix.name@ + self.local_name@,
    {
        self.to_string()
    }

    /// The IRI of the class: namespace IRI and local name joined;
    /// `IriParseError` where `iref` refuses that text.
    pub fn as_iri(&self) -> (r: Result<Iri, Error>)
        ensures
            ({
                let text = self.prefix.iri@ + self.local_name@;
                &&& r is Ok <==> iri_is_valid(text)
                &&& r matches Ok(i) ==> i@ == text
                &&& r matches Err(e) ==> e == Error::IriParseError(iri_parse_error(text))
            }),
    {
        let mut v = chars_of(self.prefix.iri.as_str());
        push_str(&mut v, self.local_name.as_str());
        let text = string_of_chars(&v);
        Iri::new(text.as_str())
    }

    /// The plural of the class's local name: the local name followed by `s`.
    pub fn plural_label(&self) -> (r: String)
        ensures
            r@ == self.local_name@.push('s'),
    {
        let mut v = chars_of(self.local_name.as_str());
        v.push('s');
        string_of_chars(&v)
    }
}

} // verus!
