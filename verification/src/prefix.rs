//! Namespace prefixes: a prefix name such as `owl:` bound to a namespace IRI.

use vstd::prelude::*;

use crate::error::Error;
use crate::iri::{iri_is_valid, iri_parse_error, Iri};
use crate::text::{chars_of, push_str, string_of_chars, string_of_str};

verus! {

/// Whether a text ends with `/` or `#`, the characters after which a local
/// name can follow a namespace IRI directly.
pub open spec fn ends_with_separator(s: Seq<char>) -> bool {
    s.len() > 0 && (s.last() == '/' || s.last() == '#')
}

/// The namespace IRI that a prefix declared with `iri` holds: `iri` itself
/// where it ends with `/` or `#`, else `iri` followed by `/`.
pub open spec fn namespace_iri(iri: Seq<char>) -> Seq<char> {
    if ends_with_separator(iri) {
        iri
    } else {
        iri.push('/')
    }
}

/// Whether a prefix can be declared for `iri`: the namespace IRI it would
/// hold is one that `iref` accepts.
pub open spec fn can_declare(iri: Seq<char>) -> bool {
    iri_is_valid(iri) && iri_is_valid(namespace_iri(iri))
}

/// The text of the IRI that a local name forms within a namespace IRI:
/// appended directly where the IRI ends with `/` or `#`, else after a `/`.
pub open spec fn local_name_iri(iri: Seq<char>, name: Seq<char>) -> Seq<char> {
    if ends_with_separator(iri) {
        iri + name
    } else {
        iri + seq!['/'] + name
    }
}

/// Whether a string slice ends with `/` or `#`.
pub fn str_ends_with_separator(s: &str) -> (r: bool)
    ensures
        r == ends_with_separator(s@),
{
    let cs = chars_of(s);
    let n = cs.len();
    if n == 0 {
        false
    } else {
        cs[n - 1] == '/' || cs[n - 1] == '#'
    }
}

/// A prefix name (assumed to end with `:`) bound to a namespace IRI (ending
/// with `/` or `#`).
#[derive(Debug)]
pub struct Prefix {
    pub name: String,
    pub iri: Iri,
}

impl Clone for Prefix {
    fn clone(&self) -> (r: Self)
        ensures
            r == *self,
    {
        Prefix { name: self.name.clone(), iri: self.iri.clone() }
    }
}

impl Prefix {
    /// Declares `name` for the namespace `iri`, adding a `/` to the IRI where
    /// it ends with neither `/` nor `#`.
    pub fn declare(name: &str, iri: &Iri) -> (r: Prefix)
        requires
            iri_is_valid(namespace_iri(iri@)),
        ensures
            r.name@ == name@,
            r.iri@ == namespace_iri(iri@),
    {
        if str_ends_with_separator(iri.as_str()) {
            Prefix { name: string_of_str(name), iri: iri.clone() }
        } else {
            let mut v = chars_of(iri.as_str());
            v.push('/');
            let text = string_of_chars(&v);
            match Iri::new(text.as_str()) {
                Ok(ns) => Prefix { name: string_of_str(name), iri: ns },
                Err(_) => {
                    assert(false);
                    Prefix { name: string_of_str(name), iri: iri.clone() }
                },
            }
        }
    }

    /// Declares `name` for the namespace IRI given as text.
    pub fn declare_from_str(name: &str, iri: &str) -> (r: Prefix)
        requires
            can_declare(iri@),
        ensures
            r.name@ == name@,
            r.iri@ == namespace_iri(iri@),
    {
        Prefix::try_declare(name, iri).unwrap()
    }

    /// Declares `name` for the namespace IRI given as text, where `iref`
    /// accepts both that text and the namespace IRI made of it; `None`
    /// otherwise.
    pub fn try_declare(name: &str, iri: &str) -> (r: Option<Prefix>)
        ensures
            r is Some <==> can_declare(iri@),
            r matches Some(p) ==> p.name@ == name@ && p.iri@ == namespace_iri(iri@),
    {
        match Iri::new(iri) {
            Ok(parsed) => {
                if str_ends_with_separator(iri) {
                    Some(Prefix::declare(name, &parsed))
                } else {
                    let mut v = chars_of(iri);
                    v.push('/');
                    let text = string_of_chars(&v);
                    match Iri::new(text.as_str()) {
                        Ok(_) => Some(Prefix::declare(name, &parsed)),
                        Err(_) => None,
                    }
                }
            },
            Err(_) => None,
        }
    }

    /// The IRI that `name` forms within this namespace: the namespace IRI
    /// and `name` joined directly where the IRI ends with `/` or `#`, else
    /// with a `/` between them; `IriParseError` where `iref` refuses the
    /// result.
    pub fn with_local_name(&self, name: &str) -> (r: Result<Iri, Error>)
        ensures
            ({
                let text = local_name_iri(self.iri@, name@);
                &&& r is Ok <==> iri_is_valid(text)
                &&& r matches Ok(i) ==> i@ == text
                &&& r matches Err(e) ==> e == Error::IriParseError(iri_parse_error(text))
            }),
    {
        let mut v = chars_of(self.iri.as_str());
        if !str_ends_with_separator(self.iri.as_str()) {
            v.push('/');
        }
        push_str(&mut v, name);
        let text = string_of_chars(&v);
        proof {
            let t = local_name_iri(self.iri@, name@);
            assert(text@ =~= t);
        }
        Iri::new(text.as_str())
    }

    /// The prefix in SPARQL form: its name, a space and the IRI in angle
    /// brackets.
    pub fn to_string(&self) -> (r: String)
        ensures
            r@ == self.name@ + seq![' ', '<'] + self.iri@ + seq!['>'],
    {
        let mut v = chars_of(self.name.as_str());
        v.push(' ');
        v.push('<');
        push_str(&mut v, self.iri.as_str());
        v.push('>');
        proof {
            assert(v@ =~= self.name@ + seq![' ', '<'] + self.iri@ + seq!['>']);
        }
        string_of_chars(&v)
    }
}

/// The namespace IRI of a prefix ends with `/` or `#`, and declaring a
/// prefix for it again keeps it as it is.
pub proof fn law_namespace_iri_ends_with_separator(iri: Seq<char>)
    ensures
        ends_with_separator(namespace_iri(iri)),
        namespace_iri(namespace_iri(iri)) == namespace_iri(iri),
{
}

} // verus!
