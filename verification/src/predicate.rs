//! Predicates: a local name within the namespace of a prefix.

use vstd::prelude::*;

use crate::prefix::Prefix;
use crate::text::{chars_of, push_str, string_of_chars, string_of_str};

verus! {

/// A predicate, named by a local name within the namespace of a prefix.
pub struct Predicate<'a> {
    pub namespace: &'a Prefix,
    pub local_name: String,
}

impl<'a> Predicate<'a> {
    pub fn declare(namespace: &'a Prefix, local_name: &str) -> (r: Predicate<'a>)
        ensures
            r.namespace == namespace,
            r.local_name@ == local_name@,
    {
        Predicate { namespace, local_name: string_of_str(local_name) }
    }

    /// The predicate's IRI in angle brackets.
    pub fn to_string(&self) -> (r: String)
        ensures
            r@ == seq!['<'] + self.namespace.iri@ + self.local_name@ + seq!['>'],
    {
        let mut v: Vec<char> = Vec::new();
        v.push('<');
        push_str(&mut v, self.namespace.iri.as_str());
        push_str(&mut v, self.local_name.as_str());
        v.push('>');
        proof {
            assert(v@ =~= seq!['<'] + self.namespace.iri@ + self.local_name@ + seq!['>']);
        }
        string_of_chars(&v)
    }

    /// The predicate in Turtle: prefix name and local name.
    pub fn display_turtle(&self) -> (r: String)
        ensures
            r@ == self.namespace.name@ + self.local_name@,
    {
        let mut v = chars_of(self.namespace.name.as_str());
        push_str(&mut v, self.local_name.as_str());
        string_of_chars(&v)
    }
}

} // verus!
