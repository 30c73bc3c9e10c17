//! Named graphs: a local name within the namespace of a prefix.

use vstd::prelude::*;

use crate::error::Error;
use crate::iri::{iri_is_valid, iri_parse_error, Iri};
use crate::prefix::{local_name_iri, Prefix};
use crate::text::{chars_of, push_str, string_of_chars, string_of_str};

verus! {

/// The last component of a path as `std::path::Path::file_name` finds it.
pub uninterp spec fn path_file_name(path: Seq<char>) -> Option<Seq<char>>;

/// The last component of a path (`std::path::Path::file_name`); `None` where
/// the path has none (it ends in `..` or is a root or empty).
#[verifier::external_body]
fn file_name_of(path: &str) -> (r: Option<String>)
    ensures
        r is Some <==> path_file_name(path@) is Some,
        r matches Some(n) ==> n@ == path_file_name(path@)->0,
{
    std::path::Path::new(path).file_name().and_then(|n| n.to_str()).map(|n| n.to_string())
}

/// A named graph, identified by a local name within the namespace of a
/// prefix.
#[derive(Debug, Clone)]
pub struct Graph {
    pub namespace: Prefix,
    pub local_name: String,
}

/// The text of a graph's IRI: the IRI that its local name forms within its
/// namespace.
pub open spec fn graph_iri(graph: Graph) -> Seq<char> {
    local_name_iri(graph.namespace.iri@, graph.local_name@)
}

/// Whether a text holds the nul character.
pub open spec fn has_nul(s: Seq<char>) -> bool {
    exists|i: int| 0 <= i < s.len() && s[i] == '\0'
}

/// Whether a text holds no nul character, character by character.
pub open spec fn nul_free(s: Seq<char>) -> bool
    decreases s.len(),
{
    s.len() == 0 || (s[0] != '\0' && nul_free(s.skip(1)))
}

/// A text that is nul-free character by character holds no nul character.
pub proof fn lemma_nul_free(s: Seq<char>)
    requires
        nul_free(s),
    ensures
        !has_nul(s),
    decreases s.len(),
{
    if s.len() > 0 {
        lemma_nul_free(s.skip(1));
        assert forall|i: int| 0 <= i < s.len() implies s[i] != '\0' by {
            if i > 0 {
                assert(s.skip(1)[i - 1] == s[i]);
            }
        }
    }
}

impl Graph {
    pub fn declare(namespace: Prefix, local_name: &str) -> (r: Graph)
        ensures
            r.namespace == namespace,
            r.local_name@ == local_name@,
    {
        Graph { namespace, local_name: string_of_str(local_name) }
    }

    /// The graph named by the last component of `path`.
    pub fn dataset_from_path(namespace: Prefix, path: &str) -> (r: Graph)
        requires
            path_file_name(path@) is Some,
        ensures
            r.namespace == namespace,
            r.local_name@ == path_file_name(path@)->0,
    {
        let name = file_name_of(path).unwrap();
        Graph::declare(namespace, name.as_str())
    }

    /// The graph named by the last component of `path`; `None` where the
    /// path has no last component.
    pub fn try_dataset_from_path(namespace: Prefix, path: &str) -> (r: Option<Graph>)
        ensures
            r is Some <==> path_file_name(path@) is Some,
            r matches Some(g) ==> g.namespace == namespace && g.local_name@ == path_file_name(path@)->0,
    {
        match file_name_of(path) {
            Some(_) => Some(Graph::dataset_from_path(namespace, path)),
            None => None,
        }
    }

    /// The test graph for `path`: named `test-` followed by the last
    /// component of `path`.
    pub fn test_dataset_from_path(namespace: Prefix, path: &str) -> (r: Graph)
        requires
            path_file_name(path@) is Some,
        ensures
            r.namespace == namespace,
            r.local_name@ == "test-"@ + path_file_name(path@)->0,
    {
        let name = file_name_of(path).unwrap();
        let mut v = chars_of("test-");
        push_str(&mut v, name.as_str());
        let s = string_of_chars(&v);
        Graph::declare(namespace, s.as_str())
    }

    /// The test graph for `path` (see `test_dataset_from_path`); `None`
    /// where the path has no last component.
    pub fn try_test_dataset_from_path(namespace: Prefix, path: &str) -> (r: Option<Graph>)
        ensures
            r is Some <==> path_file_name(path@) is Some,
            r matches Some(g) ==> g.namespace == namespace && g.local_name@ == "test-"@
                + path_file_name(path@)->0,
    {
        match file_name_of(path) {
            Some(_) => Some(Graph::test_dataset_from_path(namespace, path)),
            None => None,
        }
    }

    /// The graph's namespace IRI and local name in angle brackets.
    pub fn to_string(&self) -> (r: String)
        ensures
            r@ == seq!['<'] + self.namespace.iri@ + self.local_name@ + seq!['>'],
    {
        let mut v: Vec<char> = Vec::new();
        v.push('<');
        push_str(&mut v, self.namespace.iri.as_str());
        push_str(&mut v, self.local_name.as_str());
        v.push('>');
        proof {
            assert(v@ =~= seq!['<'] + self.namespace.iri@ + self.local_name@ + seq!['>']);
        }
        string_of_chars(&v)
    }

    /// The IRI of the graph (see `Prefix::with_local_name`).
    pub fn as_iri(&self) -> (r: Result<Iri, Error>)
        ensures
            r is Ok <==> iri_is_valid(graph_iri(*self)),
            r matches Ok(i) ==> i@ == graph_iri(*self),
            r matches Err(e) ==> e == Error::IriParseError(iri_parse_error(graph_iri(*self))),
    {
        self.namespace.with_local_name(self.local_name.as_str())
    }

    /// The IRI of the graph as text to hand to the engine's C API:
    /// `CApiError` where it holds a nul character.
    pub fn as_c_string(&self) -> (r: Result<String, Error>)
        ensures
            !iri_is_valid(graph_iri(*self)) ==> r == Err::<String, Error>(
                Error::IriParseError(iri_parse_error(graph_iri(*self))),
            ),
            iri_is_valid(graph_iri(*self)) && has_nul(graph_iri(*self)) ==> r == Err::<String, Error>(
                Error::CApiError,
            ),
            iri_is_valid(graph_iri(*self)) && !has_nul(graph_iri(*self)) ==> (r matches Ok(s)
                && s@ == graph_iri(*self)),
    {
        let iri = self.as_iri()?;
        let cs = chars_of(iri.as_str());
        let mut i: usize = 0;
        while i < cs.len()
            invariant
                i <= cs@.len(),
                cs@ == iri@,
                iri@ == graph_iri(*self),
                iri_is_valid(graph_iri(*self)),
                forall|j: int| 0 <= j < i ==> cs@[j] != '\0',
            decreases cs@.len() - i,
        {
            if cs[i] == '\0' {
                return Err(Error::CApiError);
            }
            i = i + 1;
        }
        Ok(string_of_str(iri.as_str()))
    }
}

} // verus!
