//! Queries about the individuals of a class.

use std::sync::Arc;

use vstd::prelude::*;

use crate::class::Class;
use crate::data_store_connection::{
    binding, denoted, pattern_answers, pattern_fits, pattern_text, rdf_type_iri, Fact, PatternSlot,
    TriplePattern,
};
use crate::error::Error;
use crate::graph::Graph;
use crate::namespaces::{prefix_lines, Namespaces};
use crate::parameters::{fact_domain_text, FactDomain, Parameters};
use crate::statement::Statement;
use crate::text::{push_str, string_of_chars, trim};

verus! {

/// The variable of the individuals queries.
pub open spec fn individuals_var() -> Seq<char> {
    "?thing"@
}

/// The pattern of the individuals queries: a thing that is of the class
/// `class`.
pub open spec fn individuals_pattern(class: Seq<char>) -> TriplePattern {
    (PatternSlot::Var("?thing"@), PatternSlot::Term("a"@), PatternSlot::Term(class))
}

/// The query that lists the individuals of the class `class` (in prefixed
/// form) once, in any graph or in none.
pub open spec fn individuals_sparql(class: Seq<char>) -> Seq<char> {
    "SELECT DISTINCT "@ + individuals_var() + "\nWHERE {\n    {\n        GRAPH ?graph {\n            "@
        + pattern_text(individuals_pattern(class)) + "\n        }\n    } UNION {\n            "@
        + pattern_text(individuals_pattern(class)) + "\n        BIND(<http://oxfordsemantic.tech/RDFox#DefaultTriples> AS ?graph)\n    }\n}\n"@
}

/// The query that lists the individuals of the class `class` once in the
/// graph `graph` (an IRI in angle brackets).
pub open spec fn individuals_in_graph_sparql(class: Seq<char>, graph: Seq<char>) -> Seq<char> {
    "SELECT DISTINCT "@ + individuals_var() + "\nWHERE {\n    GRAPH "@ + graph + " {\n        "@
        + pattern_text(individuals_pattern(class)) + "\n    }\n}\n"@
}

/// The individuals queries answer the members of the class: a term is
/// among their answers exactly where a triple states that it is of the
/// class.
pub proof fn law_individuals_query_answers_members(class: Seq<char>, facts: Set<Fact>)
    ensures
        pattern_answers(individuals_pattern(class), individuals_var(), facts) == Set::new(
            |s: Seq<char>| facts.contains((s, rdf_type_iri(), denoted(class))),
        ),
{
    reveal_strlit("a");
    let lhs = pattern_answers(individuals_pattern(class), individuals_var(), facts);
    let matching = facts.filter(|fact: Fact| pattern_fits(individuals_pattern(class), fact));
    let rhs = Set::new(|s: Seq<char>| facts.contains((s, rdf_type_iri(), denoted(class))));
    assert(denoted("a"@) == rdf_type_iri());
    assert forall|s: Seq<char>| lhs.contains(s) <==> rhs.contains(s) by {
        if lhs.contains(s) {
            let f = choose|f: Fact|
                matching.contains(f) && binding(individuals_pattern(class), individuals_var(), f)->0
                    == s;
            assert(f == (s, rdf_type_iri(), denoted(class)));
        }
        if rhs.contains(s) {
            assert(matching.contains((s, rdf_type_iri(), denoted(class))));
        }
    }
    assert(lhs =~= rhs);
}

/// Whether a result is the statement `sparql` with the class's prefix as its
/// only prefix, together with the parameters that select every fact.
pub open spec fn counts_individuals(
    r: Result<(Statement, Parameters), Error>,
    class: Class,
    sparql: Seq<char>,
) -> bool {
    r matches Ok((s, p)) && s.declared().listed() == seq![class.prefix] && s.sparql()
        == prefix_lines(seq![class.prefix]) + seq!['\n'] + trim(sparql) && p@ == Map::<
        Seq<char>,
        Seq<char>,
    >::empty().insert("fact-domain"@, fact_domain_text(FactDomain::ALL))
}

/// Queries about a class.
pub struct ClassReport<'a>(pub &'a Class);

impl<'a> ClassReport<'a> {
    /// The statement `sparql` with the class's prefix declared, and the
    /// parameters that select every fact.
    fn query_with_prefix(&self, sparql: &str) -> (r: Result<(Statement, Parameters), Error>)
        ensures
            counts_individuals(r, *self.0, sparql@),
    {
        let mut prefixes = Namespaces::empty();
        prefixes.add_namespace(&self.0.prefix);
        let prefixes = Arc::new(prefixes);
        let statement = Statement::new(&prefixes, sparql)?;
        let parameters = Parameters::empty()?.fact_domain(FactDomain::ALL)?;
        assert(seq![self.0.prefix] =~= Seq::<crate::prefix::Prefix>::empty().push(self.0.prefix));
        Ok((statement, parameters))
    }

    /// The query that counts the individuals of the class, in any graph or
    /// in none.
    pub fn number_of_individuals(&self) -> (r: Result<(Statement, Parameters), Error>)
        ensures
            counts_individuals(r, *self.0, individuals_sparql(self.0.prefix.name@ + self.0.local_name@)),
    {
        let class = self.0.to_string();
        let mut v: Vec<char> = Vec::new();
        push_str(&mut v, "SELECT DISTINCT ?thing\nWHERE {\n    {\n        GRAPH ?graph {\n            ?thing a ");
        push_str(&mut v, class.as_str());
        push_str(&mut v, "\n        }\n    } UNION {\n            ?thing a ");
        push_str(&mut v, class.as_str());
        push_str(&mut v, "\n        BIND(<http://oxfordsemantic.tech/RDFox#DefaultTriples> AS ?graph)\n    }\n}\n");
        let sparql = string_of_chars(&v);
        proof {
            reveal_strlit("SELECT DISTINCT ?thing\nWHERE {\n    {\n        GRAPH ?graph {\n            ?thing a ");
            reveal_strlit("\n        }\n    } UNION {\n            ?thing a ");
            reveal_strlit("\n        BIND(<http://oxfordsemantic.tech/RDFox#DefaultTriples> AS ?graph)\n    }\n}\n");
            reveal_strlit("SELECT DISTINCT ");
            reveal_strlit("?thing");
            reveal_strlit("\nWHERE {\n    {\n        GRAPH ?graph {\n            ");
            reveal_strlit(" ");
            reveal_strlit("a");
            reveal_strlit("\n        }\n    } UNION {\n            ");
        }
        assert(sparql@ =~= individuals_sparql(self.0.prefix.name@ + self.0.local_name@));
        self.query_with_prefix(sparql.as_str())
    }

    /// The query that counts the individuals of the class in `graph`.
    pub fn number_of_individuals_in_graph(&self, graph: &Graph) -> (r: Result<
        (Statement, Parameters),
        Error,
    >)
        ensures
            counts_individuals(
                r,
                *self.0,
                individuals_in_graph_sparql(
                    self.0.prefix.name@ + self.0.local_name@,
                    seq!['<'] + graph.namespace.iri@ + graph.local_name@ + seq!['>'],
                ),
            ),
    {
        let class = self.0.to_string();
        let graph_text = graph.to_string();
        let mut v: Vec<char> = Vec::new();
        push_str(&mut v, "SELECT DISTINCT ?thing\nWHERE {\n    GRAPH ");
        push_str(&mut v, graph_text.as_str());
        push_str(&mut v, " {\n        ?thing a ");
        push_str(&mut v, class.as_str());
        push_str(&mut v, "\n    }\n}\n");
        let sparql = string_of_chars(&v);
        proof {
            reveal_strlit("SELECT DISTINCT ?thing\nWHERE {\n    GRAPH ");
            reveal_strlit(" {\n        ?thing a ");
            reveal_strlit("\n    }\n}\n");
            reveal_strlit("SELECT DISTINCT ");
            reveal_strlit("?thing");
            reveal_strlit("\nWHERE {\n    GRAPH ");
            reveal_strlit(" {\n        ");
            reveal_strlit(" ");
            reveal_strlit("a");
        }
        assert(sparql@ =~= individuals_in_graph_sparql(
            self.0.prefix.name@ + self.0.local_name@,
            seq!['<'] + graph.namespace.iri@ + graph.local_name@ + seq!['>'],
        ));
        self.query_with_prefix(sparql.as_str())
    }
}

} // verus!
