//! A data store connection bound to a graph, and to the graph its ontology
//! is kept in, if any.

use std::sync::Arc;

use vstd::prelude::*;

use crate::data_store_connection::DataStoreConnection;
use crate::error::Error;
use crate::graph::Graph;
use crate::iri::iri_is_valid;
use crate::namespace::{ns_owl, ns_rdf, ns_rdfs, ns_xsd};
use crate::namespaces::{default_bindings, prefix_lines, Namespaces};
use crate::parameters::{fact_domain_text, FactDomain, Parameters};
use crate::statement::Statement;
use crate::text::{push_str, string_of_chars, trim};

verus! {

/// The query that lists the triples of the graph `graph` (an IRI in angle
/// brackets).
pub open spec fn graph_triples_sparql(graph: Seq<char>) -> Seq<char> {
    "SELECT ?s ?p ?o\nFROM "@ + graph + "\nWHERE {\n    ?s ?p ?o .\n}\n"@
}

/// A data store connection bound to a graph.
pub struct GraphConnection<'a> {
    pub data_store_connection: &'a DataStoreConnection,
    pub graph: Graph,
    pub ontology_graph: Option<Graph>,
}

impl<'a> GraphConnection<'a> {
    pub fn new(
        data_store_connection: &'a DataStoreConnection,
        graph: Graph,
        ontology_graph: Option<Graph>,
    ) -> (r: GraphConnection<'a>)
        ensures
            r.data_store_connection == data_store_connection,
            r.graph == graph,
            r.ontology_graph == ontology_graph,
    {
        GraphConnection { data_store_connection, graph, ontology_graph }
    }

    /// The graphs that importing the axioms involves: the ontology graph, to
    /// read the axioms from, and the graph, to add them to. There is to be
    /// an ontology graph.
    pub fn import_axioms(&self) -> (r: (&Graph, &Graph))
        requires
            self.ontology_graph is Some,
        ensures
            *r.0 == self.ontology_graph->0,
            *r.1 == self.graph,
    {
        match &self.ontology_graph {
            Some(ontology) => (ontology, &self.graph),
            None => (&self.graph, &self.graph),
        }
    }

    /// The query that counts the triples of the graph among the facts of
    /// `fact_domain`, with the prefixes `rdf:`, `rdfs:`, `owl:` and `xsd:`;
    /// `IriParseError` where `iref` refuses one of their IRIs.
    pub fn get_triples_count(&self, fact_domain: FactDomain) -> (r: Result<
        (Statement, Parameters),
        Error,
    >)
        ensures
            r is Ok <==> (iri_is_valid(ns_rdf()) && iri_is_valid(ns_rdfs()) && iri_is_valid(ns_owl())
                && iri_is_valid(ns_xsd())),
            r matches Ok((s, p)) ==> s.declared()@ == default_bindings() && s.sparql()
                == prefix_lines(s.declared().listed()) + seq!['\n'] + trim(
                graph_triples_sparql(
                    seq!['<'] + self.graph.namespace.iri@ + self.graph.local_name@ + seq!['>'],
                ),
            ) && p@ == Map::<Seq<char>, Seq<char>>::empty().insert(
                "fact-domain"@,
                fact_domain_text(fact_domain),
            ),
    {
        let prefixes = Arc::new(Namespaces::default_namespaces()?);
        let graph = self.graph.to_string();
        let mut v: Vec<char> = Vec::new();
        push_str(&mut v, "SELECT ?s ?p ?o\nFROM ");
        push_str(&mut v, graph.as_str());
        push_str(&mut v, "\nWHERE {\n    ?s ?p ?o .\n}\n");
        let sparql = string_of_chars(&v);
        assert(sparql@ =~= graph_triples_sparql(
            seq!['<'] + self.graph.namespace.iri@ + self.graph.local_name@ + seq!['>'],
        ));
        let statement = Statement::new(&prefixes, sparql.as_str())?;
        let parameters = Parameters::empty()?.fact_domain(fact_domain)?;
        Ok((statement, parameters))
    }
}

} // verus!
