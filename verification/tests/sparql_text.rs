use std::sync::Arc;

use rdfox_rs::class::Class;
use rdfox_rs::class_report::ClassReport;
use rdfox_rs::graph::Graph;
use rdfox_rs::iri::Iri;
use rdfox_rs::namespaces::{NamespaceDeclareResult, Namespaces};
use rdfox_rs::prefix::Prefix;
use rdfox_rs::statement::{no_comments, Statement};
use rdfox_rs::Error;

fn prefix(name: &str, iri: &str) -> Prefix {
    Prefix::declare(name, &Iri::new(iri).unwrap())
}

#[test]
fn test_no_comments() {
    let sparql = "PREFIX abc: <https://whatever.org#> # focus on this and the next line\nPREFIX owl: <http://www.w3.org/2002/07/owl#>\nSELECT DISTINCT ?thing\nWHERE {\n    { # some comment\n        GRAPH ?graph { # more # and more\n            ?thing a Whatever#\n        }\n    } UNION {\n        ?thing a Whatever .# abc\n                           # def\n        BIND(graph:Graph AS ?graph)\n    }\n}\n";
    let expected = "PREFIX abc: <https://whatever.org#>\nPREFIX owl: <http://www.w3.org/2002/07/owl#>\nSELECT DISTINCT ?thing\nWHERE {\n    {\n        GRAPH ?graph {\n            ?thing a Whatever\n        }\n    } UNION {\n        ?thing a Whatever .\n\n        BIND(graph:Graph AS ?graph)\n    }\n}\n";
    let actual = no_comments(sparql);
    assert_eq!(actual.as_str(), expected);
}

#[test]
fn no_comments_edge_cases() {
    assert_eq!(no_comments(""), "");
    assert_eq!(no_comments("a"), "a\n");
    assert_eq!(no_comments("a #>b # c\r\nd"), "a #>b\nd\n");
    assert_eq!(no_comments("x\r"), "x\n");
    assert_eq!(no_comments("\n\n"), "\n\n");
}

#[test]
fn no_comments_is_idempotent_on_example() {
    let once = no_comments("a # b\n<x#> c # d\n");
    assert_eq!(no_comments(&once), once);
}

#[test]
fn namespaces_declare_and_list() {
    let mut ns = Namespaces::empty();
    assert!(ns.declare_namespace(&prefix("a:", "https://a.org/")));
    assert!(ns.declare_namespace(&prefix("b:", "https://b.org/")));
    assert!(!ns.declare_namespace(&prefix("a:", "https://a2.org/")));
    assert_eq!(ns.to_string(), "PREFIX a: <https://a2.org/>\nPREFIX b: <https://b.org/>\n");
    assert_eq!(ns.namespaces().len(), 2);
}

#[test]
fn namespace_declare_results() {
    assert!(matches!(
        Namespaces::declare_result(NamespaceDeclareResult::PREFIXES_INVALID_PREFIX_NAME),
        Err(Error::InvalidPrefixName)
    ));
    assert_eq!(
        Namespaces::declare_result(NamespaceDeclareResult::PREFIXES_DECLARED_NEW).unwrap(),
        NamespaceDeclareResult::PREFIXES_DECLARED_NEW
    );
    assert_eq!(
        Namespaces::declare_result(NamespaceDeclareResult::PREFIXES_NO_CHANGE).unwrap(),
        NamespaceDeclareResult::PREFIXES_NO_CHANGE
    );
}

#[test]
fn default_namespaces_text() {
    let ns = Namespaces::default_namespaces().unwrap();
    assert_eq!(
        ns.to_string(),
        "PREFIX rdf: <http://www.w3.org/1999/02/22-rdf-syntax-ns#>\nPREFIX rdfs: <http://www.w3.org/2000/01/rdf-schema#>\nPREFIX owl: <http://www.w3.org/2002/07/owl#>\nPREFIX xsd: <http://www.w3.org/2001/XMLSchema#>\n"
    );
}

#[test]
fn builder_declares_in_order() {
    let ns = Namespaces::builder()
        .declare(prefix("a:", "https://a.org/"))
        .declare_with_name_and_iri("b:", &Iri::new("https://b.org").unwrap())
        .build()
        .unwrap();
    assert_eq!(ns.to_string(), "PREFIX a: <https://a.org/>\nPREFIX b: <https://b.org/>\n");
}

#[test]
fn statement_text_is_prefixes_then_trimmed_text() {
    let mut ns = Namespaces::empty();
    ns.add_namespace(&prefix("a:", "https://a.org/"));
    let s = Statement::new(&Arc::new(ns), "  SELECT ?x WHERE { ?x a a:B }  \n").unwrap();
    assert_eq!(s.as_str(), "PREFIX a: <https://a.org/>\n\nSELECT ?x WHERE { ?x a a:B }");
    assert_eq!(s.as_c_string().unwrap(), s.as_str());
}

#[test]
fn statement_with_nul_is_refused_for_the_c_api() {
    let s = Statement::new(&Arc::new(Namespaces::empty()), "a\0b").unwrap();
    assert!(matches!(s.as_c_string(), Err(Error::CApiError)));
}

#[test]
fn statement_listing() {
    let s = Statement::new(&Arc::new(Namespaces::empty()), "SELECT ?x\nWHERE {}").unwrap();
    assert_eq!(s.to_string(), "SPARQL Statement:\n0001: \n0002: SELECT ?x\n0003: WHERE {}\n");
}

#[test]
fn nquads_statement() {
    let s = Statement::nquads_query(&Arc::new(Namespaces::empty())).unwrap();
    assert_eq!(
        s.as_str(),
        "\nSELECT ?S ?P ?O ?G\nWHERE {\n    {\n        GRAPH ?G { ?S ?P ?O }\n    } UNION {\n        ?S ?P ?O .\n        BIND(<http://oxfordsemantic.tech/RDFox#DefaultTriples> AS ?G)\n    }\n}"
    );
}

#[test]
fn class_report_queries() {
    let class = Class::declare(prefix("test:", "https://whatever.com/test#"), "SomeClass");
    let report = ClassReport(&class);
    let (s, p) = report.number_of_individuals().unwrap();
    assert_eq!(
        s.as_str(),
        "PREFIX test: <https://whatever.com/test#>\n\nSELECT DISTINCT ?thing\nWHERE {\n    {\n        GRAPH ?graph {\n            ?thing a test:SomeClass\n        }\n    } UNION {\n            ?thing a test:SomeClass\n        BIND(<http://oxfordsemantic.tech/RDFox#DefaultTriples> AS ?graph)\n    }\n}"
    );
    assert_eq!(p.get_string("fact-domain", "").unwrap(), "all");
    let g = Graph::declare(prefix("graph:", "https://example.org/graph/"), "g");
    let (s2, _) = report.number_of_individuals_in_graph(&g).unwrap();
    assert_eq!(
        s2.as_str(),
        "PREFIX test: <https://whatever.com/test#>\n\nSELECT DISTINCT ?thing\nWHERE {\n    GRAPH <https://example.org/graph/g> {\n        ?thing a test:SomeClass\n    }\n}"
    );
}

#[test]
fn namespace_declare_answers() {
    assert_eq!(
        Namespaces::declare_answer(false, None).unwrap(),
        NamespaceDeclareResult::PREFIXES_NO_CHANGE
    );
    assert_eq!(
        Namespaces::declare_answer(true, Some(NamespaceDeclareResult::PREFIXES_DECLARED_NEW)).unwrap(),
        NamespaceDeclareResult::PREFIXES_DECLARED_NEW
    );
    assert!(matches!(
        Namespaces::declare_answer(true, Some(NamespaceDeclareResult::PREFIXES_INVALID_PREFIX_NAME)),
        Err(Error::InvalidPrefixName)
    ));
    let mut ns = Namespaces::empty();
    let a = Prefix::declare(":a", &Iri::new("https://a.org/").unwrap());
    let fresh = ns.declare_namespace(&a);
    assert!(fresh);
    let again = ns.declare_namespace(&a);
    assert_eq!(
        Namespaces::declare_answer(again, None).unwrap(),
        NamespaceDeclareResult::PREFIXES_NO_CHANGE
    );
}
