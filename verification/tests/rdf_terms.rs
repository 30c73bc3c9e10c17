use rdfox_rs::class::Class;
use rdfox_rs::graph::Graph;
use rdfox_rs::iri::Iri;
use rdfox_rs::predicate::Predicate;
use rdfox_rs::prefix::Prefix;
use rdfox_rs::rdf::{DataType, LexicalValue, ResourceValue, Term};
use rdfox_rs::Error;

fn prefix(name: &str, iri: &str) -> Prefix {
    Prefix::declare(name, &Iri::new(iri).unwrap())
}

#[test]
fn test_a_class_01() {
    let prefix = prefix("test:", "https://whatever.com/test#");
    let class = Class::declare(prefix, "SomeClass");
    let s = class.to_string();
    assert_eq!(s, "test:SomeClass")
}

#[test]
fn test_a_class_02() {
    let prefix = prefix("test:", "https://whatever.com/test#");
    let class = Class::declare(prefix, "SomeClass");
    let s = class.as_iri().unwrap().as_str().to_string();
    assert_eq!(s, "https://whatever.com/test#SomeClass");
}

#[test]
fn test_graph_ns() {
    let graph_prefix = prefix("kggraph:", "https://whatever.kom/graph/");
    let graph = Graph::declare(graph_prefix, "somedataset");
    let c_string = graph.as_c_string().unwrap();
    assert_eq!(c_string, "https://whatever.kom/graph/somedataset");
}

#[test]
fn test_predicate() {
    let ns = prefix("abc:", "https://whatever.kg/def/");
    let prd = Predicate::declare(&ns, "xyz");
    let str_prd = prd.to_string();
    assert_eq!(str_prd.as_str(), "<https://whatever.kg/def/xyz>");
    let str_prd = prd.display_turtle();
    assert_eq!(str_prd.as_str(), "abc:xyz");
}

#[test]
fn test_term_01() {
    let term = Term::new_iri(&Iri::new("https://whatever.url").unwrap()).unwrap();
    let turtle = term.display_turtle();
    assert_eq!(turtle, "<https://whatever.url>");
}

#[test]
fn test_term_02() {
    let term = Term::new_iri(&Iri::new("unknown-protocol://whatever.url").unwrap()).unwrap();
    let turtle = term.display_turtle();
    assert_eq!(turtle, "<unknown-protocol://whatever.url>");
}

#[test]
fn test_term_03() {
    let term = Term::new_iri(&Iri::new("https:/x/whatever.url").unwrap()).unwrap();
    let turtle = term.display_turtle();
    assert_eq!(turtle, "<https:/x/whatever.url>");
}

#[test]
fn test_term_04() {
    let term = Term::new_str("some string").unwrap();
    let turtle = term.display_turtle();
    assert_eq!(turtle, "\"some string\"");
}

#[test]
fn test_term_05() -> Result<(), Error> {
    let term: Term = "some string".parse()?;
    let turtle = term.display_turtle();
    assert_eq!(turtle, "\"some string\"");
    Ok(())
}

#[test]
fn test_term_06() -> Result<(), Error> {
    let term: Term = "\"some string\"^^xsd:string".parse()?;
    let turtle = term.display_turtle();
    assert_eq!(turtle, "\"\\\"some string\\\"^^xsd:string\"");
    Ok(())
}

#[test]
fn iri_refused_by_parser() {
    assert!(matches!(Iri::new("not an iri with spaces"), Err(Error::IriParseError(_))));
    assert!(Iri::new("https://example.org/a#b").is_ok());
}

#[test]
fn prefix_gets_a_slash_where_the_iri_has_no_separator() {
    let p = prefix("ex:", "https://example.org/ns");
    assert_eq!(p.iri.as_str(), "https://example.org/ns/");
    let q = prefix("ex:", "https://example.org/ns#");
    assert_eq!(q.iri.as_str(), "https://example.org/ns#");
    assert_eq!(p.to_string(), "ex: <https://example.org/ns/>");
}

#[test]
fn prefix_try_declare_refuses_a_bad_iri() {
    assert!(Prefix::try_declare("x:", "not an iri").is_none());
    assert!(Prefix::try_declare("x:", "https://example.org/").is_some());
}

#[test]
fn local_name_joins_after_path_separator() {
    let p = prefix("ex:", "https://example.org/ns/");
    assert_eq!(p.with_local_name("thing").unwrap().as_str(), "https://example.org/ns/thing");
    let q = prefix("ex:", "https://x.org/ns#");
    assert_eq!(q.with_local_name("A").unwrap().as_str(), "https://x.org/ns#A");
}

#[test]
fn graph_from_path_takes_the_file_name() {
    let p = prefix("graph:", "https://example.org/graph/");
    let g = Graph::dataset_from_path(p.clone(), "/data/files/people.ttl");
    assert_eq!(g.local_name, "people.ttl");
    let t = Graph::test_dataset_from_path(p.clone(), "/data/files/people.ttl");
    assert_eq!(t.local_name, "test-people.ttl");
    assert!(Graph::try_dataset_from_path(p, "/").is_none());
}

#[test]
fn graph_shows_as_iri_in_angle_brackets() {
    let g = Graph::declare(prefix("graph:", "https://example.org/graph/"), "g1");
    assert_eq!(g.to_string(), "<https://example.org/graph/g1>");
}

#[test]
fn data_type_ids_round_trip() {
    for id in 0u8..=35 {
        let dt = DataType::from_datatype_id(id).unwrap();
        assert_eq!(dt.id(), id);
    }
    assert!(matches!(
        DataType::from_datatype_id(36),
        Err(Error::UnknownDataType { data_type_id: 36 })
    ));
}

#[test]
fn data_type_from_xsd_iri() {
    assert_eq!(
        DataType::from_xsd_iri("http://www.w3.org/2001/XMLSchema#boolean").unwrap(),
        DataType::Boolean
    );
    assert!(matches!(
        DataType::from_xsd_iri("http://example.org/nothing"),
        Err(Error::UnknownXsdDataType { .. })
    ));
}

#[test]
fn data_type_groups() {
    assert!(DataType::String.is_string());
    assert!(DataType::PlainLiteral.is_string());
    assert!(DataType::IriReference.is_iri());
    assert!(DataType::AnyUri.is_iri());
    assert!(DataType::Boolean.is_boolean());
    assert!(DataType::Long.is_signed_integer());
    assert!(DataType::UnsignedLong.is_unsigned_integer());
    assert!(DataType::BlankNode.is_blank_node());
    assert!(!DataType::String.is_iri());
}

#[test]
fn lexical_value_from_buffer() {
    let v = LexicalValue::from_type_and_buffer(DataType::Boolean, "true").unwrap().unwrap();
    assert_eq!(v.as_boolean(), Some(true));
    assert!(matches!(
        LexicalValue::from_type_and_buffer(DataType::Boolean, "yes"),
        Err(Error::UnknownNTriplesValue { .. })
    ));
    assert!(LexicalValue::from_type_and_buffer(DataType::UnboundValue, "x").unwrap().is_none());
    assert!(matches!(
        LexicalValue::from_type_and_buffer(DataType::Double, "1.0"),
        Err(Error::Unknown)
    ));
    let s = LexicalValue::from_type_and_buffer(DataType::String, "abc").unwrap().unwrap();
    assert_eq!(s.as_string(), Some("abc".to_string()));
}

#[test]
fn lexical_value_from_c_buffer() {
    let v = LexicalValue::from_type_and_c_buffer(DataType::String, b"hello\0garbage").unwrap().unwrap();
    assert_eq!(v.as_str(), Some("hello"));
    assert!(matches!(
        LexicalValue::from_type_and_c_buffer(DataType::String, b"no nul"),
        Err(Error::Unknown)
    ));
    assert!(matches!(
        LexicalValue::from_type_and_c_buffer(DataType::String, &[0xff, 0xfe, 0]),
        Err(Error::Unknown)
    ));
}

#[test]
fn lexical_value_display() {
    let b = LexicalValue::new_boolean(true).unwrap();
    assert_eq!(b.display_turtle(), "true");
    let n = LexicalValue::new_signed_integer(-42).unwrap();
    assert_eq!(n.display_turtle(), "-42");
    let u = LexicalValue::new_unsigned_integer(42).unwrap();
    assert_eq!(u.display_turtle(), "42");
    let s = LexicalValue::new_string_with_datatype("a\"b", DataType::String).unwrap();
    assert_eq!(s.display_turtle(), "\"a\\\"b\"");
}

#[test]
fn resource_value_from_bytes() {
    let r = ResourceValue::from(DataType::String, b"", b"abc").unwrap();
    assert_eq!(r.value, "abc");
    assert_eq!(r.namespace, None);
}

#[test]
fn lexical_values_compare_by_type_and_content() {
    let a = LexicalValue::new_string_with_datatype("x", DataType::String).unwrap();
    let b = a.clone();
    assert!(a == b);
    let c = LexicalValue::new_string_with_datatype("x", DataType::PlainLiteral).unwrap();
    assert!(a != c);
    let d = LexicalValue::new_string_with_datatype("y", DataType::String).unwrap();
    assert!(a != d);
    assert!(LexicalValue::new_boolean(true).unwrap() == LexicalValue::new_boolean(true).unwrap());
    assert!(LexicalValue::new_boolean(true).unwrap() != LexicalValue::new_boolean(false).unwrap());
}

#[test]
fn lexical_value_accessors() {
    let n = LexicalValue::new_signed_integer(-7).unwrap();
    assert_eq!(n.as_signed_long(), Some(-7));
    assert_eq!(n.as_unsigned_long(), None);
    let u = LexicalValue::new_unsigned_integer(7).unwrap();
    assert_eq!(u.as_unsigned_long(), Some(7));
    let b = LexicalValue::new_boolean_from_string("false").unwrap();
    assert_eq!(b.as_boolean(), Some(false));
    let p = LexicalValue::new_plain_literal_boolean(true).unwrap();
    assert_eq!(p.data_type(), DataType::PlainLiteral);
    let i = LexicalValue::new_iri_from_string_with_datatype("https://example.org/x", DataType::AnyUri)
        .unwrap();
    assert_eq!(i.as_iri().unwrap().as_str(), "https://example.org/x");
    let t = LexicalValue::new_string_with_datatype("abc", DataType::String).unwrap().as_term();
    assert_eq!(t.display_turtle(), "\"abc\"");
}

#[test]
fn term_constructors() {
    let t = Term::new_iri_from_str("https://example.org/y").unwrap();
    assert_eq!(t.display_turtle(), "<https://example.org/y>");
    assert!(matches!(Term::new_iri_from_str("no scheme"), Err(Error::IriParseError(_))));
    let b = Term::new_blank_node("b0").unwrap();
    assert_eq!(b.display_turtle(), "_:b0");
}
