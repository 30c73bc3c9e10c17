//! The well-known namespaces and their prefixes.

use vstd::prelude::*;

use crate::error::Error;
use crate::iri::{iri_is_valid, Iri};
use crate::prefix::{ends_with_separator, Prefix};

verus! {

/// The base IRI used where none is given.
pub const DEFAULT_BASE_IRI: &'static str = "https://placeholder.kg";

pub open spec fn ns_dcat() -> Seq<char> { "http://www.w3.org/ns/dcat#"@ }
pub open spec fn ns_owl() -> Seq<char> { "http://www.w3.org/2002/07/owl#"@ }
pub open spec fn ns_rdf() -> Seq<char> { "http://www.w3.org/1999/02/22-rdf-syntax-ns#"@ }
pub open spec fn ns_rdfs() -> Seq<char> { "http://www.w3.org/2000/01/rdf-schema#"@ }
pub open spec fn ns_skos() -> Seq<char> { "http://www.w3.org/2004/02/skos/core#"@ }
pub open spec fn ns_xsd() -> Seq<char> { "http://www.w3.org/2001/XMLSchema#"@ }

/// The prefix `name` for a namespace IRI that ends with `/` or `#`;
/// `IriParseError` where `iref` refuses the IRI.
fn well_known(name: &str, iri: &str) -> (r: Result<Prefix, Error>)
    requires
        ends_with_separator(iri@),
    ensures
        r is Ok <==> iri_is_valid(iri@),
        r matches Ok(p) ==> p.name@ == name@ && p.iri@ == iri@,
{
    match Iri::new(iri) {
        Ok(parsed) => Ok(Prefix::declare(name, &parsed)),
        Err(e) => Err(e),
    }
}

/// The prefix `dcat:` for the DCAT vocabulary.
pub fn prefix_dcat() -> (r: Result<Prefix, Error>)
    ensures
        r is Ok <==> iri_is_valid(ns_dcat()),
        r matches Ok(p) ==> p.name@ == "dcat:"@ && p.iri@ == ns_dcat(),
{
    proof {
        reveal_strlit("http://www.w3.org/ns/dcat#");
    }
    well_known("dcat:", "http://www.w3.org/ns/dcat#")
}

/// The prefix `owl:` for the OWL vocabulary.
pub fn prefix_owl() -> (r: Result<Prefix, Error>)
    ensures
        r is Ok <==> iri_is_valid(ns_owl()),
        r matches Ok(p) ==> p.name@ == "owl:"@ && p.iri@ == ns_owl(),
{
    proof {
        reveal_strlit("http://www.w3.org/2002/07/owl#");
    }
    well_known("owl:", "http://www.w3.org/2002/07/owl#")
}

/// The prefix `rdf:` for the RDF vocabulary.
pub fn prefix_rdf() -> (r: Result<Prefix, Error>)
    ensures
        r is Ok <==> iri_is_valid(ns_rdf()),
        r matches Ok(p) ==> p.name@ == "rdf:"@ && p.iri@ == ns_rdf(),
{
    proof {
        reveal_strlit("http://www.w3.org/1999/02/22-rdf-syntax-ns#");
    }
    well_known("rdf:", "http://www.w3.org/1999/02/22-rdf-syntax-ns#")
}

/// The prefix `rdfs:` for the RDF Schema vocabulary.
pub fn prefix_rdfs() -> (r: Result<Prefix, Error>)
    ensures
        r is Ok <==> iri_is_valid(ns_rdfs()),
        r matches Ok(p) ==> p.name@ == "rdfs:"@ && p.iri@ == ns_rdfs(),
{
    proof {
        reveal_strlit("http://www.w3.org/2000/01/rdf-schema#");
    }
    well_known("rdfs:", "http://www.w3.org/2000/01/rdf-schema#")
}

/// The prefix `skos:` for the SKOS vocabulary.
pub fn prefix_skos() -> (r: Result<Prefix, Error>)
    ensures
        r is Ok <==> iri_is_valid(ns_skos()),
        r matches Ok(p) ==> p.name@ == "skos:"@ && p.iri@ == ns_skos(),
{
    proof {
        reveal_strlit("http://www.w3.org/2004/02/skos/core#");
    }
    well_known("skos:", "http://www.w3.org/2004/02/skos/core#")
}

/// The prefix `xsd:` for the XML Schema data types.
pub fn prefix_xsd() -> (r: Result<Prefix, Error>)
    ensures
        r is Ok <==> iri_is_valid(ns_xsd()),
        r matches Ok(p) ==> p.name@ == "xsd:"@ && p.iri@ == ns_xsd(),
{
    proof {
        reveal_strlit("http://www.w3.org/2001/XMLSchema#");
    }
    well_known("xsd:", "http://www.w3.org/2001/XMLSchema#")
}

} // verus!
