//! Connections to a data store, each numbered when it is made.

use std::sync::Arc;

use vstd::prelude::*;

use crate::data_store::DataStore;
use crate::error::Error;
use crate::iri::Iri;
use crate::namespaces::{prefix_lines, Namespaces};
use crate::parameters::{fact_domain_text, FactDomain, Parameters};
use crate::prefix::{can_declare, namespace_iri, Prefix};
use crate::server::ServerConnection;
use crate::shared::{share, successor, Counter};
use crate::statement::Statement;
use crate::streamer::Streamer;
use crate::text::trim;

verus! {

/// The base IRI that answers are streamed with: the one given, else
/// `https://placeholder.kg`.
pub open spec fn stream_base(base_iri: Option<&Iri>) -> Seq<char> {
    match base_iri {
        Some(iri) => iri@,
        None => "https://placeholder.kg"@,
    }
}

/// A place of a triple pattern: a variable, or a term as a query writes it.
pub enum PatternSlot {
    Var(Seq<char>),
    Term(Seq<char>),
}

/// A triple of the store: subject, predicate and object, each written as a
/// term (an IRI in angle brackets).
pub type Fact = (Seq<char>, Seq<char>, Seq<char>);

/// A triple pattern: its subject, predicate and object places.
pub type TriplePattern = (PatternSlot, PatternSlot, PatternSlot);

/// How a place of a pattern is written.
pub open spec fn slot_text(slot: PatternSlot) -> Seq<char> {
    match slot {
        PatternSlot::Var(v) => v,
        PatternSlot::Term(t) => t,
    }
}

/// How a triple pattern is written: its three places, apart.
pub open spec fn pattern_text(pattern: TriplePattern) -> Seq<char> {
    slot_text(pattern.0) + " "@ + slot_text(pattern.1) + " "@ + slot_text(pattern.2)
}

/// The IRI of `rdf:type`.
pub open spec fn rdf_type_iri() -> Seq<char> {
    "<http://www.w3.org/1999/02/22-rdf-syntax-ns#type>"@
}

/// The IRI of `owl:Ontology`.
pub open spec fn owl_ontology_iri() -> Seq<char> {
    "<http://www.w3.org/2002/07/owl#Ontology>"@
}

/// The term that a written term stands for: `a` stands for `rdf:type`.
pub open spec fn denoted(term: Seq<char>) -> Seq<char> {
    if term == "a"@ {
        rdf_type_iri()
    } else {
        term
    }
}

/// Whether a term of a triple fits a place of a pattern: any term fits a
/// variable, and only the term it stands for fits a written term.
pub open spec fn slot_fits(slot: PatternSlot, term: Seq<char>) -> bool {
    match slot {
        PatternSlot::Var(_) => true,
        PatternSlot::Term(t) => denoted(t) == term,
    }
}

/// Whether a triple matches a pattern, place by place.
pub open spec fn pattern_fits(pattern: TriplePattern, fact: Fact) -> bool {
    slot_fits(pattern.0, fact.0) && slot_fits(pattern.1, fact.1) && slot_fits(pattern.2, fact.2)
}

/// The term that matching a triple binds the variable `var` to: the term at
/// the first place of the pattern that holds `var`.
pub open spec fn binding(pattern: TriplePattern, var: Seq<char>, fact: Fact) -> Option<Seq<char>> {
    if pattern.0 == PatternSlot::Var(var) {
        Some(fact.0)
    } else if pattern.1 == PatternSlot::Var(var) {
        Some(fact.1)
    } else if pattern.2 == PatternSlot::Var(var) {
        Some(fact.2)
    } else {
        None
    }
}

/// What a query that selects the distinct values of `var` over `pattern`
/// answers on the triples `facts`: the terms that `var` is bound to by the
/// triples that match, each once.
pub open spec fn pattern_answers(pattern: TriplePattern, var: Seq<char>, facts: Set<Fact>) -> Set<
    Seq<char>,
> {
    facts.filter(|fact: Fact| pattern_fits(pattern, fact)).map(
        |fact: Fact| binding(pattern, var, fact)->0,
    )
}

/// What a query that selects the three variables `vars` over `pattern`
/// answers on the triples `facts`: for each triple that matches, the terms
/// the three variables are bound to.
pub open spec fn pattern_rows(
    pattern: TriplePattern,
    vars: (Seq<char>, Seq<char>, Seq<char>),
    facts: Set<Fact>,
) -> Set<Fact> {
    facts.filter(|fact: Fact| pattern_fits(pattern, fact)).map(
        |fact: Fact|
            (
                binding(pattern, vars.0, fact)->0,
                binding(pattern, vars.1, fact)->0,
                binding(pattern, vars.2, fact)->0,
            ),
    )
}

/// The query over `pattern`, selecting the graph and `vars`, in the named
/// graphs and in the default one.
pub open spec fn rows_sparql(pattern: TriplePattern, vars: (Seq<char>, Seq<char>, Seq<char>)) -> Seq<
    char,
> {
    "SELECT ?graph "@ + vars.0 + " "@ + vars.1 + " "@ + vars.2
        + "\nWHERE {\n    {\n        GRAPH ?graph { "@ + pattern_text(pattern)
        + " }\n    } UNION {\n        "@ + pattern_text(pattern)
        + " .\n        BIND(<http://oxfordsemantic.tech/RDFox#DefaultTriples> AS ?graph)\n    }\n}\n"@
}

/// The query that lists once each term `var` is bound to by `pattern`, in
/// the named graphs and in the default one; `sep` ends the pattern in the
/// default graph.
pub open spec fn distinct_sparql(pattern: TriplePattern, var: Seq<char>, sep: Seq<char>) -> Seq<
    char,
> {
    "SELECT DISTINCT "@ + var + "\nWHERE {\n    {\n        GRAPH ?graph {\n            "@
        + pattern_text(pattern) + "\n        }\n    } UNION {\n        "@ + pattern_text(pattern)
        + sep + "\n        BIND(<http://oxfordsemantic.tech/RDFox#DefaultTriples> AS ?graph)\n    }\n}\n"@
}

/// The variables of the triples query: subject, predicate and object.
pub open spec fn triples_vars() -> (Seq<char>, Seq<char>, Seq<char>) {
    ("?s"@, "?p"@, "?o"@)
}

/// The pattern of the triples query.
pub open spec fn triples_pattern() -> TriplePattern {
    (PatternSlot::Var("?s"@), PatternSlot::Var("?p"@), PatternSlot::Var("?o"@))
}

/// The variable of the subjects query.
pub open spec fn subjects_var() -> Seq<char> {
    "?subject"@
}

/// The pattern of the subjects query.
pub open spec fn subjects_pattern() -> TriplePattern {
    (PatternSlot::Var("?subject"@), PatternSlot::Var("?p"@), PatternSlot::Var("?o"@))
}

/// The variable of the predicates query.
pub open spec fn predicates_var() -> Seq<char> {
    "?predicate"@
}

/// The pattern of the predicates query.
pub open spec fn predicates_pattern() -> TriplePattern {
    (PatternSlot::Var("?s"@), PatternSlot::Var("?predicate"@), PatternSlot::Var("?o"@))
}

/// The variable of the ontologies query.
pub open spec fn ontologies_var() -> Seq<char> {
    "?ontology"@
}

/// The pattern of the ontologies query.
pub open spec fn ontologies_pattern() -> TriplePattern {
    (
        PatternSlot::Var("?ontology"@),
        PatternSlot::Term("a"@),
        PatternSlot::Term("<http://www.w3.org/2002/07/owl#Ontology>"@),
    )
}

/// The query that lists every triple with its graph.
pub open spec fn triples_sparql() -> Seq<char> {
    rows_sparql(triples_pattern(), triples_vars())
}

/// The query that lists every subject once.
pub open spec fn subjects_sparql() -> Seq<char> {
    distinct_sparql(subjects_pattern(), subjects_var(), " ."@)
}

/// The query that lists every predicate once.
pub open spec fn predicates_sparql() -> Seq<char> {
    distinct_sparql(predicates_pattern(), predicates_var(), " ."@)
}

/// The query that lists every ontology once.
pub open spec fn ontologies_sparql() -> Seq<char> {
    distinct_sparql(ontologies_pattern(), ontologies_var(), ""@)
}

/// The triples query lists the facts: each triple gives the row of its
/// subject, predicate and object, and every row is a triple.
pub proof fn law_triples_query_lists_facts(facts: Set<Fact>)
    ensures
        pattern_rows(triples_pattern(), triples_vars(), facts) == facts,
{
    reveal_strlit("?s");
    reveal_strlit("?p");
    reveal_strlit("?o");
    assert("?s"@[1] != "?p"@[1] && "?s"@[1] != "?o"@[1] && "?p"@[1] != "?o"@[1]);
    let rows = pattern_rows(triples_pattern(), triples_vars(), facts);
    let matching = facts.filter(|fact: Fact| pattern_fits(triples_pattern(), fact));
    assert forall|f: Fact| #[trigger] facts.contains(f) implies rows.contains(f) by {
        assert(matching.contains(f));
    }
    assert(rows =~= facts);
}

/// The subjects query answers the subjects of the facts: a term is among
/// its answers exactly where some triple has it as its subject.
pub proof fn law_subjects_query_answers_subjects(facts: Set<Fact>)
    ensures
        pattern_answers(subjects_pattern(), subjects_var(), facts) == Set::new(
            |s: Seq<char>| exists|p: Seq<char>, o: Seq<char>| facts.contains((s, p, o)),
        ),
{
    let lhs = pattern_answers(subjects_pattern(), subjects_var(), facts);
    let matching = facts.filter(|fact: Fact| pattern_fits(subjects_pattern(), fact));
    let rhs = Set::new(|s: Seq<char>| exists|p: Seq<char>, o: Seq<char>| facts.contains((s, p, o)));
    assert forall|s: Seq<char>| lhs.contains(s) <==> rhs.contains(s) by {
        if lhs.contains(s) {
            let f = choose|f: Fact|
                matching.contains(f) && binding(subjects_pattern(), subjects_var(), f)->0 == s;
            assert(facts.contains((s, f.1, f.2)));
        }
        if rhs.contains(s) {
            let (p, o) = choose|p: Seq<char>, o: Seq<char>| facts.contains((s, p, o));
            assert(matching.contains((s, p, o)));
        }
    }
    assert(lhs =~= rhs);
}

/// The predicates query answers the predicates of the facts: a term is
/// among its answers exactly where some triple has it as its predicate.
pub proof fn law_predicates_query_answers_predicates(facts: Set<Fact>)
    ensures
        pattern_answers(predicates_pattern(), predicates_var(), facts) == Set::new(
            |p: Seq<char>| exists|s: Seq<char>, o: Seq<char>| facts.contains((s, p, o)),
        ),
{
    reveal_strlit("?s");
    reveal_strlit("?predicate");
    assert("?s"@.len() != "?predicate"@.len());
    let lhs = pattern_answers(predicates_pattern(), predicates_var(), facts);
    let matching = facts.filter(|fact: Fact| pattern_fits(predicates_pattern(), fact));
    let rhs = Set::new(|p: Seq<char>| exists|s: Seq<char>, o: Seq<char>| facts.contains((s, p, o)));
    assert forall|p: Seq<char>| lhs.contains(p) <==> rhs.contains(p) by {
        if lhs.contains(p) {
            let f = choose|f: Fact|
                matching.contains(f) && binding(predicates_pattern(), predicates_var(), f)->0 == p;
            assert(facts.contains((f.0, p, f.2)));
        }
        if rhs.contains(p) {
            let (s, o) = choose|s: Seq<char>, o: Seq<char>| facts.contains((s, p, o));
            assert(matching.contains((s, p, o)));
        }
    }
    assert(lhs =~= rhs);
}

/// The ontologies query answers the ontologies of the facts: a term is
/// among its answers exactly where a triple states that it is an
/// `owl:Ontology`.
pub proof fn law_ontologies_query_answers_ontologies(facts: Set<Fact>)
    ensures
        pattern_answers(ontologies_pattern(), ontologies_var(), facts) == Set::new(
            |s: Seq<char>| facts.contains((s, rdf_type_iri(), owl_ontology_iri())),
        ),
{
    reveal_strlit("a");
    reveal_strlit("<http://www.w3.org/2002/07/owl#Ontology>");
    let lhs = pattern_answers(ontologies_pattern(), ontologies_var(), facts);
    let matching = facts.filter(|fact: Fact| pattern_fits(ontologies_pattern(), fact));
    let rhs = Set::new(|s: Seq<char>| facts.contains((s, rdf_type_iri(), owl_ontology_iri())));
    assert(denoted("a"@) == rdf_type_iri());
    assert(denoted(owl_ontology_iri()) == owl_ontology_iri());
    assert forall|s: Seq<char>| lhs.contains(s) <==> rhs.contains(s) by {
        if lhs.contains(s) {
            let f = choose|f: Fact|
                matching.contains(f) && binding(ontologies_pattern(), ontologies_var(), f)->0 == s;
            assert(f == (s, rdf_type_iri(), owl_ontology_iri()));
        }
        if rhs.contains(s) {
            assert(matching.contains((s, rdf_type_iri(), owl_ontology_iri())));
        }
    }
    assert(lhs =~= rhs);
}

/// The text of the triples query, as the engine gets it.
proof fn lemma_triples_text()
    ensures
        "SELECT ?graph ?s ?p ?o\nWHERE {\n    {\n        GRAPH ?graph { ?s ?p ?o }\n    } UNION {\n        ?s ?p ?o .\n        BIND(<http://oxfordsemantic.tech/RDFox#DefaultTriples> AS ?graph)\n    }\n}\n"@ == triples_sparql(),
{
    reveal_strlit("SELECT ?graph ?s ?p ?o\nWHERE {\n    {\n        GRAPH ?graph { ?s ?p ?o }\n    } UNION {\n        ?s ?p ?o .\n        BIND(<http://oxfordsemantic.tech/RDFox#DefaultTriples> AS ?graph)\n    }\n}\n");
    reveal_strlit("SELECT ?graph ");
    reveal_strlit(" ");
    reveal_strlit("\nWHERE {\n    {\n        GRAPH ?graph { ");
    reveal_strlit(" }\n    } UNION {\n        ");
    reveal_strlit(" .\n        BIND(<http://oxfordsemantic.tech/RDFox#DefaultTriples> AS ?graph)\n    }\n}\n");
    reveal_strlit("?s");
    reveal_strlit("?p");
    reveal_strlit("?o");
    assert("SELECT ?graph ?s ?p ?o\nWHERE {\n    {\n        GRAPH ?graph { ?s ?p ?o }\n    } UNION {\n        ?s ?p ?o .\n        BIND(<http://oxfordsemantic.tech/RDFox#DefaultTriples> AS ?graph)\n    }\n}\n"@ =~= triples_sparql());
}

/// The text of the subjects query, as the engine gets it.
proof fn lemma_subjects_text()
    ensures
        "SELECT DISTINCT ?subject\nWHERE {\n    {\n        GRAPH ?graph {\n            ?subject ?p ?o\n        }\n    } UNION {\n        ?subject ?p ?o .\n        BIND(<http://oxfordsemantic.tech/RDFox#DefaultTriples> AS ?graph)\n    }\n}\n"@ == subjects_sparql(),
{
    reveal_strlit("SELECT DISTINCT ?subject\nWHERE {\n    {\n        GRAPH ?graph {\n            ?subject ?p ?o\n        }\n    } UNION {\n        ?subject ?p ?o .\n        BIND(<http://oxfordsemantic.tech/RDFox#DefaultTriples> AS ?graph)\n    }\n}\n");
    reveal_strlit("SELECT DISTINCT ");
    reveal_strlit("\nWHERE {\n    {\n        GRAPH ?graph {\n            ");
    reveal_strlit("\n        }\n    } UNION {\n        ");
    reveal_strlit("\n        BIND(<http://oxfordsemantic.tech/RDFox#DefaultTriples> AS ?graph)\n    }\n}\n");
    reveal_strlit(" ");
    reveal_strlit("");
    reveal_strlit(" .");
    reveal_strlit("?subject");
    reveal_strlit("?p");
    reveal_strlit("?o");
    assert("SELECT DISTINCT ?subject\nWHERE {\n    {\n        GRAPH ?graph {\n            ?subject ?p ?o\n        }\n    } UNION {\n        ?subject ?p ?o .\n        BIND(<http://oxfordsemantic.tech/RDFox#DefaultTriples> AS ?graph)\n    }\n}\n"@ =~= subjects_sparql());
}

/// The text of the predicates query, as the engine gets it.
proof fn lemma_predicates_text()
    ensures
        "SELECT DISTINCT ?predicate\nWHERE {\n    {\n        GRAPH ?graph {\n            ?s ?predicate ?o\n        }\n    } UNION {\n        ?s ?predicate ?o .\n        BIND(<http://oxfordsemantic.tech/RDFox#DefaultTriples> AS ?graph)\n    }\n}\n"@ == predicates_sparql(),
{
    reveal_strlit("SELECT DISTINCT ?predicate\nWHERE {\n    {\n        GRAPH ?graph {\n            ?s ?predicate ?o\n        }\n    } UNION {\n        ?s ?predicate ?o .\n        BIND(<http://oxfordsemantic.tech/RDFox#DefaultTriples> AS ?graph)\n    }\n}\n");
    reveal_strlit("SELECT DISTINCT ");
    reveal_strlit("\nWHERE {\n    {\n        GRAPH ?graph {\n            ");
    reveal_strlit("\n        }\n    } UNION {\n        ");
    reveal_strlit("\n        BIND(<http://oxfordsemantic.tech/RDFox#DefaultTriples> AS ?graph)\n    }\n}\n");
    reveal_strlit(" ");
    reveal_strlit("");
    reveal_strlit(" .");
    reveal_strlit("?s");
    reveal_strlit("?predicate");
    reveal_strlit("?o");
    assert("SELECT DISTINCT ?predicate\nWHERE {\n    {\n        GRAPH ?graph {\n            ?s ?predicate ?o\n        }\n    } UNION {\n        ?s ?predicate ?o .\n        BIND(<http://oxfordsemantic.tech/RDFox#DefaultTriples> AS ?graph)\n    }\n}\n"@ =~= predicates_sparql());
}

/// The text of the ontologies query, as the engine gets it.
proof fn lemma_ontologies_text()
    ensures
        "SELECT DISTINCT ?ontology\nWHERE {\n    {\n        GRAPH ?graph {\n            ?ontology a <http://www.w3.org/2002/07/owl#Ontology>\n        }\n    } UNION {\n        ?ontology a <http://www.w3.org/2002/07/owl#Ontology>\n        BIND(<http://oxfordsemantic.tech/RDFox#DefaultTriples> AS ?graph)\n    }\n}\n"@ == ontologies_sparql(),
{
    reveal_strlit("SELECT DISTINCT ?ontology\nWHERE {\n    {\n        GRAPH ?graph {\n            ?ontology a <http://www.w3.org/2002/07/owl#Ontology>\n        }\n    } UNION {\n        ?ontology a <http://www.w3.org/2002/07/owl#Ontology>\n        BIND(<http://oxfordsemantic.tech/RDFox#DefaultTriples> AS ?graph)\n    }\n}\n");
    reveal_strlit("SELECT DISTINCT ");
    reveal_strlit("\nWHERE {\n    {\n        GRAPH ?graph {\n            ");
    reveal_strlit("\n        }\n    } UNION {\n        ");
    reveal_strlit("\n        BIND(<http://oxfordsemantic.tech/RDFox#DefaultTriples> AS ?graph)\n    }\n}\n");
    reveal_strlit(" ");
    reveal_strlit("");
    reveal_strlit("?ontology");
    reveal_strlit("a");
    reveal_strlit("<http://www.w3.org/2002/07/owl#Ontology>");
    assert("SELECT DISTINCT ?ontology\nWHERE {\n    {\n        GRAPH ?graph {\n            ?ontology a <http://www.w3.org/2002/07/owl#Ontology>\n        }\n    } UNION {\n        ?ontology a <http://www.w3.org/2002/07/owl#Ontology>\n        BIND(<http://oxfordsemantic.tech/RDFox#DefaultTriples> AS ?graph)\n    }\n}\n"@ =~= ontologies_sparql());
}

/// A counting query: a statement with no prefixes, and the parameters that
/// select the facts it sees.
pub open spec fn counts_with(
    r: Result<(Statement, Parameters), Error>,
    sparql: Seq<char>,
    fact_domain: FactDomain,
) -> bool {
    r matches Ok((s, p)) && s.declared()@ == Map::<Seq<char>, Seq<char>>::empty() && s.sparql()
        == seq!['\n'] + trim(sparql) && p@ == Map::<Seq<char>, Seq<char>>::empty().insert(
        "fact-domain"@,
        fact_domain_text(fact_domain),
    )
}

/// The statement `sparql`, with no prefixes, and the parameters that select
/// the facts of `fact_domain`.
fn count_query(sparql: &str, fact_domain: FactDomain) -> (r: Result<(Statement, Parameters), Error>)
    ensures
        counts_with(r, sparql@, fact_domain),
{
    let prefixes = Arc::new(Namespaces::empty());
    let statement = Statement::new(&prefixes, sparql)?;
    let parameters = Parameters::empty()?.fact_domain(fact_domain)?;
    proof {
        assert(prefix_lines(Seq::<Prefix>::empty()) == Seq::<char>::empty());
        assert(statement.sparql() =~= seq!['\n'] + trim(sparql@));
    }
    Ok((statement, parameters))
}

/// What importing the RDF files of a directory does with the next entry
/// of the walk.
#[derive(Debug)]
pub enum WalkStep {
    /// A directory: passed over.
    Skip,
    /// A file: imported into the graph.
    Import(String),
    /// The walk failed: the import stops with the walk's error.
    Fail,
}

/// An entry of the walk through a directory.
#[derive(Debug)]
pub enum WalkEntry {
    Directory,
    File(String),
    Failed,
}

/// The number of files imported from a directory so far.
#[derive(Debug)]
pub struct DirectoryImport {
    pub count: u16,
}

impl DirectoryImport {
    /// No file imported yet.
    pub fn new() -> (r: DirectoryImport)
        ensures
            r.count == 0,
    {
        DirectoryImport { count: 0 }
    }

    /// What to do with the next entry of the walk.
    pub fn step(&self, entry: WalkEntry) -> (r: WalkStep)
        ensures
            entry is Directory ==> r is Skip,
            entry is Failed ==> r is Fail,
            entry matches WalkEntry::File(path) ==> (r matches WalkStep::Import(p) && p == path),
    {
        match entry {
            WalkEntry::Directory => WalkStep::Skip,
            WalkEntry::File(path) => WalkStep::Import(path),
            WalkEntry::Failed => WalkStep::Fail,
        }
    }

    /// Counts a file that was imported.
    pub fn imported(&mut self)
        requires
            old(self).count < u16::MAX,
        ensures
            final(self).count == old(self).count + 1,
    {
        self.count = self.count + 1;
    }
}

/// The number of files counted after a walk through `entries`, starting
/// from `count`, as `DirectoryImport` counts them: a directory is passed
/// over, a file is imported and counted, and a failed entry ends the walk
/// with an error (`None`).
pub open spec fn walk_count(count: nat, entries: Seq<WalkEntry>) -> Option<nat>
    decreases entries.len(),
{
    if entries.len() == 0 {
        Some(count)
    } else {
        match entries[0] {
            WalkEntry::Directory => walk_count(count, entries.skip(1)),
            WalkEntry::File(_) => walk_count(count + 1, entries.skip(1)),
            WalkEntry::Failed => None,
        }
    }
}

/// How many of `entries` are files.
pub open spec fn file_entries(entries: Seq<WalkEntry>) -> nat
    decreases entries.len(),
{
    if entries.len() == 0 {
        0
    } else {
        (if entries[0] is File {
            1nat
        } else {
            0nat
        }) + file_entries(entries.skip(1))
    }
}

proof fn lemma_walk_count(count: nat, entries: Seq<WalkEntry>)
    ensures
        (forall|i: int| 0 <= i < entries.len() ==> !(#[trigger] entries[i] is Failed)) ==> walk_count(
            count,
            entries,
        ) == Some(count + file_entries(entries)),
        (exists|i: int| 0 <= i < entries.len() && #[trigger] entries[i] is Failed) ==> walk_count(
            count,
            entries,
        ) is None,
    decreases entries.len(),
{
    if entries.len() > 0 {
        let rest = entries.skip(1);
        lemma_walk_count(count, rest);
        lemma_walk_count(count + 1, rest);
        assert forall|i: int| 0 <= i < rest.len() implies rest[i] == entries[i + 1] by {}
        if exists|i: int| 0 <= i < entries.len() && #[trigger] entries[i] is Failed {
            let i = choose|i: int| 0 <= i < entries.len() && #[trigger] entries[i] is Failed;
            if i > 0 {
                assert(rest[i - 1] is Failed);
            }
        }
        if forall|i: int| 0 <= i < entries.len() ==> !(#[trigger] entries[i] is Failed) {
            assert forall|i: int| 0 <= i < rest.len() implies !(#[trigger] rest[i] is Failed) by {
                assert(rest[i] == entries[i + 1]);
            }
            assert(!(entries[0] is Failed));
        }
    }
}

/// Importing a directory counts exactly its files: over a walk with no
/// failed entry, the count is the number of file entries; a walk with a
/// failed entry ends with an error.
pub proof fn law_walk_counts_files(entries: Seq<WalkEntry>)
    ensures
        (forall|i: int| 0 <= i < entries.len() ==> !(#[trigger] entries[i] is Failed)) ==> walk_count(
            0,
            entries,
        ) == Some(file_entries(entries)),
        (exists|i: int| 0 <= i < entries.len() && #[trigger] entries[i] is Failed) ==> walk_count(
            0,
            entries,
        ) is None,
{
    lemma_walk_count(0, entries);
}

/// A connection to a data store through a server connection. Connections
/// are numbered one after the other as they are made.
#[derive(Debug)]
pub struct DataStoreConnection {
    pub data_store: Arc<DataStore>,
    pub server_connection: Arc<ServerConnection>,
    pub number: usize,
}

impl DataStoreConnection {
    /// A connection to `data_store` through `server_connection`, numbered
    /// with the next number of `counter`.
    pub fn new(
        server_connection: &Arc<ServerConnection>,
        data_store: &Arc<DataStore>,
        counter: &mut Counter,
    ) -> (r: DataStoreConnection)
        ensures
            r.data_store == *data_store,
            r.server_connection == *server_connection,
            r.number == old(counter).next,
            final(counter).next == successor(old(counter).next),
    {
        let number = Self::get_number(counter);
        DataStoreConnection {
            data_store: share(data_store),
            server_connection: share(server_connection),
            number,
        }
    }

    /// Whether two connections are one and the same: they carry the same
    /// number.
    pub fn same(self: &Arc<Self>, other: &Arc<Self>) -> (r: bool)
        ensures
            r == (self.number == other.number),
    {
        self.number == other.number
    }

    /// Streaming the answers of `statement` in the format `mime_type`, with
    /// the prefix `base` bound to `base_iri`, or to `https://placeholder.kg`
    /// where none is given.
    pub fn evaluate_to_stream(&self, statement: &Statement, mime_type: &str, base_iri: Option<&Iri>) -> (r:
        Streamer)
        requires
            can_declare(stream_base(base_iri)),
        ensures
            r.statement == *statement,
            r.mime_type@ == mime_type@,
            r.base_iri.name@ == "base"@,
            r.base_iri.iri@ == namespace_iri(stream_base(base_iri)),
            r.pending() == Seq::<u8>::empty(),
    {
        proof {
            reveal_strlit("https://placeholder.kg");
        }
        let base = match base_iri {
            Some(iri) => Prefix::declare_from_str("base", iri.as_str()),
            None => Prefix::declare_from_str("base", "https://placeholder.kg"),
        };
        Streamer::run(statement, mime_type, base)
    }

    /// As `evaluate_to_stream`, where a prefix can be declared for the base
    /// IRI (`can_declare`); `None` otherwise.
    pub fn try_evaluate_to_stream(&self, statement: &Statement, mime_type: &str, base_iri: Option<&Iri>) -> (r:
        Option<Streamer>)
        ensures
            r is Some <==> can_declare(stream_base(base_iri)),
            r matches Some(st) ==> st.statement == *statement && st.mime_type@ == mime_type@
                && st.base_iri.name@ == "base"@ && st.base_iri.iri@ == namespace_iri(
                stream_base(base_iri),
            ) && st.pending() == Seq::<u8>::empty(),
    {
        proof {
            reveal_strlit("https://placeholder.kg");
        }
        let checked = match base_iri {
            Some(iri) => Prefix::try_declare("base", iri.as_str()),
            None => Prefix::try_declare("base", "https://placeholder.kg"),
        };
        match checked {
            Some(_) => Some(self.evaluate_to_stream(statement, mime_type, base_iri)),
            None => None,
        }
    }

    /// The query that counts the triples, with their graphs, among the facts
    /// of `fact_domain`.
    pub fn get_triples_count(&self, fact_domain: FactDomain) -> (r: Result<
        (Statement, Parameters),
        Error,
    >)
        ensures
            counts_with(r, triples_sparql(), fact_domain),
    {
        proof {
            lemma_triples_text();
        }
        count_query("SELECT ?graph ?s ?p ?o\nWHERE {\n    {\n        GRAPH ?graph { ?s ?p ?o }\n    } UNION {\n        ?s ?p ?o .\n        BIND(<http://oxfordsemantic.tech/RDFox#DefaultTriples> AS ?graph)\n    }\n}\n", fact_domain)
    }

    /// The query that counts the subjects among the facts of `fact_domain`.
    pub fn get_subjects_count(&self, fact_domain: FactDomain) -> (r: Result<
        (Statement, Parameters),
        Error,
    >)
        ensures
            counts_with(r, subjects_sparql(), fact_domain),
    {
        proof {
            lemma_subjects_text();
        }
        count_query("SELECT DISTINCT ?subject\nWHERE {\n    {\n        GRAPH ?graph {\n            ?subject ?p ?o\n        }\n    } UNION {\n        ?subject ?p ?o .\n        BIND(<http://oxfordsemantic.tech/RDFox#DefaultTriples> AS ?graph)\n    }\n}\n", fact_domain)
    }

    /// The query that counts the predicates among the facts of
    /// `fact_domain`.
    pub fn get_predicates_count(&self, fact_domain: FactDomain) -> (r: Result<
        (Statement, Parameters),
        Error,
    >)
        ensures
            counts_with(r, predicates_sparql(), fact_domain),
    {
        proof {
            lemma_predicates_text();
        }
        count_query("SELECT DISTINCT ?predicate\nWHERE {\n    {\n        GRAPH ?graph {\n            ?s ?predicate ?o\n        }\n    } UNION {\n        ?s ?predicate ?o .\n        BIND(<http://oxfordsemantic.tech/RDFox#DefaultTriples> AS ?graph)\n    }\n}\n", fact_domain)
    }

    /// The query that counts the ontologies among the facts of
    /// `fact_domain`.
    pub fn get_ontologies_count(&self, fact_domain: FactDomain) -> (r: Result<
        (Statement, Parameters),
        Error,
    >)
        ensures
            counts_with(r, ontologies_sparql(), fact_domain),
    {
        proof {
            lemma_ontologies_text();
        }
        count_query("SELECT DISTINCT ?ontology\nWHERE {\n    {\n        GRAPH ?graph {\n            ?ontology a <http://www.w3.org/2002/07/owl#Ontology>\n        }\n    } UNION {\n        ?ontology a <http://www.w3.org/2002/07/owl#Ontology>\n        BIND(<http://oxfordsemantic.tech/RDFox#DefaultTriples> AS ?graph)\n    }\n}\n", fact_domain)
    }

    /// The next connection number.
    pub fn get_number(counter: &mut Counter) -> (r: usize)
        ensures
            r == old(counter).next,
            final(counter).next == successor(old(counter).next),
    {
        counter.take()
    }
}

} // verus!
