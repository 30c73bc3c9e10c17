//! The set of namespace prefixes that statements are evaluated with: each
//! prefix name bound to one namespace IRI.

use vstd::prelude::*;

use crate::class::Class;
use crate::error::Error;
use crate::iri::{iri_is_valid, Iri};
use crate::namespace::{ns_owl, ns_rdf, ns_rdfs, ns_xsd, prefix_owl, prefix_rdf, prefix_rdfs, prefix_xsd};
use crate::predicate::Predicate;
use crate::prefix::{namespace_iri, Prefix};
use crate::text::{push_str, str_eq, string_of_chars};

verus! {

/// The engine's answers to the declaration of a prefix.
#[allow(non_camel_case_types)]
#[derive(Debug, Clone, Copy, PartialEq, Eq, Structural)]
pub enum NamespaceDeclareResult {
    PREFIXES_INVALID_PREFIX_NAME,
    PREFIXES_NO_CHANGE,
    PREFIXES_REPLACED_EXISTING,
    PREFIXES_DECLARED_NEW,
}

/// The bindings that a list of prefixes makes, a later prefix with a name
/// taking the place of an earlier one with that name.
pub open spec fn bindings_of(prefixes: Seq<Prefix>) -> Map<Seq<char>, Seq<char>>
    decreases prefixes.len(),
{
    if prefixes.len() == 0 {
        Map::empty()
    } else {
        bindings_of(prefixes.drop_last()).insert(prefixes.last().name@, prefixes.last().iri@)
    }
}

/// Whether no prefix name occurs twice in a list of prefixes.
pub open spec fn names_unique(prefixes: Seq<Prefix>) -> bool {
    forall|i: int, j: int|
        0 <= i < prefixes.len() && 0 <= j < prefixes.len() && i != j ==> prefixes[i].name@
            != prefixes[j].name@
}

/// The SPARQL text that declares a list of prefixes: a line
/// `PREFIX name <iri>` for each.
pub open spec fn prefix_lines(prefixes: Seq<Prefix>) -> Seq<char>
    decreases prefixes.len(),
{
    if prefixes.len() == 0 {
        Seq::empty()
    } else {
        prefix_lines(prefixes.drop_last()) + "PREFIX "@ + prefixes.last().name@ + " <"@
            + prefixes.last().iri@ + ">\n"@
    }
}

/// The bindings of the prefixes `rdf:`, `rdfs:`, `owl:` and `xsd:`.
pub open spec fn default_bindings() -> Map<Seq<char>, Seq<char>> {
    Map::empty().insert("rdf:"@, ns_rdf()).insert("rdfs:"@, ns_rdfs()).insert("owl:"@, ns_owl()).insert(
        "xsd:"@,
        ns_xsd(),
    )
}

proof fn lemma_bindings_domain(prefixes: Seq<Prefix>)
    ensures
        forall|k: Seq<char>| #[trigger] bindings_of(prefixes).dom().contains(k) <==> exists|i: int|
            0 <= i < prefixes.len() && prefixes[i].name@ == k,
    decreases prefixes.len(),
{
    if prefixes.len() > 0 {
        let front = prefixes.drop_last();
        lemma_bindings_domain(front);
        assert forall|k: Seq<char>| #[trigger] bindings_of(prefixes).dom().contains(k) <==> exists|i: int|
            0 <= i < prefixes.len() && prefixes[i].name@ == k by {
            if bindings_of(prefixes).dom().contains(k) {
                if k == prefixes.last().name@ {
                    assert(prefixes[prefixes.len() - 1].name@ == k);
                } else {
                    assert(bindings_of(front).dom().contains(k));
                    let i = choose|i: int| 0 <= i < front.len() && front[i].name@ == k;
                    assert(prefixes[i].name@ == k);
                }
            }
            if exists|i: int| 0 <= i < prefixes.len() && prefixes[i].name@ == k {
                let i = choose|i: int| 0 <= i < prefixes.len() && prefixes[i].name@ == k;
                if i < prefixes.len() - 1 {
                    assert(front[i].name@ == k);
                    assert(bindings_of(front).dom().contains(k));
                }
            }
        }
    }
}

proof fn lemma_bindings_replace(prefixes: Seq<Prefix>, i: int, p: Prefix)
    requires
        names_unique(prefixes),
        0 <= i < prefixes.len(),
        prefixes[i].name@ == p.name@,
    ensures
        bindings_of(prefixes.update(i, p)) == bindings_of(prefixes).insert(p.name@, p.iri@),
        names_unique(prefixes.update(i, p)),
    decreases prefixes.len(),
{
    let updated = prefixes.update(i, p);
    if i == prefixes.len() - 1 {
        assert(updated.drop_last() =~= prefixes.drop_last());
        assert(bindings_of(prefixes.drop_last()).insert(p.name@, p.iri@) =~= bindings_of(
            prefixes,
        ).insert(p.name@, p.iri@));
    } else {
        assert(names_unique(prefixes.drop_last()));
        lemma_bindings_replace(prefixes.drop_last(), i, p);
        assert(updated.drop_last() =~= prefixes.drop_last().update(i, p));
        assert(prefixes.last().name@ != p.name@);
        assert(bindings_of(updated) =~= bindings_of(prefixes).insert(p.name@, p.iri@));
    }
}

/// A set of prefixes: no two with the same name.
#[derive(Debug)]
pub struct Namespaces {
    entries: Vec<Prefix>,
}

impl View for Namespaces {
    type V = Map<Seq<char>, Seq<char>>;

    /// Each prefix name bound to its namespace IRI.
    closed spec fn view(&self) -> Map<Seq<char>, Seq<char>> {
        bindings_of(self.entries@)
    }
}

impl Namespaces {
    #[verifier::type_invariant]
    closed spec fn names_are_unique(self) -> bool {
        names_unique(self.entries@)
    }

    /// The prefixes, in the order in which their names were first declared.
    pub closed spec fn listed(&self) -> Seq<Prefix> {
        self.entries@
    }

    /// A set with no prefixes.
    pub fn empty() -> (r: Namespaces)
        ensures
            r@ == Map::<Seq<char>, Seq<char>>::empty(),
            r.listed() == Seq::<Prefix>::empty(),
    {
        Namespaces { entries: Vec::new() }
    }

    /// A builder that collects prefixes to declare.
    pub fn builder() -> (r: NamespacesBuilder)
        ensures
            r.namespaces@ == Seq::<Prefix>::empty(),
    {
        NamespacesBuilder::default_builder()
    }

    /// The set of the prefixes `rdf:`, `rdfs:`, `owl:` and `xsd:`;
    /// `IriParseError` where `iref` refuses one of their IRIs.
    pub fn default_namespaces() -> (r: Result<Namespaces, Error>)
        ensures
            r is Ok <==> (iri_is_valid(ns_rdf()) && iri_is_valid(ns_rdfs()) && iri_is_valid(ns_owl())
                && iri_is_valid(ns_xsd())),
            r matches Ok(n) ==> n@ == default_bindings() && n.listed().len() == 4
                && n.listed()[0].name@ == "rdf:"@ && n.listed()[0].iri@ == ns_rdf()
                && n.listed()[1].name@ == "rdfs:"@ && n.listed()[1].iri@ == ns_rdfs()
                && n.listed()[2].name@ == "owl:"@ && n.listed()[2].iri@ == ns_owl()
                && n.listed()[3].name@ == "xsd:"@ && n.listed()[3].iri@ == ns_xsd(),
    {
        proof {
            reveal_strlit("rdf:");
            reveal_strlit("rdfs:");
            reveal_strlit("owl:");
            reveal_strlit("xsd:");
        }
        let mut n = Namespaces::empty();
        let rdf = prefix_rdf()?;
        n.add_namespace(&rdf);
        let rdfs = prefix_rdfs()?;
        assert(!n@.dom().contains(rdfs.name@)) by {
            assert(rdfs.name@.len() != rdf.name@.len());
        }
        n.add_namespace(&rdfs);
        let owl = prefix_owl()?;
        assert(!n@.dom().contains(owl.name@)) by {
            assert(owl.name@[0] != rdf.name@[0]);
            assert(owl.name@[0] != rdfs.name@[0]);
        }
        n.add_namespace(&owl);
        let xsd = prefix_xsd()?;
        assert(!n@.dom().contains(xsd.name@)) by {
            assert(xsd.name@[0] != rdf.name@[0]);
            assert(xsd.name@[0] != rdfs.name@[0]);
            assert(xsd.name@[0] != owl.name@[0]);
        }
        n.add_namespace(&xsd);
        Ok(n)
    }

    /// The position of the prefix named `name`, if there is one.
    fn position_of(&self, name: &str) -> (r: Option<usize>)
        ensures
            match r {
                Some(i) => i < self.entries@.len() && self.entries@[i as int].name@ == name@,
                None => forall|j: int|
                    0 <= j < self.entries@.len() ==> self.entries@[j].name@ != name@,
            },
    {
        let mut i: usize = 0;
        while i < self.entries.len()
            invariant
                i <= self.entries@.len(),
                forall|j: int| 0 <= j < i ==> self.entries@[j].name@ != name@,
            decreases self.entries@.len() - i,
        {
            if str_eq(self.entries[i].name.as_str(), name) {
                return Some(i);
            }
            i = i + 1;
        }
        None
    }

    /// Registers `namespace`, in place of any prefix with its name. Returns
    /// whether its name is new, so that the engine is to be told of it; a
    /// name declared before counts as no change for the engine.
    pub fn declare_namespace(&mut self, namespace: &Prefix) -> (r: bool)
        ensures
            r == !old(self)@.dom().contains(namespace.name@),
            final(self)@ == old(self)@.insert(namespace.name@, namespace.iri@),
            r ==> final(self).listed() == old(self).listed().push(*namespace),
            !r ==> exists|i: int|
                0 <= i < old(self).listed().len() && old(self).listed()[i].name@ == namespace.name@
                    && final(self).listed() == old(self).listed().update(i, *namespace),
    {
        proof {
            use_type_invariant(&*self);
            lemma_bindings_domain(self.entries@);
        }
        let ghost before = self.entries@;
        let position = self.position_of(namespace.name.as_str());
        let mut entries: Vec<Prefix> = Vec::new();
        std::mem::swap(&mut entries, &mut self.entries);
        let fresh = match position {
            Some(i) => {
                proof {
                    lemma_bindings_replace(before, i as int, *namespace);
                }
                entries.set(i, namespace.clone());
                assert(entries@ == before.update(i as int, *namespace));
                false
            },
            None => {
                entries.push(namespace.clone());
                proof {
                    assert(entries@.drop_last() =~= before);
                }
                true
            },
        };
        self.entries = entries;
        proof {
            if !fresh {
                let i = position->0 as int;
                assert(before[i].name@ == namespace.name@);
                assert(self.entries@ == before.update(i, *namespace));
                assert(before == old(self).listed());
                assert(0 <= i < old(self).listed().len() && old(self).listed()[i].name@
                    == namespace.name@ && self.listed() == old(self).listed().update(i, *namespace));
            }
        }
        fresh
    }

    /// What the engine's answer to the declaration of a prefix means:
    /// `InvalidPrefixName` where it refused the name, else the answer.
    pub fn declare_result(result: NamespaceDeclareResult) -> (r: Result<
        NamespaceDeclareResult,
        Error,
    >)
        ensures
            result == NamespaceDeclareResult::PREFIXES_INVALID_PREFIX_NAME ==> r matches Err(
                Error::InvalidPrefixName,
            ),
            result != NamespaceDeclareResult::PREFIXES_INVALID_PREFIX_NAME ==> r == Ok::<
                NamespaceDeclareResult,
                Error,
            >(result),
    {
        match result {
            NamespaceDeclareResult::PREFIXES_INVALID_PREFIX_NAME => Err(Error::InvalidPrefixName),
            _ => Ok(result),
        }
    }

    /// The answer to the declaration of a prefix: `PREFIXES_NO_CHANGE`
    /// where its name was known already (`fresh` false, see
    /// `declare_namespace`), so that the engine is not asked; otherwise the
    /// engine's answer `engine`, as `declare_result` reads it.
    pub fn declare_answer(fresh: bool, engine: Option<NamespaceDeclareResult>) -> (r: Result<
        NamespaceDeclareResult,
        Error,
    >)
        requires
            fresh ==> engine is Some,
        ensures
            !fresh ==> r == Ok::<NamespaceDeclareResult, Error>(
                NamespaceDeclareResult::PREFIXES_NO_CHANGE,
            ),
            fresh && engine->0 == NamespaceDeclareResult::PREFIXES_INVALID_PREFIX_NAME ==> r matches Err(
                Error::InvalidPrefixName,
            ),
            fresh && engine->0 != NamespaceDeclareResult::PREFIXES_INVALID_PREFIX_NAME ==> r == Ok::<
                NamespaceDeclareResult,
                Error,
            >(engine->0),
    {
        if !fresh {
            return Ok(NamespaceDeclareResult::PREFIXES_NO_CHANGE);
        }
        match engine {
            Some(answer) => Namespaces::declare_result(answer),
            None => Ok(NamespaceDeclareResult::PREFIXES_NO_CHANGE),
        }
    }

    /// Registers the prefix `name` for the namespace `iri` (see
    /// `Prefix::declare`); returns whether its name is new.
    pub fn declare(&mut self, name: &str, iri: &Iri) -> (r: bool)
        requires
            iri_is_valid(namespace_iri(iri@)),
        ensures
            r == !old(self)@.dom().contains(name@),
            final(self)@ == old(self)@.insert(name@, namespace_iri(iri@)),
    {
        let namespace = Prefix::declare(name, iri);
        self.declare_namespace(&namespace)
    }

    /// Registers `namespace`, in place of any prefix with its name.
    pub fn add_namespace(&mut self, namespace: &Prefix)
        ensures
            final(self)@ == old(self)@.insert(namespace.name@, namespace.iri@),
            !old(self)@.dom().contains(namespace.name@) ==> final(self).listed() == old(
                self,
            ).listed().push(*namespace),
            old(self)@.dom().contains(namespace.name@) ==> exists|i: int|
                0 <= i < old(self).listed().len() && old(self).listed()[i].name@ == namespace.name@
                    && final(self).listed() == old(self).listed().update(i, *namespace),
    {
        let _ = self.declare_namespace(namespace);
    }

    /// Registers the namespace of a class.
    pub fn add_class(&mut self, class: &Class)
        ensures
            final(self)@ == old(self)@.insert(class.prefix.name@, class.prefix.iri@),
    {
        self.add_namespace(&class.prefix)
    }

    /// Registers the namespace of a predicate.
    pub fn add_predicate(&mut self, predicate: &Predicate)
        ensures
            final(self)@ == old(self)@.insert(predicate.namespace.name@, predicate.namespace.iri@),
    {
        self.add_namespace(predicate.namespace)
    }

    /// The prefixes, in the order in which their names were first declared.
    pub fn namespaces(&self) -> (r: Vec<Prefix>)
        ensures
            r@ == self.listed(),
            bindings_of(r@) == self@,
            names_unique(self.listed()),
    {
        proof {
            use_type_invariant(self);
        }
        let mut out: Vec<Prefix> = Vec::new();
        let mut i: usize = 0;
        while i < self.entries.len()
            invariant
                i <= self.entries@.len(),
                out@ == self.entries@.subrange(0, i as int),
            decreases self.entries@.len() - i,
        {
            out.push(self.entries[i].clone());
            i = i + 1;
            assert(out@ =~= self.entries@.subrange(0, i as int));
        }
        assert(self.entries@.subrange(0, self.entries@.len() as int) =~= self.entries@);
        out
    }

    /// The prefixes in SPARQL: a line `PREFIX name <iri>` for each.
    pub fn to_string(&self) -> (r: String)
        ensures
            r@ == prefix_lines(self.listed()),
            names_unique(self.listed()),
            bindings_of(self.listed()) == self@,
    {
        proof {
            use_type_invariant(self);
        }
        let mut v: Vec<char> = Vec::new();
        let mut i: usize = 0;
        while i < self.entries.len()
            invariant
                i <= self.entries@.len(),
                v@ == prefix_lines(self.entries@.subrange(0, i as int)),
            decreases self.entries@.len() - i,
        {
            let p = &self.entries[i];
            push_str(&mut v, "PREFIX ");
            push_str(&mut v, p.name.as_str());
            push_str(&mut v, " <");
            push_str(&mut v, p.iri.as_str());
            push_str(&mut v, ">\n");
            proof {
                let s = self.entries@.subrange(0, i + 1);
                assert(s.drop_last() =~= self.entries@.subrange(0, i as int));
            }
            i = i + 1;
        }
        assert(self.entries@.subrange(0, self.entries@.len() as int) =~= self.entries@);
        string_of_chars(&v)
    }
}

/// Collects prefixes, in order, to declare together.
#[derive(Debug)]
pub struct NamespacesBuilder {
    pub namespaces: Vec<Prefix>,
}

impl NamespacesBuilder {
    /// A builder with no prefixes yet.
    pub fn default_builder() -> (r: NamespacesBuilder)
        ensures
            r.namespaces@ == Seq::<Prefix>::empty(),
    {
        NamespacesBuilder { namespaces: Vec::new() }
    }

    /// Adds the prefix `name` for the namespace `iri` (see
    /// `Prefix::declare`).
    pub fn declare_with_name_and_iri(self, name: &str, iri: &Iri) -> (r: NamespacesBuilder)
        requires
            iri_is_valid(namespace_iri(iri@)),
        ensures
            r.namespaces@.len() == self.namespaces@.len() + 1,
            r.namespaces@.drop_last() == self.namespaces@,
            r.namespaces@.last().name@ == name@,
            r.namespaces@.last().iri@ == namespace_iri(iri@),
    {
        self.declare(Prefix::declare(name, iri))
    }

    /// Adds `namespace`.
    pub fn declare(self, namespace: Prefix) -> (r: NamespacesBuilder)
        ensures
            r.namespaces@ == self.namespaces@.push(namespace),
    {
        let mut b = self;
        b.namespaces.push(namespace);
        b
    }

    /// The set of the collected prefixes, each declared in turn.
    pub fn build(self) -> (r: Result<Namespaces, Error>)
        ensures
            r matches Ok(n) && n@ == bindings_of(self.namespaces@) && (names_unique(
                self.namespaces@,
            ) ==> n.listed() == self.namespaces@),
    {
        let mut n = Namespaces::empty();
        let mut i: usize = 0;
        while i < self.namespaces.len()
            invariant
                i <= self.namespaces@.len(),
                n@ == bindings_of(self.namespaces@.subrange(0, i as int)),
                names_unique(self.namespaces@) ==> n.listed() == self.namespaces@.subrange(
                    0,
                    i as int,
                ),
            decreases self.namespaces@.len() - i,
        {
            proof {
                if names_unique(self.namespaces@) {
                    let front = self.namespaces@.subrange(0, i as int);
                    lemma_bindings_domain(front);
                    if n@.dom().contains(self.namespaces@[i as int].name@) {
                        let j = choose|j: int|
                            0 <= j < front.len() && front[j].name@ == self.namespaces@[i as int].name@;
                        assert(self.namespaces@[j].name@ == self.namespaces@[i as int].name@);
                    }
                }
            }
            n.add_namespace(&self.namespaces[i]);
            proof {
                let s = self.namespaces@.subrange(0, i + 1);
                assert(s.drop_last() =~= self.namespaces@.subrange(0, i as int));
                assert(s =~= self.namespaces@.subrange(0, i as int).push(self.namespaces@[i as int]));
            }
            i = i + 1;
        }
        assert(self.namespaces@.subrange(0, self.namespaces@.len() as int) =~= self.namespaces@);
        Ok(n)
    }
}

/// Declaring a prefix a second time is no change: its name is known after
/// the first declaration, so the engine is not told again, and the bindings
/// stay as they are.
pub proof fn law_redeclare_is_no_change(
    bindings: Map<Seq<char>, Seq<char>>,
    name: Seq<char>,
    iri: Seq<char>,
)
    ensures
        bindings.insert(name, iri).dom().contains(name),
        bindings.insert(name, iri).insert(name, iri) == bindings.insert(name, iri),
{
    assert(bindings.insert(name, iri).insert(name, iri) =~= bindings.insert(name, iri));
}

/// The bindings of a list of prefixes with distinct names hold each of them.
pub proof fn law_listed_prefixes_bound(prefixes: Seq<Prefix>, i: int)
    requires
        names_unique(prefixes),
        0 <= i < prefixes.len(),
    ensures
        bindings_of(prefixes).dom().contains(prefixes[i].name@),
        bindings_of(prefixes)[prefixes[i].name@] == prefixes[i].iri@,
    decreases prefixes.len(),
{
    if i < prefixes.len() - 1 {
        assert(names_unique(prefixes.drop_last()));
        law_listed_prefixes_bound(prefixes.drop_last(), i);
        assert(prefixes.drop_last()[i] == prefixes[i]);
        assert(prefixes.last().name@ != prefixes[i].name@);
    }
}

} // verus!
