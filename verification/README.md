# rdfox_rs

A Rust interface to the RDFox knowledge-graph engine, in two parts.

- `src/` is the library, verified with Verus: RDF data types, lexical values
  and terms, IRIs, prefixes and namespaces, SPARQL statements (with comment
  stripping and listings), data-store parameters, and the models of the
  server, its connections, data stores, transactions, cursors and answer
  streams. Each type states in its contracts what its operations do; the
  laws that hold across operations are public proof functions (`law_*`).
- `app/` is the engine side: the calls into RDFox's C API, directory walks,
  the license lookup, `r2d2` pools, and the library's types with the traits of
  other crates (`thiserror`, `serde`). It performs what the library decides
  (for example, whether ending a transaction commits it, rolls it back or
  leaves the engine alone) and hands the engine's answers back to it.
- `tests/` exercises the library on concrete values.
