//! Verified core of a Rust interface to the RDFox knowledge-graph engine:
//! RDF data types, lexical values and terms, IRIs and namespaces, SPARQL
//! statements, data-store parameters and the bookkeeping around server,
//! connection, transaction and cursor life cycles.
//!
//! Calls into the engine's C API are not made from here: the types in this
//! crate hold the plain values that those calls read and produce, and the
//! decisions taken around them.

pub mod class;
pub mod class_report;
pub mod connectable_data_store;
pub mod cursor;
pub mod data_store;
pub mod data_store_connection;
pub mod error;
pub mod exception;
pub mod graph;
pub mod graph_connection;
pub mod iri;
pub mod license;
pub mod namespace;
pub mod namespaces;
pub mod parameters;
pub mod predicate;
pub mod prefix;
pub mod role_creds;
pub mod server;
pub mod shared;
pub mod statement;
pub mod streamer;
pub mod text;
pub mod transaction;
pub mod rdf;

pub use error::Error;
pub use rdf::DataType;
pub use class_report::ClassReport;
pub use connectable_data_store::ConnectableDataStore;
pub use cursor::{Cursor, CursorRow};
pub use data_store::DataStore;
pub use data_store_connection::DataStoreConnection;
pub use graph_connection::GraphConnection;
pub use license::{find_license, RDFOX_DEFAULT_LICENSE_FILE_NAME};
pub use namespaces::{Namespaces, NamespacesBuilder};
pub use parameters::{FactDomain, Parameters, PersistenceMode};
pub use role_creds::RoleCreds;
pub use server::{Server, ServerConnection};
pub use statement::Statement;
pub use streamer::Streamer;
pub use transaction::Transaction;
