use std::sync::Arc;

use rdfox_rs::connectable_data_store::ConnectableDataStore;
use rdfox_rs::cursor::{Cursor, CursorRow, RowCounter, RowStep};
use rdfox_rs::data_store::DataStore;
use rdfox_rs::data_store_connection::{DataStoreConnection, DirectoryImport, WalkEntry, WalkStep};
use rdfox_rs::exception::{exception_error, replace_str};
use rdfox_rs::graph::Graph;
use rdfox_rs::graph_connection::GraphConnection;
use rdfox_rs::iri::Iri;
use rdfox_rs::license::{find_license, home_license_file, license_file_in};
use rdfox_rs::namespaces::Namespaces;
use rdfox_rs::parameters::{FactDomain, Parameters};
use rdfox_rs::prefix::Prefix;
use rdfox_rs::rdf::DataType;
use rdfox_rs::role_creds::RoleCreds;
use rdfox_rs::server::{Server, ServerConnection};
use rdfox_rs::shared::Counter;
use rdfox_rs::statement::Statement;
use rdfox_rs::streamer::Streamer;
use rdfox_rs::transaction::{Transaction, TransactionAction, TransactionType};
use rdfox_rs::Error;

fn setup(counter: &mut Counter) -> Arc<DataStoreConnection> {
    let server = Arc::new(Server::start(RoleCreds::default()).unwrap());
    let sc = Arc::new(server.connection_with_default_role(true).unwrap());
    let ds = DataStore::declare_with_parameters("example", Parameters::empty().unwrap()).unwrap();
    Arc::new(DataStoreConnection::new(&sc, &ds, counter))
}

#[test]
fn counter_numbers_from_one() {
    let mut c = Counter::new();
    assert_eq!(c.take(), 1);
    assert_eq!(c.take(), 2);
    let mut top = Counter { next: usize::MAX };
    assert_eq!(top.take(), usize::MAX);
    assert_eq!(top.take(), 0);
}

#[test]
fn connections_share_their_server() {
    let mut counter = Counter::new();
    let conn = setup(&mut counter);
    let again = Arc::clone(&conn.server_connection);
    assert!(Arc::ptr_eq(&conn.server_connection, &again));
    let server = Arc::new(Server::start(RoleCreds::default()).unwrap());
    let c = server.connection_with_default_role(true).unwrap();
    assert!(Arc::ptr_eq(&c.server, &server));
}

#[test]
fn connections_are_numbered_and_compared_by_number() {
    let mut counter = Counter::new();
    let c1 = setup(&mut counter);
    let c2 = setup(&mut counter);
    assert_eq!(c1.number, 1);
    assert_eq!(c2.number, 2);
    assert!(c1.same(&c1));
    assert!(!c1.same(&c2));
    assert_eq!(c1.data_store.name, "example");
}

#[test]
fn transaction_titles() {
    assert_eq!(
        Transaction::get_title_for(TransactionType::ReadWrite, 3, 1),
        "R/W Transaction #3 on connection #1"
    );
    assert_eq!(
        Transaction::get_title_for(TransactionType::ReadOnly, 10, 200),
        "R/O Transaction #10 on connection #200"
    );
    assert_eq!(
        Transaction::get_title_for(TransactionType::Exclusive, 0, 0),
        "Exclusive Transaction #0 on connection #0"
    );
    let mut counter = Counter::new();
    let conn = setup(&mut counter);
    let mut tx_numbers = Counter::new();
    let tx = Transaction::begin_read_only(&conn, &mut tx_numbers);
    assert_eq!(tx.get_title(), "R/O Transaction #1 on connection #1");
}

#[test]
fn transaction_ends_once() {
    let mut counter = Counter::new();
    let conn = setup(&mut counter);
    let mut tx_numbers = Counter::new();
    let mut tx = Transaction::begin_read_write(&conn, &mut tx_numbers);
    assert_eq!(tx.on_drop(), TransactionAction::Rollback);
    assert_eq!(tx.commit(), TransactionAction::Commit);
    assert_eq!(tx.commit(), TransactionAction::Nothing);
    assert_eq!(tx.rollback(), TransactionAction::Nothing);
    assert_eq!(tx.on_drop(), TransactionAction::Nothing);
}

#[test]
fn transaction_update_and_execute() {
    let mut counter = Counter::new();
    let conn = setup(&mut counter);
    let mut tx_numbers = Counter::new();
    let mut ok = Transaction::begin_read_write(&conn, &mut tx_numbers);
    assert_eq!(ok.update_and_commit(true), TransactionAction::Commit);
    let mut failed = Transaction::begin_read_write(&conn, &mut tx_numbers);
    assert_eq!(failed.update_and_commit(false), TransactionAction::Rollback);
    let mut ro = Transaction::begin_read_only(&conn, &mut tx_numbers);
    assert_eq!(ro.execute_and_rollback(), TransactionAction::Rollback);
    assert_eq!(ro.execute_and_rollback(), TransactionAction::Nothing);
    assert_eq!(Transaction::get_number(&mut tx_numbers), 4);
}

#[test]
fn cursor_counts_rows_with_multiplicity() {
    let mut rc = RowCounter::new(10, "SELECT *");
    assert_eq!(
        rc.next(3).unwrap(),
        RowStep::Row(CursorRow { multiplicity: 3, count: 3, rowid: 1 })
    );
    assert_eq!(
        rc.next(2).unwrap(),
        RowStep::Row(CursorRow { multiplicity: 2, count: 5, rowid: 2 })
    );
    assert_eq!(rc.next(0).unwrap(), RowStep::Done(5));
}

#[test]
fn cursor_stops_on_the_callers_error() {
    let mut rc = RowCounter::new(10, "SELECT *");
    assert!(!rc.stopped());
    assert!(rc.next(2).is_ok());
    assert_eq!(rc.handled::<String>(Ok(())), Ok(()));
    assert!(!rc.stopped());
    assert!(rc.next(1).is_ok());
    assert_eq!(rc.handled(Err("bad row".to_string())), Err("bad row".to_string()));
    assert!(rc.stopped());
}

#[test]
fn cursor_refuses_a_row_with_too_high_multiplicity() {
    let mut rc = RowCounter::new(3, "Q");
    match rc.next(3) {
        Err(Error::MultiplicityExceededMaximumNumberOfRows { maxrow, multiplicity, query }) => {
            assert_eq!(maxrow, 3);
            assert_eq!(multiplicity, 3);
            assert_eq!(query, "Q");
        },
        other => panic!("unexpected {other:?}"),
    }
}

#[test]
fn cursor_refuses_too_many_rows() {
    let mut rc = RowCounter::new(3, "Q");
    assert!(rc.next(1).is_ok());
    assert!(rc.next(1).is_ok());
    match rc.next(1) {
        Err(Error::ExceededMaximumNumberOfRows { maxrow, query }) => {
            assert_eq!(maxrow, 3);
            assert_eq!(query, "Q");
        },
        other => panic!("unexpected {other:?}"),
    }
}

#[test]
fn cursor_over_statement() {
    let s = Statement::new(&Arc::new(Namespaces::empty()), "SELECT ?x WHERE {}").unwrap();
    let cursor = Cursor::create(&s);
    assert_eq!(cursor.sparql_string(), "\nSELECT ?x WHERE {}");
    let mut rc = cursor.count();
    assert_eq!(rc.next(0).unwrap(), RowStep::Done(0));
    let c2 = s.cursor();
    assert_eq!(c2.sparql_string(), s.as_str());
}

#[test]
fn cursor_row_values() {
    assert!(matches!(CursorRow::lexical_value(false, 5, b"x\0"), Err(Error::Unknown)));
    assert!(matches!(
        CursorRow::lexical_value(true, 200, b"x\0"),
        Err(Error::UnknownDataType { data_type_id: 200 })
    ));
    let v = CursorRow::lexical_value(true, DataType::String.id(), b"abc\0").unwrap().unwrap();
    assert_eq!(v.as_str(), Some("abc"));
}

#[test]
fn server_first_role_and_counts() {
    let server = Server::start(RoleCreds::new("me", "pw")).unwrap();
    assert!(server.running);
    assert_eq!(server.first_role(0).unwrap().role_name, "me");
    assert!(server.first_role(2).is_none());
    assert_eq!(server.get_number_of_local_server_roles(65536 + 7), 7);
    let mut s2 = Server::start_with_parameters(
        RoleCreds::default(),
        &Parameters::empty().unwrap().fact_domain(FactDomain::ALL).unwrap(),
    )
    .unwrap();
    assert_eq!(s2.parameters.get_string("fact-domain", "").unwrap(), "all");
    s2.stop();
    assert!(!s2.running);
    let stopped = Arc::new(s2);
    assert!(matches!(
        stopped.connection_with_default_role(false),
        Err(Error::CouldNotConnectToServer)
    ));
    assert_eq!(stopped.connection(&RoleCreds::new("u", "p"), true).unwrap().role_creds.role_name, "u");
}

#[test]
fn server_connections() {
    let server = Arc::new(Server::start(RoleCreds::default()).unwrap());
    assert!(matches!(
        server.connection_with_default_role(false),
        Err(Error::CouldNotConnectToServer)
    ));
    let creds = RoleCreds::new("u", "p");
    let c = server.connection(&creds, true).unwrap();
    assert_eq!(c.role_creds.role_name, "u");
    assert_eq!(c.get_number_of_threads(0x1_0000_0004), 4);
    let sc = ServerConnection::new(RoleCreds::default(), Arc::clone(&server));
    assert_eq!(sc.role_creds.password, "admin");
}

#[test]
fn pool_releases_on_request() {
    let server = Arc::new(Server::start(RoleCreds::default()).unwrap());
    let sc = Arc::new(server.connection_with_default_role(true).unwrap());
    let ds = DataStore::declare_with_parameters("x", Parameters::empty().unwrap()).unwrap();
    assert!(ConnectableDataStore::new(&ds, &sc, true).has_broken());
    assert!(!ConnectableDataStore::new(&ds, &sc, false).has_broken());
}

#[test]
fn streamer_keeps_what_the_writer_leaves() {
    let s = Statement::new(&Arc::new(Namespaces::empty()), "SELECT *").unwrap();
    let base = Prefix::declare_from_str("base", "https://placeholder.kg");
    let mut st = Streamer::run(&s, "application/n-quads", base);
    let data = st.pending_write(b"abc");
    assert_eq!(data, b"abc".to_vec());
    st.after_write(data, 2);
    let data = st.pending_write(b"de");
    assert_eq!(data, b"cde".to_vec());
    st.after_write(data, 3);
    assert_eq!(st.remaining_buffer, None);
    let p = Streamer::evaluation_parameters().unwrap();
    assert_eq!(p.get_string("fact-domain", "").unwrap(), "all");
}

#[test]
fn stream_base_defaults_to_placeholder() {
    let mut counter = Counter::new();
    let conn = setup(&mut counter);
    let s = Statement::new(&Arc::new(Namespaces::empty()), "SELECT *").unwrap();
    let st = conn.try_evaluate_to_stream(&s, "text/turtle", None).unwrap();
    assert_eq!(st.base_iri.name, "base");
    assert_eq!(st.base_iri.iri.as_str(), "https://placeholder.kg/");
    let given = Iri::new("https://example.org/base#").unwrap();
    let st = conn.evaluate_to_stream(&s, "text/turtle", Some(&given));
    assert_eq!(st.base_iri.iri.as_str(), "https://example.org/base#");
}

#[test]
fn count_queries() {
    let mut counter = Counter::new();
    let conn = setup(&mut counter);
    let (s, p) = conn.get_triples_count(FactDomain::ASSERTED).unwrap();
    assert!(s.as_str().starts_with("\nSELECT ?graph ?s ?p ?o\nWHERE {"));
    assert_eq!(p.get_string("fact-domain", "").unwrap(), "explicit");
    let (s, _) = conn.get_subjects_count(FactDomain::ALL).unwrap();
    assert!(s.as_str().starts_with("\nSELECT DISTINCT ?subject"));
    let (s, _) = conn.get_predicates_count(FactDomain::ALL).unwrap();
    assert!(s.as_str().starts_with("\nSELECT DISTINCT ?predicate"));
    let (s, _) = conn.get_ontologies_count(FactDomain::ALL).unwrap();
    assert!(s.as_str().contains("?ontology a <http://www.w3.org/2002/07/owl#Ontology>"));
}

#[test]
fn directory_import_steps() {
    let mut imp = DirectoryImport::new();
    assert!(matches!(imp.step(WalkEntry::Directory), WalkStep::Skip));
    assert!(matches!(imp.step(WalkEntry::Failed), WalkStep::Fail));
    match imp.step(WalkEntry::File("a.ttl".to_string())) {
        WalkStep::Import(p) => assert_eq!(p, "a.ttl"),
        _ => panic!("expected an import"),
    }
    imp.imported();
    assert_eq!(imp.count, 1);
}

#[test]
fn graph_connection_queries() {
    let mut counter = Counter::new();
    let conn = setup(&mut counter);
    let g = Graph::declare(Prefix::declare_from_str("graph:", "https://example.org/graph/"), "main");
    let o = Graph::declare(Prefix::declare_from_str("graph:", "https://example.org/graph/"), "onto");
    let gc = GraphConnection::new(&conn, g, Some(o));
    let (src, dst) = gc.import_axioms();
    assert_eq!(src.local_name, "onto");
    assert_eq!(dst.local_name, "main");
    let (s, _) = gc.get_triples_count(FactDomain::ALL).unwrap();
    assert!(s.as_str().ends_with("SELECT ?s ?p ?o\nFROM <https://example.org/graph/main>\nWHERE {\n    ?s ?p ?o .\n}"));
}

#[test]
fn exception_messages() {
    match exception_error("loading", "RDFoxException", "RDFoxException: bad file") {
        Error::Exception { action, message } => {
            assert_eq!(action, "loading");
            assert_eq!(message, "bad file\n");
        },
        other => panic!("unexpected {other:?}"),
    }
    assert_eq!(replace_str("aXbXXc", "X", "--"), "a--b----c");
    assert_eq!(replace_str("aaaa", "aa", "b"), "bb");
}

#[test]
fn license_search() {
    let found = find_license(Some("/d"), "/home/u/.RDFox", Some("LICENSE".to_string()), true, true).unwrap();
    assert_eq!(found, (None, Some("LICENSE".to_string())));
    let found = find_license(Some("/d"), "/home/u/.RDFox", None, true, true).unwrap();
    assert_eq!(found, (Some("/d/RDFox.lic".to_string()), None));
    let found = find_license(Some("/d"), "/home/u/.RDFox", None, false, true).unwrap();
    assert_eq!(found, (Some("/home/u/.RDFox/RDFox.lic".to_string()), None));
    assert!(matches!(
        find_license(Some("/d"), "/h", None, false, false),
        Err(Error::RDFoxLicenseFileNotFound)
    ));
    let found = find_license(None, "/h", None, false, true).unwrap();
    assert_eq!(found, (Some("/h/RDFox.lic".to_string()), None));
    assert!(matches!(find_license(None, "/h", None, true, false), Err(Error::RDFoxLicenseFileNotFound)));
    assert_eq!(license_file_in("/etc/rdfox/"), "/etc/rdfox/RDFox.lic");
    assert_eq!(home_license_file("/h"), "/h/RDFox.lic");
}
