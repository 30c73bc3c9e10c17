use rdfox_rs::parameters::{FactDomain, Parameters, PersistenceMode};
use rdfox_rs::role_creds::RoleCreds;

fn get(p: &Parameters, key: &str) -> String {
    p.get_string(key, "<none>").unwrap()
}

#[test]
fn test_set_param() {
    let mut params = Parameters::empty().unwrap();
    params.set_string("key1", "value1").unwrap();
    let value = params.get_string("key1", "whatever").unwrap();
    assert_eq!(value, "value1");
}

#[test]
fn missing_key_reads_as_default() {
    let params = Parameters::empty().unwrap();
    assert_eq!(params.get_string("absent", "fallback").unwrap(), "fallback");
}

#[test]
fn later_setting_wins_and_others_stay() {
    let mut params = Parameters::empty().unwrap();
    params.set_string("a", "1").unwrap();
    params.set_string("b", "2").unwrap();
    params.set_string("a", "3").unwrap();
    assert_eq!(get(&params, "a"), "3");
    assert_eq!(get(&params, "b"), "2");
    assert_eq!(params.entries().len(), 2);
}

#[test]
fn builder_settings() {
    let p = Parameters::empty()
        .unwrap()
        .fact_domain(FactDomain::ASSERTED)
        .unwrap()
        .switch_off_file_access_sandboxing()
        .unwrap()
        .persist_datastore(PersistenceMode::FileSequence)
        .unwrap()
        .persist_roles(PersistenceMode::Off)
        .unwrap()
        .server_directory("/srv/rdfox", true)
        .unwrap()
        .license_file("/srv/RDFox.lic", true)
        .unwrap()
        .import_rename_user_blank_nodes(true)
        .unwrap()
        .api_log(false)
        .unwrap();
    assert_eq!(get(&p, "fact-domain"), "explicit");
    assert_eq!(get(&p, "sandbox-directory"), "");
    assert_eq!(get(&p, "persist-ds"), "file-sequence");
    assert_eq!(get(&p, "persist-roles"), "off");
    assert_eq!(get(&p, "server-directory"), "/srv/rdfox");
    assert_eq!(get(&p, "license-file"), "/srv/RDFox.lic");
    assert_eq!(get(&p, "import.rename-user-blank-nodes"), "true");
    assert_eq!(get(&p, "api-log"), "off");
}

#[test]
fn fact_domains() {
    let p = Parameters::empty().unwrap().fact_domain(FactDomain::INFERRED).unwrap();
    assert_eq!(get(&p, "fact-domain"), "derived");
    let p = p.fact_domain(FactDomain::ALL).unwrap();
    assert_eq!(get(&p, "fact-domain"), "all");
}

#[test]
fn persistence_mode_texts() {
    assert_eq!(PersistenceMode::File.to_string(), "file");
    assert_eq!(PersistenceMode::FileSequence.to_string(), "file-sequence");
    assert_eq!(PersistenceMode::Off.to_string(), "off");
}

#[test]
fn api_log_directory_only_when_it_exists() {
    let p = Parameters::empty().unwrap().api_log_directory("/tmp/logs", true).unwrap();
    assert_eq!(get(&p, "api-log"), "on");
    assert_eq!(get(&p, "api-log.directory"), "/tmp/logs");
    let q = Parameters::empty().unwrap().api_log_directory("/nowhere", false).unwrap();
    assert_eq!(q.entries().len(), 0);
}

#[test]
fn parameters_clone_keeps_settings() {
    let mut p = Parameters::empty().unwrap();
    p.set_string("k", "v").unwrap();
    let q = p.clone();
    assert_eq!(get(&q, "k"), "v");
}

#[test]
fn role_creds_default_and_new() {
    let d = RoleCreds::default();
    assert_eq!(d.role_name, "admin");
    assert_eq!(d.password, "admin");
    let r = RoleCreds::new("user", "secret");
    assert_eq!(r.role_name, "user");
    assert_eq!(r.password, "secret");
}
