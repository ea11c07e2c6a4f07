use emctl::args::ResetCommand;
use emctl::config::{ConfigRow, FieldValue, ServerConfig, StoreError, ValidationError, DEFAULT_PORT};
use emctl::store::ConfigStore;

fn initialized() -> ConfigStore {
    let mut store = ConfigStore::new();
    store.initialize();
    store
}

#[test]
fn read_before_initialize_is_not_initialized() {
    let store = ConfigStore::new();
    assert_eq!(store.read().unwrap_err(), StoreError::NotInitialized);
}

#[test]
fn initialize_writes_defaults_once() {
    let mut store = initialized();
    let c = store.read().unwrap();
    assert_eq!(c.username, "");
    assert_eq!(c.password_hash, "");
    assert_eq!(c.host, "127.0.0.1");
    assert_eq!(c.port, 8080);
    assert_eq!(c.domain, None);
    assert_eq!(c.tls_cert_ref, None);
    assert!(c.ip_allowlist.is_empty());
    assert_eq!(c.version, 1);
    store.compare_and_update(1, FieldValue::Port(9000)).unwrap();
    store.initialize();
    assert_eq!(store.read().unwrap().port, 9000);
}

#[test]
fn versions_rise_by_one_per_successful_update_only() {
    let mut store = initialized();
    let mut seen = vec![store.read().unwrap().version];
    let values = vec![
        FieldValue::Port(9090),
        FieldValue::Port(0),
        FieldValue::Host(String::from("0.0.0.0")),
        FieldValue::Username(String::from("root")),
        FieldValue::PasswordHash(String::from("h1")),
        FieldValue::Username(String::from("root")),
    ];
    for v in values {
        let current = store.read().unwrap().version;
        if let Ok(c) = store.compare_and_update(current, v) {
            seen.push(c.version);
        }
    }
    assert_eq!(seen, vec![1, 2, 3, 4, 5]);
}

#[test]
fn same_expected_version_has_exactly_one_winner() {
    let mut store = initialized();
    let results: Vec<Result<ServerConfig, StoreError>> = (0..5)
        .map(|i| store.compare_and_update(1, FieldValue::Port(9000 + i)))
        .collect();
    let winners = results.iter().filter(|r| r.is_ok()).count();
    assert_eq!(winners, 1);
    for r in &results[1..] {
        assert_eq!(r.as_ref().unwrap_err(), &StoreError::Conflict);
    }
    assert_eq!(store.read().unwrap().port, 9000);
    assert_eq!(store.read().unwrap().version, 2);
}

#[test]
fn conflict_leaves_record_untouched() {
    let mut store = initialized();
    assert_eq!(
        store.compare_and_update(7, FieldValue::Port(9000)).unwrap_err(),
        StoreError::Conflict
    );
    let c = store.read().unwrap();
    assert_eq!((c.port, c.version), (8080, 1));
}

#[test]
fn update_before_initialize_is_not_initialized() {
    let mut store = ConfigStore::new();
    assert_eq!(
        store.compare_and_update(1, FieldValue::Port(9000)).unwrap_err(),
        StoreError::NotInitialized
    );
    assert_eq!(store.reset_field(ResetCommand::Domain).unwrap_err(), StoreError::NotInitialized);
}

#[test]
fn validation_errors_are_not_applied() {
    let mut store = initialized();
    let cases = vec![
        (FieldValue::Username(String::new()), ValidationError::EmptyUsername),
        (FieldValue::Username(String::from("admin")), ValidationError::PasswordNotSet),
        (FieldValue::PasswordHash(String::new()), ValidationError::EmptyPassword),
        (FieldValue::Host(String::new()), ValidationError::EmptyHost),
        (FieldValue::Port(0), ValidationError::PortOutOfRange),
        (FieldValue::Port(65536), ValidationError::PortOutOfRange),
    ];
    for (v, e) in cases {
        assert_eq!(store.compare_and_update(1, v).unwrap_err(), StoreError::Validation(e));
    }
    assert_eq!(store.read().unwrap().version, 1);
}

#[test]
fn username_after_password_is_accepted() {
    let mut store = initialized();
    store.compare_and_update(1, FieldValue::PasswordHash(String::from("$hash"))).unwrap();
    let c = store.compare_and_update(2, FieldValue::Username(String::from("admin"))).unwrap();
    assert_eq!(c.username, "admin");
    assert_eq!(c.password_hash, "$hash");
    assert_eq!(c.version, 3);
}

#[test]
fn port_edges_are_accepted() {
    let mut store = initialized();
    assert_eq!(store.compare_and_update(1, FieldValue::Port(1)).unwrap().port, 1);
    assert_eq!(store.compare_and_update(2, FieldValue::Port(65535)).unwrap().port, 65535);
}

fn row(port: i64, version: i64) -> ConfigRow {
    ConfigRow {
        username: String::from("admin"),
        password_hash: String::from("$hash"),
        host: String::from("10.0.0.1"),
        port,
        domain: Some(String::from("example.org")),
        tls_cert_ref: Some(String::from("cert-1")),
        ip_allowlist: vec![String::from("10.0.0.2"), String::from("10.0.0.3")],
        version,
    }
}

#[test]
fn reset_returns_each_field_to_its_default() {
    let c = ServerConfig::from_row(row(9000, 4)).unwrap();
    let mut store = ConfigStore::open(c);
    let d = store.reset_field(ResetCommand::Domain).unwrap();
    assert_eq!(d.domain, None);
    assert_eq!(d.tls_cert_ref, Some(String::from("cert-1")));
    let e = store.reset_field(ResetCommand::Entry).unwrap();
    assert!(e.ip_allowlist.is_empty());
    let i = store.reset_field(ResetCommand::IP).unwrap();
    assert_eq!((i.host.as_str(), i.port), ("127.0.0.1", DEFAULT_PORT));
    let h = store.reset_field(ResetCommand::Htps).unwrap();
    assert_eq!(h.tls_cert_ref, None);
    let now = store.read().unwrap();
    assert_eq!(now.version, 8);
    assert_eq!(now.domain, None);
    assert!(now.ip_allowlist.is_empty());
    assert_eq!(now.username, "admin");
}

#[test]
fn update_port_survives_reopen() {
    let mut store = initialized();
    store.compare_and_update(1, FieldValue::Port(9090)).unwrap();
    let stored = store.read().unwrap().to_row();
    let reopened = ConfigStore::open(ServerConfig::from_row(stored).unwrap());
    let c = reopened.read().unwrap();
    assert_eq!(c.port, 9090);
    assert_eq!(c.version, 2);
}

#[test]
fn row_round_trip_keeps_every_field() {
    let c = ServerConfig::from_row(row(9000, 4)).unwrap();
    let back = ServerConfig::from_row(c.to_row()).unwrap();
    assert_eq!(back.username, "admin");
    assert_eq!(back.password_hash, "$hash");
    assert_eq!(back.host, "10.0.0.1");
    assert_eq!(back.port, 9000);
    assert_eq!(back.domain, Some(String::from("example.org")));
    assert_eq!(back.tls_cert_ref, Some(String::from("cert-1")));
    assert_eq!(back.ip_allowlist, vec![String::from("10.0.0.2"), String::from("10.0.0.3")]);
    assert_eq!(back.version, 4);
}

#[test]
fn corrupt_rows_are_reported_not_repaired() {
    assert_eq!(ServerConfig::from_row(row(0, 1)).unwrap_err(), StoreError::StorageCorrupt);
    assert_eq!(ServerConfig::from_row(row(70000, 1)).unwrap_err(), StoreError::StorageCorrupt);
    assert_eq!(ServerConfig::from_row(row(8080, 0)).unwrap_err(), StoreError::StorageCorrupt);
    let mut no_host = row(8080, 1);
    no_host.host = String::new();
    assert_eq!(ServerConfig::from_row(no_host).unwrap_err(), StoreError::StorageCorrupt);
    let mut repeated = row(8080, 1);
    repeated.ip_allowlist.push(String::from("10.0.0.2"));
    assert_eq!(ServerConfig::from_row(repeated).unwrap_err(), StoreError::StorageCorrupt);
    let mut no_password = row(8080, 1);
    no_password.password_hash = String::new();
    assert_eq!(ServerConfig::from_row(no_password).unwrap_err(), StoreError::StorageCorrupt);
}

#[test]
fn exhausted_version_refuses_writes() {
    let c = ServerConfig::from_row(row(8080, i64::MAX)).unwrap();
    let mut store = ConfigStore::open(c);
    assert_eq!(
        store.compare_and_update(i64::MAX as u64, FieldValue::Port(9000)).unwrap_err(),
        StoreError::VersionExhausted
    );
    assert_eq!(store.reset_field(ResetCommand::Domain).unwrap_err(), StoreError::VersionExhausted);
    assert_eq!(store.read().unwrap().port, 8080);
}
