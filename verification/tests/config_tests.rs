use bacli::config::{list_rows, resolve_base, AppConfig, Config, Device};

fn device(base: &str, alias: Option<&str>) -> Device {
    Device { base: base.to_string(), alias: alias.map(|a| a.to_string()) }
}

fn book(devices: Vec<Device>) -> Config {
    Config::new("config.yaml".to_string(), AppConfig { devices })
}

#[test]
fn an_identifier_names_a_device_by_base_or_alias() {
    let d = device("192.168.1.7", Some("attic"));
    assert!(d.matches_ident("192.168.1.7"));
    assert!(d.matches_ident("attic"));
    assert!(!d.matches_ident("cellar"));
    assert!(!d.matches_ident(""));

    let bare = device("192.168.1.8", None);
    assert!(bare.matches_ident("192.168.1.8"));
    assert!(!bare.matches_ident("attic"));
}

#[test]
fn lookup_returns_the_first_match() {
    let config = book(vec![
        device("192.168.1.7", Some("miner")),
        device("192.168.1.8", Some("miner")),
    ]);
    let found = config.get_device("miner").unwrap();
    assert_eq!(found.base, "192.168.1.7");
    assert!(config.get_device("cellar").is_none());
}

#[test]
fn emptiness_and_listing() {
    let empty = book(Vec::new());
    assert!(empty.is_empty());
    assert!(list_rows(&empty).is_empty());

    let config = book(vec![device("192.168.1.7", Some("attic")), device("192.168.1.8", None)]);
    assert!(!config.is_empty());
    assert_eq!(config.get_devices().len(), 2);
    let rows = list_rows(&config);
    assert_eq!(rows, vec![
        ("192.168.1.7".to_string(), "attic".to_string()),
        ("192.168.1.8".to_string(), String::new()),
    ]);
}

#[test]
fn upsert_renames_a_known_device() {
    let mut config = book(vec![device("192.168.1.7", Some("attic"))]);
    config.upsert_device("192.168.1.7", Some("cellar".to_string()));
    assert_eq!(config.get_devices().len(), 1);
    assert_eq!(config.get_devices()[0].alias.as_deref(), Some("cellar"));
}

#[test]
fn upsert_appends_an_unknown_device() {
    let mut config = book(vec![device("192.168.1.7", Some("attic"))]);
    config.upsert_device("192.168.1.9", None);
    assert_eq!(config.get_devices().len(), 2);
    assert_eq!(config.get_devices()[1].base, "192.168.1.9");
    assert!(config.get_devices()[1].alias.is_none());
}

#[test]
fn resolution_prefers_the_book_and_falls_back_to_the_identifier() {
    let config = book(vec![device("192.168.1.7", Some("attic"))]);
    assert_eq!(resolve_base(&config, "attic".to_string()), "192.168.1.7");
    assert_eq!(resolve_base(&config, "192.168.1.7".to_string()), "192.168.1.7");
    assert_eq!(resolve_base(&config, "10.0.0.3".to_string()), "10.0.0.3");
}

#[test]
fn a_mutable_lookup_edits_the_device_in_place() {
    let mut config = book(vec![device("192.168.1.7", Some("attic"))]);
    let d = config.get_device_mut("attic").unwrap();
    d.alias = Some("cellar".to_string());
    assert_eq!(config.get_devices()[0].alias.as_deref(), Some("cellar"));
    assert!(config.get_device_mut("cellar").is_some());
    assert!(config.get_device_mut("attic").is_none());
}
