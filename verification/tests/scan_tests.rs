use bacli::config::{AppConfig, Config, Device};
use bacli::models::SystemInfo;
use bacli::scan::{
    collect_responses, ipv4_to_string, save_new_devices, scan_rows, scan_targets,
};

fn addr(a: u8, b: u8, c: u8, d: u8) -> u32 {
    u32::from_be_bytes([a, b, c, d])
}

fn info(version: &str, board: &str) -> SystemInfo {
    SystemInfo { version: version.to_string(), board_version: board.to_string() }
}

fn empty_config() -> Config {
    Config::new("config.yaml".to_string(), AppConfig { devices: Vec::new() })
}

#[test]
fn slash_24_probes_all_256_addresses_once_ascending() {
    let targets = scan_targets(addr(192, 168, 1, 1), addr(255, 255, 255, 0)).unwrap();
    assert_eq!(targets.len(), 256);
    assert_eq!(targets[0], addr(192, 168, 1, 0));
    assert_eq!(targets[255], addr(192, 168, 1, 255));
    for (i, t) in targets.iter().enumerate() {
        assert_eq!(*t, addr(192, 168, 1, 0) + i as u32);
    }
    for w in targets.windows(2) {
        assert!(w[0] < w[1]);
    }
}

#[test]
fn host_mask_probes_the_base_alone() {
    let targets = scan_targets(addr(10, 1, 2, 3), addr(255, 255, 255, 255)).unwrap();
    assert_eq!(targets, vec![addr(10, 1, 2, 3)]);
}

#[test]
fn slash_30_probes_its_four_addresses() {
    let targets = scan_targets(addr(10, 0, 0, 6), addr(255, 255, 255, 252)).unwrap();
    assert_eq!(
        targets,
        vec![addr(10, 0, 0, 4), addr(10, 0, 0, 5), addr(10, 0, 0, 6), addr(10, 0, 0, 7)]
    );
}

#[test]
fn an_invalid_mask_is_rejected() {
    assert!(scan_targets(addr(192, 168, 1, 1), addr(255, 0, 255, 0)).is_none());
    assert!(scan_targets(addr(192, 168, 1, 1), addr(0, 255, 255, 255)).is_none());
    assert!(scan_targets(addr(192, 168, 1, 1), addr(255, 255, 255, 253)).is_none());
}

#[test]
fn collection_keeps_exactly_the_responders_in_range_order() {
    let probes = vec![
        (addr(192, 168, 1, 0), None),
        (addr(192, 168, 1, 1), Some(info("v2.1.0", "204"))),
        (addr(192, 168, 1, 2), None),
        (addr(192, 168, 1, 3), Some(info("v2.0.0", "401"))),
        (addr(192, 168, 1, 4), None),
    ];
    let found = collect_responses(probes);
    assert_eq!(found.len(), 2);
    assert_eq!(found[0].0, addr(192, 168, 1, 1));
    assert_eq!(found[0].1.version, "v2.1.0");
    assert_eq!(found[1].0, addr(192, 168, 1, 3));
    assert_eq!(found[1].1.board_version, "401");
}

#[test]
fn collection_of_silence_is_empty() {
    let probes = vec![(addr(10, 0, 0, 1), None), (addr(10, 0, 0, 2), None)];
    assert!(collect_responses(probes).is_empty());
}

#[test]
fn dotted_rendering_of_addresses() {
    assert_eq!(ipv4_to_string(addr(192, 168, 1, 1)), "192.168.1.1");
    assert_eq!(ipv4_to_string(0), "0.0.0.0");
    assert_eq!(ipv4_to_string(u32::MAX), "255.255.255.255");
    assert_eq!(ipv4_to_string(addr(10, 0, 20, 3)), "10.0.20.3");
}

#[test]
fn rows_show_the_alias_the_book_knows() {
    let config = Config::new(
        "config.yaml".to_string(),
        AppConfig {
            devices: vec![Device {
                base: "192.168.1.7".to_string(),
                alias: Some("attic".to_string()),
            }],
        },
    );
    let results = vec![
        (addr(192, 168, 1, 7), info("v2.1.0", "204")),
        (addr(192, 168, 1, 9), info("v2.0.0", "401")),
    ];
    let rows = scan_rows(&config, &results);
    assert_eq!(rows.len(), 2);
    assert_eq!(rows[0].address, "192.168.1.7");
    assert_eq!(rows[0].alias, "attic");
    assert_eq!(rows[0].board_version, "204");
    assert_eq!(rows[0].version, "v2.1.0");
    assert_eq!(rows[1].address, "192.168.1.9");
    assert_eq!(rows[1].alias, "None");
}

#[test]
fn saving_appends_only_the_unknown_addresses() {
    let mut config = Config::new(
        "config.yaml".to_string(),
        AppConfig {
            devices: vec![Device {
                base: "192.168.1.7".to_string(),
                alias: Some("attic".to_string()),
            }],
        },
    );
    let results = vec![
        (addr(192, 168, 1, 7), info("v2.1.0", "204")),
        (addr(192, 168, 1, 9), info("v2.0.0", "401")),
    ];
    save_new_devices(&mut config, &results);
    let devices = config.get_devices();
    assert_eq!(devices.len(), 2);
    assert_eq!(devices[0].base, "192.168.1.7");
    assert_eq!(devices[0].alias.as_deref(), Some("attic"));
    assert_eq!(devices[1].base, "192.168.1.9");
    assert!(devices[1].alias.is_none());
}

#[test]
fn saving_twice_adds_nothing_new() {
    let mut config = empty_config();
    let results = vec![(addr(10, 0, 0, 5), info("v2.1.0", "204"))];
    save_new_devices(&mut config, &results);
    save_new_devices(&mut config, &results);
    assert_eq!(config.get_devices().len(), 1);
    assert_eq!(config.get_devices()[0].base, "10.0.0.5");
}
