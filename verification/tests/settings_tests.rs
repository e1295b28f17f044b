use bacli::settings::{decode_bool, encode_bool, Frequency, Settings, Voltage};
use bacli::wire::StringOrInt;

fn get_int(pairs: &[(String, StringOrInt)], key: &str) -> Option<i64> {
    pairs.iter().find(|p| p.0 == key).and_then(|p| p.1.as_int())
}

fn has_key(pairs: &[(String, StringOrInt)], key: &str) -> bool {
    pairs.iter().any(|p| p.0 == key)
}

#[test]
fn ensure_bools_parse_correctly() {
    let input = vec![
        ("autofanspeed".to_string(), StringOrInt::Int(1)),
        ("flipscreen".to_string(), StringOrInt::Int(0)),
        ("invertfanpolarity".to_string(), StringOrInt::Int(1)),
        ("invertscreen".to_string(), StringOrInt::Int(1)),
        ("overheat_mode".to_string(), StringOrInt::Int(0)),
    ];
    let settings: Settings = Settings::from_pairs(&input).unwrap();

    assert!(settings.autofanspeed.unwrap());
    assert!(!settings.flip_screen.unwrap());
    assert!(settings.invert_fan_polarity.unwrap());
    assert!(settings.invert_screen.unwrap());
    assert!(!settings.overheat_mode.unwrap());
}

#[test]
fn ensure_bools_output_correctly() {
    let settings = Settings {
        autofanspeed: Some(true),
        flip_screen: Some(false),
        invert_fan_polarity: Some(true),
        invert_screen: Some(true),
        overheat_mode: Some(false),
        ..Default::default()
    };
    let output = settings.to_pairs();

    assert_eq!(get_int(&output, "autofanspeed").unwrap(), 1);
    assert_eq!(get_int(&output, "flipscreen").unwrap(), 0);
    assert_eq!(get_int(&output, "invertfanpolarity").unwrap(), 1);
    assert_eq!(get_int(&output, "invertscreen").unwrap(), 1);
    assert_eq!(get_int(&output, "overheat_mode").unwrap(), 0);
}

#[test]
fn ensure_frequency_parses_correctly() {
    let input = vec![("frequency".to_string(), StringOrInt::Int(400))];
    let settings: Settings = Settings::from_pairs(&input).unwrap();

    assert_eq!(settings.frequency.unwrap(), Frequency::FourHundred);
}

#[test]
fn ensure_frequency_outputs_correctly() {
    let settings = Settings { frequency: Some(Frequency::SixHundred), ..Default::default() };
    let output = settings.to_pairs();

    assert_eq!(get_int(&output, "frequency").unwrap(), 600);
}

#[test]
fn ensure_voltage_parses_correctly() {
    let input = vec![("coreVoltage".to_string(), StringOrInt::Int(1250))];
    let settings: Settings = Settings::from_pairs(&input).unwrap();

    assert_eq!(settings.core_voltage.unwrap(), Voltage::OneThousandTwoHundredFifty);
}

#[test]
fn ensure_voltage_outputs_correctly() {
    let settings = Settings { core_voltage: Some(Voltage::OneThousandOneHundred), ..Default::default() };
    let output = settings.to_pairs();

    assert_eq!(get_int(&output, "coreVoltage").unwrap(), 1100);
}

#[test]
fn bool_wire_values_round_trip() {
    assert_eq!(encode_bool(true), 1);
    assert_eq!(encode_bool(false), 0);
    assert_eq!(decode_bool(1), Some(true));
    assert_eq!(decode_bool(0), Some(false));
    assert_eq!(decode_bool(2), None);
    assert_eq!(decode_bool(-1), None);
    assert_eq!(decode_bool(encode_bool(true)), Some(true));
    assert_eq!(decode_bool(encode_bool(false)), Some(false));
}

#[test]
fn unset_fields_are_absent_from_the_payload() {
    let empty = Settings::default();
    assert!(empty.to_pairs().is_empty());

    let partial = Settings {
        hostname: Some("miner".to_string()),
        stratum_port: Some(3333),
        autofanspeed: Some(true),
        ..Default::default()
    };
    let output = partial.to_pairs();
    assert_eq!(output.len(), 3);
    assert!(has_key(&output, "hostname"));
    assert!(has_key(&output, "stratumPort"));
    assert!(has_key(&output, "autofanspeed"));
    assert!(!has_key(&output, "ssid"));
    assert!(!has_key(&output, "flipscreen"));
    assert!(!has_key(&output, "coreVoltage"));
    assert_eq!(output[0].0, "hostname");
    assert_eq!(output[0].1.as_str(), Some("miner"));
    assert_eq!(output[1].0, "stratumPort");
    assert_eq!(output[1].1.as_int(), Some(3333));
    assert_eq!(output[2].0, "autofanspeed");
    assert_eq!(output[2].1.as_int(), Some(1));
}

#[test]
fn malformed_values_are_a_decode_error() {
    let bad_bool = vec![("autofanspeed".to_string(), StringOrInt::Int(2))];
    let r = Settings::from_pairs(&bad_bool);
    assert!(matches!(r, Err(bacli::models::Error::Decode(_))));

    let bad_port = vec![("stratumPort".to_string(), StringOrInt::Int(65536))];
    assert!(Settings::from_pairs(&bad_port).is_err());

    let bad_frequency = vec![("frequency".to_string(), StringOrInt::Int(450))];
    assert!(Settings::from_pairs(&bad_frequency).is_err());

    let wrong_type = vec![("hostname".to_string(), StringOrInt::Int(5))];
    assert!(Settings::from_pairs(&wrong_type).is_err());
}

#[test]
fn unknown_keys_are_ignored_when_decoding() {
    let input = vec![
        ("somethingElse".to_string(), StringOrInt::Int(7)),
        ("hostname".to_string(), StringOrInt::String("miner".to_string())),
    ];
    let settings = Settings::from_pairs(&input).unwrap();
    assert_eq!(settings.hostname.as_deref(), Some("miner"));
    assert!(settings.ssid.is_none());
}

#[test]
fn encoding_then_decoding_preserves_a_patch() {
    let patch = Settings {
        hostname: Some("miner".to_string()),
        ssid: Some("wifi".to_string()),
        stratum_port: Some(3333),
        fanspeed: Some(80),
        autofanspeed: Some(false),
        core_voltage: Some(Voltage::OneThousandTwoHundred),
        frequency: Some(Frequency::FiveHundredTwentyFive),
        overheat_mode: Some(true),
        ..Default::default()
    };
    let decoded = Settings::from_pairs(&patch.to_pairs()).unwrap();
    assert_eq!(decoded.hostname.as_deref(), Some("miner"));
    assert_eq!(decoded.ssid.as_deref(), Some("wifi"));
    assert_eq!(decoded.stratum_port, Some(3333));
    assert_eq!(decoded.fanspeed, Some(80));
    assert_eq!(decoded.autofanspeed, Some(false));
    assert_eq!(decoded.core_voltage, Some(Voltage::OneThousandTwoHundred));
    assert_eq!(decoded.frequency, Some(Frequency::FiveHundredTwentyFive));
    assert_eq!(decoded.overheat_mode, Some(true));
    assert!(decoded.wifi_pass.is_none());
    assert!(decoded.stratum_url.is_none());
}

#[test]
fn clock_values_map_to_their_wire_numbers() {
    assert_eq!(Frequency::FourHundred.mhz(), 400);
    assert_eq!(Frequency::FourHundredNinety.mhz(), 490);
    assert_eq!(Frequency::FiveHundredTwentyFive.mhz(), 525);
    assert_eq!(Frequency::FiveHundredFifty.mhz(), 550);
    assert_eq!(Frequency::FiveHundredSeventyFive.mhz(), 575);
    assert_eq!(Frequency::SixHundred.mhz(), 600);
    assert_eq!(Frequency::from_mhz(490), Some(Frequency::FourHundredNinety));
    assert_eq!(Frequency::from_mhz(500), None);
    assert_eq!(Voltage::OneThousand.millivolts(), 1000);
    assert_eq!(Voltage::OneThousandTwoHundredFifty.millivolts(), 1250);
    assert_eq!(Voltage::from_millivolts(1150), Some(Voltage::OneThousandOneHundredFifty));
    assert_eq!(Voltage::from_millivolts(1300), None);
}
