//! The sparse settings patch sent to a device, and its wire codec.
//!
//! The device's settings endpoint treats presence as "set this field":
//! a field a caller leaves unset must be omitted from the payload
//! entirely, never sent as null or zero. The codec here therefore
//! enumerates explicitly which present fields map to which wire keys
//! and skips absent ones. Boolean fields travel as 0/1 integers, the
//! clocking fields as their numeric values.

use vstd::prelude::*;

use crate::models::Error;
use crate::text::str_eq;
use crate::wire::{StringOrInt, WireValue};

verus! {

/// The ASIC clock frequencies a device accepts, in MHz on the wire.
#[derive(Debug, Clone, Copy, PartialEq, Eq, Structural)]
pub enum Frequency {
    FourHundred,
    FourHundredNinety,
    FiveHundredTwentyFive,
    FiveHundredFifty,
    FiveHundredSeventyFive,
    SixHundred,
}

impl Frequency {
    /// The wire value: the frequency in MHz.
    pub open spec fn spec_mhz(self) -> u16 {
        match self {
            Frequency::FourHundred => 400u16,
            Frequency::FourHundredNinety => 490u16,
            Frequency::FiveHundredTwentyFive => 525u16,
            Frequency::FiveHundredFifty => 550u16,
            Frequency::FiveHundredSeventyFive => 575u16,
            Frequency::SixHundred => 600u16,
        }
    }

    pub fn mhz(self) -> (r: u16)
        ensures
            r == self.spec_mhz(),
    {
        match self {
            Frequency::FourHundred => 400,
            Frequency::FourHundredNinety => 490,
            Frequency::FiveHundredTwentyFive => 525,
            Frequency::FiveHundredFifty => 550,
            Frequency::FiveHundredSeventyFive => 575,
            Frequency::SixHundred => 600,
        }
    }

    /// Which frequency a wire value denotes, if any.
    pub open spec fn spec_from_mhz(v: i64) -> Option<Frequency> {
        if v == 400 {
            Some(Frequency::FourHundred)
        } else if v == 490 {
            Some(Frequency::FourHundredNinety)
        } else if v == 525 {
            Some(Frequency::FiveHundredTwentyFive)
        } else if v == 550 {
            Some(Frequency::FiveHundredFifty)
        } else if v == 575 {
            Some(Frequency::FiveHundredSeventyFive)
        } else if v == 600 {
            Some(Frequency::SixHundred)
        } else {
            None
        }
    }

    pub fn from_mhz(v: i64) -> (r: Option<Frequency>)
        ensures
            r == Self::spec_from_mhz(v),
    {
        if v == 400 {
            Some(Frequency::FourHundred)
        } else if v == 490 {
            Some(Frequency::FourHundredNinety)
        } else if v == 525 {
            Some(Frequency::FiveHundredTwentyFive)
        } else if v == 550 {
            Some(Frequency::FiveHundredFifty)
        } else if v == 575 {
            Some(Frequency::FiveHundredSeventyFive)
        } else if v == 600 {
            Some(Frequency::SixHundred)
        } else {
            None
        }
    }
}

/// The ASIC core voltages a device accepts, in millivolts on the wire.
#[derive(Debug, Clone, Copy, PartialEq, Eq, Structural)]
pub enum Voltage {
    OneThousand,
    OneThousandSixty,
    OneThousandOneHundred,
    OneThousandOneHundredFifty,
    OneThousandTwoHundred,
    OneThousandTwoHundredFifty,
}

impl Voltage {
    /// The wire value: the core voltage in millivolts.
    pub open spec fn spec_millivolts(self) -> u16 {
        match self {
            Voltage::OneThousand => 1000u16,
            Voltage::OneThousandSixty => 1060u16,
            Voltage::OneThousandOneHundred => 1100u16,
            Voltage::OneThousandOneHundredFifty => 1150u16,
            Voltage::OneThousandTwoHundred => 1200u16,
            Voltage::OneThousandTwoHundredFifty => 1250u16,
        }
    }

    pub fn millivolts(self) -> (r: u16)
        ensures
            r == self.spec_millivolts(),
    {
        match self {
            Voltage::OneThousand => 1000,
            Voltage::OneThousandSixty => 1060,
            Voltage::OneThousandOneHundred => 1100,
            Voltage::OneThousandOneHundredFifty => 1150,
            Voltage::OneThousandTwoHundred => 1200,
            Voltage::OneThousandTwoHundredFifty => 1250,
        }
    }

    /// Which voltage a wire value denotes, if any.
    pub open spec fn spec_from_millivolts(v: i64) -> Option<Voltage> {
        if v == 1000 {
            Some(Voltage::OneThousand)
        } else if v == 1060 {
            Some(Voltage::OneThousandSixty)
        } else if v == 1100 {
            Some(Voltage::OneThousandOneHundred)
        } else if v == 1150 {
            Some(Voltage::OneThousandOneHundredFifty)
        } else if v == 1200 {
            Some(Voltage::OneThousandTwoHundred)
        } else if v == 1250 {
            Some(Voltage::OneThousandTwoHundredFifty)
        } else {
            None
        }
    }

    pub fn from_millivolts(v: i64) -> (r: Option<Voltage>)
        ensures
            r == Self::spec_from_millivolts(v),
    {
        if v == 1000 {
            Some(Voltage::OneThousand)
        } else if v == 1060 {
            Some(Voltage::OneThousandSixty)
        } else if v == 1100 {
            Some(Voltage::OneThousandOneHundred)
        } else if v == 1150 {
            Some(Voltage::OneThousandOneHundredFifty)
        } else if v == 1200 {
            Some(Voltage::OneThousandTwoHundred)
        } else if v == 1250 {
            Some(Voltage::OneThousandTwoHundredFifty)
        } else {
            None
        }
    }
}

/// How a boolean settings field is put on the wire: 1 for true, 0 for
/// false.
pub open spec fn spec_encode_bool(b: bool) -> i64 {
    if b {
        1
    } else {
        0
    }
}

/// How a wire integer is read back as a boolean settings field: 1 is
/// true, 0 is false, anything else is malformed.
pub open spec fn spec_decode_bool(v: i64) -> Option<bool> {
    if v == 1 {
        Some(true)
    } else if v == 0 {
        Some(false)
    } else {
        None
    }
}

pub fn encode_bool(b: bool) -> (r: i64)
    ensures
        r == spec_encode_bool(b),
{
    if b {
        1
    } else {
        0
    }
}

pub fn decode_bool(v: i64) -> (r: Option<bool>)
    ensures
        r == spec_decode_bool(v),
{
    if v == 1 {
        Some(true)
    } else if v == 0 {
        Some(false)
    } else {
        None
    }
}

/// Boolean settings fields travel as 0/1 integers: encoding true gives
/// 1 and false gives 0, decoding 1 gives true and 0 gives false, and
/// the two compose to the identity on every boolean.
pub proof fn lemma_bool_wire_round_trip(b: bool)
    ensures
        spec_encode_bool(true) == 1,
        spec_encode_bool(false) == 0,
        spec_decode_bool(1) == Some(true),
        spec_decode_bool(0) == Some(false),
        spec_decode_bool(spec_encode_bool(b)) == Some(b),
{
}

/// A frequency put on the wire comes back as itself, and so does a
/// voltage: the clocking codecs are inverses on every accepted value.
pub proof fn lemma_clock_wire_round_trip(f: Frequency, v: Voltage)
    ensures
        Frequency::spec_from_mhz(f.spec_mhz() as i64) == Some(f),
        Voltage::spec_from_millivolts(v.spec_millivolts() as i64) == Some(v),
{
}

/// A sparse settings patch: only the fields a caller wants to change
/// are set, and only those appear in the wire payload.
#[derive(Debug, Clone)]
pub struct Settings {
    /// The hostname of the device.
    pub hostname: Option<String>,
    /// The SSID of the Wifi network the device should connect to.
    pub ssid: Option<String>,
    /// The password of the Wifi network the device should connect to.
    pub wifi_pass: Option<String>,
    /// The URL of the main Stratum server to connect to.
    pub stratum_url: Option<String>,
    /// The port of the main Stratum server to connect to.
    pub stratum_port: Option<u16>,
    /// The username to use for the main Stratum server.
    pub stratum_user: Option<String>,
    /// The password to use for the main Stratum server.
    pub stratum_password: Option<String>,
    /// The URL of the fallback Stratum server to connect to.
    pub fallback_stratum_url: Option<String>,
    /// The port of the fallback Stratum server to connect to.
    pub fallback_stratum_port: Option<u16>,
    /// The username to use for the fallback Stratum server.
    pub fallback_stratum_user: Option<String>,
    /// The password to use for the fallback Stratum server.
    pub fallback_stratum_password: Option<String>,
    /// The percentage of the fan speed to be applied.
    pub fanspeed: Option<u8>,
    /// Enable/disable automatic fan speed management.
    pub autofanspeed: Option<bool>,
    /// Core voltage.
    pub core_voltage: Option<Voltage>,
    /// Frequency.
    pub frequency: Option<Frequency>,
    /// Whether to flip the screen.
    pub flip_screen: Option<bool>,
    /// Whether to invert the fan polarity.
    pub invert_fan_polarity: Option<bool>,
    /// Whether to invert the screen.
    pub invert_screen: Option<bool>,
    /// Enable/disable overheat mode, usually to clear it after it was
    /// engaged automatically on an overheat.
    pub overheat_mode: Option<bool>,
}

impl Default for Settings {
    /// The empty patch: nothing set, so nothing is sent.
    fn default() -> (r: Self)
        ensures
            r == spec_empty_settings(),
    {
        Settings {
            hostname: None,
            ssid: None,
            wifi_pass: None,
            stratum_url: None,
            stratum_port: None,
            stratum_user: None,
            stratum_password: None,
            fallback_stratum_url: None,
            fallback_stratum_port: None,
            fallback_stratum_user: None,
            fallback_stratum_password: None,
            fanspeed: None,
            autofanspeed: None,
            core_voltage: None,
            frequency: None,
            flip_screen: None,
            invert_fan_polarity: None,
            invert_screen: None,
            overheat_mode: None,
        }
    }
}

/// The mathematical shape of a wire payload: keyed wire scalars in
/// emission order.
pub open spec fn entries_of(ps: Seq<(String, StringOrInt)>) -> Seq<(Seq<char>, WireValue)> {
    ps.map_values(|p: (String, StringOrInt)| (p.0@, p.1@))
}

/// The entry a set text field contributes, and the nothing an unset
/// one contributes.
pub open spec fn opt_text_entry(key: Seq<char>, v: Option<String>) -> Seq<(Seq<char>, WireValue)> {
    match v {
        Some(s) => seq![(key, WireValue::String(s@))],
        None => seq![],
    }
}

/// The entry a set integer-carrying field contributes, and the nothing
/// an unset one contributes.
pub open spec fn opt_int_entry(key: Seq<char>, v: Option<i64>) -> Seq<(Seq<char>, WireValue)> {
    match v {
        Some(i) => seq![(key, WireValue::Int(i as int))],
        None => seq![],
    }
}

/// A port field as its wire integer.
pub open spec fn spec_opt_u16(v: Option<u16>) -> Option<i64> {
    match v {
        Some(p) => Some(p as i64),
        None => None,
    }
}

/// A percentage field as its wire integer.
pub open spec fn spec_opt_u8(v: Option<u8>) -> Option<i64> {
    match v {
        Some(p) => Some(p as i64),
        None => None,
    }
}

/// A boolean field as its wire integer, 1 for true and 0 for false.
pub open spec fn spec_opt_bool(v: Option<bool>) -> Option<i64> {
    match v {
        Some(b) => Some(spec_encode_bool(b)),
        None => None,
    }
}

/// A frequency field as its wire integer, in MHz.
pub open spec fn spec_opt_frequency(v: Option<Frequency>) -> Option<i64> {
    match v {
        Some(f) => Some(f.spec_mhz() as i64),
        None => None,
    }
}

/// A voltage field as its wire integer, in millivolts.
pub open spec fn spec_opt_voltage(v: Option<Voltage>) -> Option<i64> {
    match v {
        Some(v) => Some(v.spec_millivolts() as i64),
        None => None,
    }
}

fn push_text_field(out: &mut Vec<(String, StringOrInt)>, key: &str, value: &Option<String>)
    ensures
        entries_of(final(out)@) == entries_of(old(out)@) + opt_text_entry(key@, *value),
{
    match value {
        Some(s) => {
            out.push((key.to_owned(), StringOrInt::String(s.clone())));
        },
        None => {},
    }
    proof {
        assert(entries_of(out@) =~= entries_of(old(out)@) + opt_text_entry(key@, *value));
    }
}

fn push_int_field(out: &mut Vec<(String, StringOrInt)>, key: &str, value: Option<i64>)
    ensures
        entries_of(final(out)@) == entries_of(old(out)@) + opt_int_entry(key@, value),
{
    match value {
        Some(i) => {
            out.push((key.to_owned(), StringOrInt::Int(i)));
        },
        None => {},
    }
    proof {
        assert(entries_of(out@) =~= entries_of(old(out)@) + opt_int_entry(key@, value));
    }
}

/// The wire payload of a patch: one entry per set field, in field
/// order, under the device API's wire keys, with booleans as 0/1 and
/// the clocking fields as their numeric values. Unset fields
/// contribute nothing.
pub open spec fn spec_entries(s: Settings) -> Seq<(Seq<char>, WireValue)> {
    opt_text_entry("hostname"@, s.hostname) + opt_text_entry("ssid"@, s.ssid) + opt_text_entry(
        "wifiPass"@,
        s.wifi_pass,
    ) + opt_text_entry("stratumURL"@, s.stratum_url) + opt_int_entry(
        "stratumPort"@,
        spec_opt_u16(s.stratum_port),
    ) + opt_text_entry("stratumUser"@, s.stratum_user) + opt_text_entry(
        "stratumPassword"@,
        s.stratum_password,
    ) + opt_text_entry("fallbackStratumURL"@, s.fallback_stratum_url) + opt_int_entry(
        "fallbackStratumPort"@,
        spec_opt_u16(s.fallback_stratum_port),
    ) + opt_text_entry("fallbackStratumUser"@, s.fallback_stratum_user) + opt_text_entry(
        "fallbackStratumPassword"@,
        s.fallback_stratum_password,
    ) + opt_int_entry("fanspeed"@, spec_opt_u8(s.fanspeed)) + opt_int_entry(
        "autofanspeed"@,
        spec_opt_bool(s.autofanspeed),
    ) + opt_int_entry("coreVoltage"@, spec_opt_voltage(s.core_voltage)) + opt_int_entry(
        "frequency"@,
        spec_opt_frequency(s.frequency),
    ) + opt_int_entry("flipscreen"@, spec_opt_bool(s.flip_screen)) + opt_int_entry(
        "invertfanpolarity"@,
        spec_opt_bool(s.invert_fan_polarity),
    ) + opt_int_entry("invertscreen"@, spec_opt_bool(s.invert_screen)) + opt_int_entry(
        "overheat_mode"@,
        spec_opt_bool(s.overheat_mode),
    )
}

impl Settings {
    /// Serialize the patch for the device's settings endpoint: exactly
    /// the set fields, keyed and encoded as [`spec_entries`] lays down.
    pub fn to_pairs(&self) -> (r: Vec<(String, StringOrInt)>)
        ensures
            entries_of(r@) == spec_entries(*self),
    {
        let mut out: Vec<(String, StringOrInt)> = Vec::new();
        push_text_field(&mut out, "hostname", &self.hostname);
        push_text_field(&mut out, "ssid", &self.ssid);
        push_text_field(&mut out, "wifiPass", &self.wifi_pass);
        push_text_field(&mut out, "stratumURL", &self.stratum_url);
        let stratum_port: Option<i64> = match &self.stratum_port {
            Some(p) => Some(*p as i64),
            None => None,
        };
        push_int_field(&mut out, "stratumPort", stratum_port);
        push_text_field(&mut out, "stratumUser", &self.stratum_user);
        push_text_field(&mut out, "stratumPassword", &self.stratum_password);
        push_text_field(&mut out, "fallbackStratumURL", &self.fallback_stratum_url);
        let fallback_stratum_port: Option<i64> = match &self.fallback_stratum_port {
            Some(p) => Some(*p as i64),
            None => None,
        };
        push_int_field(&mut out, "fallbackStratumPort", fallback_stratum_port);
        push_text_field(&mut out, "fallbackStratumUser", &self.fallback_stratum_user);
        push_text_field(&mut out, "fallbackStratumPassword", &self.fallback_stratum_password);
        let fanspeed: Option<i64> = match &self.fanspeed {
            Some(p) => Some(*p as i64),
            None => None,
        };
        push_int_field(&mut out, "fanspeed", fanspeed);
        let autofanspeed: Option<i64> = match &self.autofanspeed {
            Some(b) => Some(encode_bool(*b)),
            None => None,
        };
        push_int_field(&mut out, "autofanspeed", autofanspeed);
        let core_voltage: Option<i64> = match &self.core_voltage {
            Some(v) => Some(v.millivolts() as i64),
            None => None,
        };
        push_int_field(&mut out, "coreVoltage", core_voltage);
        let frequency: Option<i64> = match &self.frequency {
            Some(f) => Some(f.mhz() as i64),
            None => None,
        };
        push_int_field(&mut out, "frequency", frequency);
        let flip_screen: Option<i64> = match &self.flip_screen {
            Some(b) => Some(encode_bool(*b)),
            None => None,
        };
        push_int_field(&mut out, "flipscreen", flip_screen);
        let invert_fan_polarity: Option<i64> = match &self.invert_fan_polarity {
            Some(b) => Some(encode_bool(*b)),
            None => None,
        };
        push_int_field(&mut out, "invertfanpolarity", invert_fan_polarity);
        let invert_screen: Option<i64> = match &self.invert_screen {
            Some(b) => Some(encode_bool(*b)),
            None => None,
        };
        push_int_field(&mut out, "invertscreen", invert_screen);
        let overheat_mode: Option<i64> = match &self.overheat_mode {
            Some(b) => Some(encode_bool(*b)),
            None => None,
        };
        push_int_field(&mut out, "overheat_mode", overheat_mode);
        proof {
            assert(entries_of(out@) =~= spec_entries(*self));
        }
        out
    }
}

/// The empty patch: every field unset.
pub open spec fn spec_empty_settings() -> Settings {
    Settings {
        hostname: None,
        ssid: None,
        wifi_pass: None,
        stratum_url: None,
        stratum_port: None,
        stratum_user: None,
        stratum_password: None,
        fallback_stratum_url: None,
        fallback_stratum_port: None,
        fallback_stratum_user: None,
        fallback_stratum_password: None,
        fanspeed: None,
        autofanspeed: None,
        core_voltage: None,
        frequency: None,
        flip_screen: None,
        invert_fan_polarity: None,
        invert_screen: None,
        overheat_mode: None,
    }
}

/// How one payload entry updates a patch being decoded: a known key
/// sets its field when the value has the right type and range and is
/// malformed otherwise; an unknown key changes nothing.
pub open spec fn spec_apply_pair(s: Settings, p: (String, StringOrInt)) -> Option<Settings> {
    if p.0@ == "hostname"@ {
        match p.1 {
            StringOrInt::String(t) => Some(Settings { hostname: Some(t), ..s }),
            StringOrInt::Int(_) => None,
        }
    } else if p.0@ == "ssid"@ {
        match p.1 {
            StringOrInt::String(t) => Some(Settings { ssid: Some(t), ..s }),
            StringOrInt::Int(_) => None,
        }
    } else if p.0@ == "wifiPass"@ {
        match p.1 {
            StringOrInt::String(t) => Some(Settings { wifi_pass: Some(t), ..s }),
            StringOrInt::Int(_) => None,
        }
    } else if p.0@ == "stratumURL"@ {
        match p.1 {
            StringOrInt::String(t) => Some(Settings { stratum_url: Some(t), ..s }),
            StringOrInt::Int(_) => None,
        }
    } else if p.0@ == "stratumPort"@ {
        match p.1 {
            StringOrInt::Int(i) => if 0 <= i <= u16::MAX {
                Some(Settings { stratum_port: Some(i as u16), ..s })
            } else {
                None
            },
            StringOrInt::String(_) => None,
        }
    } else if p.0@ == "stratumUser"@ {
        match p.1 {
            StringOrInt::String(t) => Some(Settings { stratum_user: Some(t), ..s }),
            StringOrInt::Int(_) => None,
        }
    } else if p.0@ == "stratumPassword"@ {
        match p.1 {
            StringOrInt::String(t) => Some(Settings { stratum_password: Some(t), ..s }),
            StringOrInt::Int(_) => None,
        }
    } else if p.0@ == "fallbackStratumURL"@ {
        match p.1 {
            StringOrInt::String(t) => Some(Settings { fallback_stratum_url: Some(t), ..s }),
            StringOrInt::Int(_) => None,
        }
    } else if p.0@ == "fallbackStratumPort"@ {
        match p.1 {
            StringOrInt::Int(i) => if 0 <= i <= u16::MAX {
                Some(Settings { fallback_stratum_port: Some(i as u16), ..s })
            } else {
                None
            },
            StringOrInt::String(_) => None,
        }
    } else if p.0@ == "fallbackStratumUser"@ {
        match p.1 {
            StringOrInt::String(t) => Some(Settings { fallback_stratum_user: Some(t), ..s }),
            StringOrInt::Int(_) => None,
        }
    } else if p.0@ == "fallbackStratumPassword"@ {
        match p.1 {
            StringOrInt::String(t) => Some(Settings { fallback_stratum_password: Some(t), ..s }),
            StringOrInt::Int(_) => None,
        }
    } else if p.0@ == "fanspeed"@ {
        match p.1 {
            StringOrInt::Int(i) => if 0 <= i <= u8::MAX {
                Some(Settings { fanspeed: Some(i as u8), ..s })
            } else {
                None
            },
            StringOrInt::String(_) => None,
        }
    } else if p.0@ == "autofanspeed"@ {
        match p.1 {
            StringOrInt::Int(i) => match spec_decode_bool(i) {
                Some(b) => Some(Settings { autofanspeed: Some(b), ..s }),
                None => None,
            },
            StringOrInt::String(_) => None,
        }
    } else if p.0@ == "coreVoltage"@ {
        match p.1 {
            StringOrInt::Int(i) => match Voltage::spec_from_millivolts(i) {
                Some(v) => Some(Settings { core_voltage: Some(v), ..s }),
                None => None,
            },
            StringOrInt::String(_) => None,
        }
    } else if p.0@ == "frequency"@ {
        match p.1 {
            StringOrInt::Int(i) => match Frequency::spec_from_mhz(i) {
                Some(f) => Some(Settings { frequency: Some(f), ..s }),
                None => None,
            },
            StringOrInt::String(_) => None,
        }
    } else if p.0@ == "flipscreen"@ {
        match p.1 {
            StringOrInt::Int(i) => match spec_decode_bool(i) {
                Some(b) => Some(Settings { flip_screen: Some(b), ..s }),
                None => None,
            },
            StringOrInt::String(_) => None,
        }
    } else if p.0@ == "invertfanpolarity"@ {
        match p.1 {
            StringOrInt::Int(i) => match spec_decode_bool(i) {
                Some(b) => Some(Settings { invert_fan_polarity: Some(b), ..s }),
                None => None,
            },
            StringOrInt::String(_) => None,
        }
    } else if p.0@ == "invertscreen"@ {
        match p.1 {
            StringOrInt::Int(i) => match spec_decode_bool(i) {
                Some(b) => Some(Settings { invert_screen: Some(b), ..s }),
                None => None,
            },
            StringOrInt::String(_) => None,
        }
    } else if p.0@ == "overheat_mode"@ {
        match p.1 {
            StringOrInt::Int(i) => match spec_decode_bool(i) {
                Some(b) => Some(Settings { overheat_mode: Some(b), ..s }),
                None => None,
            },
            StringOrInt::String(_) => None,
        }
    } else {
        Some(s)
    }
}

/// Decoding a whole payload: the entries applied in order to an
/// initial patch, malformed as soon as one entry is.
pub open spec fn spec_from_pairs(ps: Seq<(String, StringOrInt)>, s: Settings) -> Option<Settings>
    decreases ps.len(),
{
    if ps.len() == 0 {
        Some(s)
    } else {
        match spec_apply_pair(s, ps[0]) {
            Some(s2) => spec_from_pairs(ps.drop_first(), s2),
            None => None,
        }
    }
}

fn apply_pair(s: Settings, p: &(String, StringOrInt)) -> (r: Option<Settings>)
    ensures
        r == spec_apply_pair(s, *p),
{
    let key = p.0.as_str();
    if str_eq(key, "hostname") {
        match &p.1 {
            StringOrInt::String(t) => Some(Settings { hostname: Some(t.clone()), ..s }),
            StringOrInt::Int(_) => None,
        }
    } else if str_eq(key, "ssid") {
        match &p.1 {
            StringOrInt::String(t) => Some(Settings { ssid: Some(t.clone()), ..s }),
            StringOrInt::Int(_) => None,
        }
    } else if str_eq(key, "wifiPass") {
        match &p.1 {
            StringOrInt::String(t) => Some(Settings { wifi_pass: Some(t.clone()), ..s }),
            StringOrInt::Int(_) => None,
        }
    } else if str_eq(key, "stratumURL") {
        match &p.1 {
            StringOrInt::String(t) => Some(Settings { stratum_url: Some(t.clone()), ..s }),
            StringOrInt::Int(_) => None,
        }
    } else if str_eq(key, "stratumPort") {
        match &p.1 {
            StringOrInt::Int(i) => if 0 <= *i && *i <= 65535 {
                Some(Settings { stratum_port: Some(*i as u16), ..s })
            } else {
                None
            },
            StringOrInt::String(_) => None,
        }
    } else if str_eq(key, "stratumUser") {
        match &p.1 {
            StringOrInt::String(t) => Some(Settings { stratum_user: Some(t.clone()), ..s }),
            StringOrInt::Int(_) => None,
        }
    } else if str_eq(key, "stratumPassword") {
        match &p.1 {
            StringOrInt::String(t) => Some(Settings { stratum_password: Some(t.clone()), ..s }),
            StringOrInt::Int(_) => None,
        }
    } else if str_eq(key, "fallbackStratumURL") {
        match &p.1 {
            StringOrInt::String(t) => Some(Settings { fallback_stratum_url: Some(t.clone()), ..s }),
            StringOrInt::Int(_) => None,
        }
    } else if str_eq(key, "fallbackStratumPort") {
        match &p.1 {
            StringOrInt::Int(i) => if 0 <= *i && *i <= 65535 {
                Some(Settings { fallback_stratum_port: Some(*i as u16), ..s })
            } else {
                None
            },
            StringOrInt::String(_) => None,
        }
    } else if str_eq(key, "fallbackStratumUser") {
        match &p.1 {
            StringOrInt::String(t) => Some(
                Settings { fallback_stratum_user: Some(t.clone()), ..s },
            ),
            StringOrInt::Int(_) => None,
        }
    } else if str_eq(key, "fallbackStratumPassword") {
        match &p.1 {
            StringOrInt::String(t) => Some(
                Settings { fallback_stratum_password: Some(t.clone()), ..s },
            ),
            StringOrInt::Int(_) => None,
        }
    } else if str_eq(key, "fanspeed") {
        match &p.1 {
            StringOrInt::Int(i) => if 0 <= *i && *i <= 255 {
                Some(Settings { fanspeed: Some(*i as u8), ..s })
            } else {
                None
            },
            StringOrInt::String(_) => None,
        }
    } else if str_eq(key, "autofanspeed") {
        match &p.1 {
            StringOrInt::Int(i) => match decode_bool(*i) {
                Some(b) => Some(Settings { autofanspeed: Some(b), ..s }),
                None => None,
            },
            StringOrInt::String(_) => None,
        }
    } else if str_eq(key, "coreVoltage") {
        match &p.1 {
            StringOrInt::Int(i) => match Voltage::from_millivolts(*i) {
                Some(v) => Some(Settings { core_voltage: Some(v), ..s }),
                None => None,
            },
            StringOrInt::String(_) => None,
        }
    } else if str_eq(key, "frequency") {
        match &p.1 {
            StringOrInt::Int(i) => match Frequency::from_mhz(*i) {
                Some(f) => Some(Settings { frequency: Some(f), ..s }),
                None => None,
            },
            StringOrInt::String(_) => None,
        }
    } else if str_eq(key, "flipscreen") {
        match &p.1 {
            StringOrInt::Int(i) => match decode_bool(*i) {
                Some(b) => Some(Settings { flip_screen: Some(b), ..s }),
                None => None,
            },
            StringOrInt::String(_) => None,
        }
    } else if str_eq(key, "invertfanpolarity") {
        match &p.1 {
            StringOrInt::Int(i) => match decode_bool(*i) {
                Some(b) => Some(Settings { invert_fan_polarity: Some(b), ..s }),
                None => None,
            },
            StringOrInt::String(_) => None,
        }
    } else if str_eq(key, "invertscreen") {
        match &p.1 {
            StringOrInt::Int(i) => match decode_bool(*i) {
                Some(b) => Some(Settings { invert_screen: Some(b), ..s }),
                None => None,
            },
            StringOrInt::String(_) => None,
        }
    } else if str_eq(key, "overheat_mode") {
        match &p.1 {
            StringOrInt::Int(i) => match decode_bool(*i) {
                Some(b) => Some(Settings { overheat_mode: Some(b), ..s }),
                None => None,
            },
            StringOrInt::String(_) => None,
        }
    } else {
        Some(s)
    }
}

impl Settings {
    /// Decode a payload into a patch, starting from the empty patch.
    /// Entries are applied in order (a repeated key keeps its last
    /// value), unknown keys are ignored, and a value of the wrong type
    /// or outside its field's range is a decode error.
    pub fn from_pairs(pairs: &Vec<(String, StringOrInt)>) -> (r: Result<Settings, Error>)
        ensures
            r matches Ok(s) ==> spec_from_pairs(pairs@, spec_empty_settings()) == Some(s),
            r matches Err(e) ==> spec_from_pairs(pairs@, spec_empty_settings()) is None && e matches
                Error::Decode(_),
    {
        let mut s = Settings::default();
        let mut i: usize = 0;
        proof {
            assert(pairs@.subrange(0, pairs@.len() as int) =~= pairs@);
        }
        while i < pairs.len()
            invariant
                0 <= i <= pairs@.len(),
                spec_from_pairs(pairs@, spec_empty_settings()) == spec_from_pairs(
                    pairs@.subrange(i as int, pairs@.len() as int),
                    s,
                ),
            decreases pairs@.len() - i,
        {
            let ghost rest = pairs@.subrange(i as int, pairs@.len() as int);
            proof {
                assert(rest[0] == pairs@[i as int]);
                assert(rest.drop_first() =~= pairs@.subrange(i + 1, pairs@.len() as int));
            }
            match apply_pair(s, &pairs[i]) {
                Some(s2) => {
                    s = s2;
                },
                None => {
                    return Err(Error::Decode("invalid settings payload value".to_owned()));
                },
            }
            i += 1;
        }
        proof {
            assert(pairs@.subrange(i as int, pairs@.len() as int) =~= Seq::<
                (String, StringOrInt),
            >::empty());
        }
        Ok(s)
    }
}

/// Whether a payload holds an entry under a key.
pub open spec fn spec_has_key(es: Seq<(Seq<char>, WireValue)>, k: Seq<char>) -> bool {
    exists|i: int| 0 <= i < es.len() && es[i].0 == k
}

proof fn lemma_has_key_concat(
    a: Seq<(Seq<char>, WireValue)>,
    b: Seq<(Seq<char>, WireValue)>,
    k: Seq<char>,
)
    ensures
        spec_has_key(a + b, k) == (spec_has_key(a, k) || spec_has_key(b, k)),
{
    if spec_has_key(a, k) {
        let i = choose|i: int| 0 <= i < a.len() && a[i].0 == k;
        assert((a + b)[i].0 == k);
    }
    if spec_has_key(b, k) {
        let i = choose|i: int| 0 <= i < b.len() && b[i].0 == k;
        assert((a + b)[a.len() + i].0 == k);
    }
    if spec_has_key(a + b, k) {
        let i = choose|i: int| 0 <= i < (a + b).len() && (a + b)[i].0 == k;
        if i < a.len() {
            assert(a[i].0 == k);
        } else {
            assert(b[i - a.len()].0 == k);
        }
    }
}

proof fn lemma_opt_text_key(key: Seq<char>, v: Option<String>, k: Seq<char>)
    ensures
        spec_has_key(opt_text_entry(key, v), k) == (v is Some && k == key),
{
    if v is Some && k == key {
        assert(opt_text_entry(key, v)[0].0 == k);
    }
}

proof fn lemma_opt_int_key(key: Seq<char>, v: Option<i64>, k: Seq<char>)
    ensures
        spec_has_key(opt_int_entry(key, v), k) == (v is Some && k == key),
{
    if v is Some && k == key {
        assert(opt_int_entry(key, v)[0].0 == k);
    }
}

/// The keys of a patch's payload are exactly the wire keys of its set
/// fields: an entry under a key exists if and only if the field that
/// key belongs to is set.
pub proof fn lemma_payload_keys(s: Settings, k: Seq<char>)
    ensures
        spec_has_key(spec_entries(s), k) <==> ((k == "hostname"@ && s.hostname is Some) || (k
            == "ssid"@ && s.ssid is Some) || (k == "wifiPass"@ && s.wifi_pass is Some) || (k
            == "stratumURL"@ && s.stratum_url is Some) || (k == "stratumPort"@
            && s.stratum_port is Some) || (k == "stratumUser"@ && s.stratum_user is Some) || (k
            == "stratumPassword"@ && s.stratum_password is Some) || (k == "fallbackStratumURL"@
            && s.fallback_stratum_url is Some) || (k == "fallbackStratumPort"@
            && s.fallback_stratum_port is Some) || (k == "fallbackStratumUser"@
            && s.fallback_stratum_user is Some) || (k == "fallbackStratumPassword"@
            && s.fallback_stratum_password is Some) || (k == "fanspeed"@ && s.fanspeed is Some) || (
        k == "autofanspeed"@ && s.autofanspeed is Some) || (k == "coreVoltage"@
            && s.core_voltage is Some) || (k == "frequency"@ && s.frequency is Some) || (k
            == "flipscreen"@ && s.flip_screen is Some) || (k == "invertfanpolarity"@
            && s.invert_fan_polarity is Some) || (k == "invertscreen"@ && s.invert_screen is Some)
            || (k == "overheat_mode"@ && s.overheat_mode is Some)),
{
    let e1 = opt_text_entry("hostname"@, s.hostname);
    let e2 = opt_text_entry("ssid"@, s.ssid);
    let e3 = opt_text_entry("wifiPass"@, s.wifi_pass);
    let e4 = opt_text_entry("stratumURL"@, s.stratum_url);
    let e5 = opt_int_entry("stratumPort"@, spec_opt_u16(s.stratum_port));
    let e6 = opt_text_entry("stratumUser"@, s.stratum_user);
    let e7 = opt_text_entry("stratumPassword"@, s.stratum_password);
    let e8 = opt_text_entry("fallbackStratumURL"@, s.fallback_stratum_url);
    let e9 = opt_int_entry("fallbackStratumPort"@, spec_opt_u16(s.fallback_stratum_port));
    let e10 = opt_text_entry("fallbackStratumUser"@, s.fallback_stratum_user);
    let e11 = opt_text_entry("fallbackStratumPassword"@, s.fallback_stratum_password);
    let e12 = opt_int_entry("fanspeed"@, spec_opt_u8(s.fanspeed));
    let e13 = opt_int_entry("autofanspeed"@, spec_opt_bool(s.autofanspeed));
    let e14 = opt_int_entry("coreVoltage"@, spec_opt_voltage(s.core_voltage));
    let e15 = opt_int_entry("frequency"@, spec_opt_frequency(s.frequency));
    let e16 = opt_int_entry("flipscreen"@, spec_opt_bool(s.flip_screen));
    let e17 = opt_int_entry("invertfanpolarity"@, spec_opt_bool(s.invert_fan_polarity));
    let e18 = opt_int_entry("invertscreen"@, spec_opt_bool(s.invert_screen));
    let e19 = opt_int_entry("overheat_mode"@, spec_opt_bool(s.overheat_mode));
    let p2 = e1 + e2;
    let p3 = p2 + e3;
    let p4 = p3 + e4;
    let p5 = p4 + e5;
    let p6 = p5 + e6;
    let p7 = p6 + e7;
    let p8 = p7 + e8;
    let p9 = p8 + e9;
    let p10 = p9 + e10;
    let p11 = p10 + e11;
    let p12 = p11 + e12;
    let p13 = p12 + e13;
    let p14 = p13 + e14;
    let p15 = p14 + e15;
    let p16 = p15 + e16;
    let p17 = p16 + e17;
    let p18 = p17 + e18;
    let p19 = p18 + e19;
    assert(spec_entries(s) == p19);
    lemma_has_key_concat(e1, e2, k);
    lemma_has_key_concat(p2, e3, k);
    lemma_has_key_concat(p3, e4, k);
    lemma_has_key_concat(p4, e5, k);
    lemma_has_key_concat(p5, e6, k);
    lemma_has_key_concat(p6, e7, k);
    lemma_has_key_concat(p7, e8, k);
    lemma_has_key_concat(p8, e9, k);
    lemma_has_key_concat(p9, e10, k);
    lemma_has_key_concat(p10, e11, k);
    lemma_has_key_concat(p11, e12, k);
    lemma_has_key_concat(p12, e13, k);
    lemma_has_key_concat(p13, e14, k);
    lemma_has_key_concat(p14, e15, k);
    lemma_has_key_concat(p15, e16, k);
    lemma_has_key_concat(p16, e17, k);
    lemma_has_key_concat(p17, e18, k);
    lemma_has_key_concat(p18, e19, k);
    lemma_opt_text_key("hostname"@, s.hostname, k);
    lemma_opt_text_key("ssid"@, s.ssid, k);
    lemma_opt_text_key("wifiPass"@, s.wifi_pass, k);
    lemma_opt_text_key("stratumURL"@, s.stratum_url, k);
    lemma_opt_int_key("stratumPort"@, spec_opt_u16(s.stratum_port), k);
    lemma_opt_text_key("stratumUser"@, s.stratum_user, k);
    lemma_opt_text_key("stratumPassword"@, s.stratum_password, k);
    lemma_opt_text_key("fallbackStratumURL"@, s.fallback_stratum_url, k);
    lemma_opt_int_key("fallbackStratumPort"@, spec_opt_u16(s.fallback_stratum_port), k);
    lemma_opt_text_key("fallbackStratumUser"@, s.fallback_stratum_user, k);
    lemma_opt_text_key("fallbackStratumPassword"@, s.fallback_stratum_password, k);
    lemma_opt_int_key("fanspeed"@, spec_opt_u8(s.fanspeed), k);
    lemma_opt_int_key("autofanspeed"@, spec_opt_bool(s.autofanspeed), k);
    lemma_opt_int_key("coreVoltage"@, spec_opt_voltage(s.core_voltage), k);
    lemma_opt_int_key("frequency"@, spec_opt_frequency(s.frequency), k);
    lemma_opt_int_key("flipscreen"@, spec_opt_bool(s.flip_screen), k);
    lemma_opt_int_key("invertfanpolarity"@, spec_opt_bool(s.invert_fan_polarity), k);
    lemma_opt_int_key("invertscreen"@, spec_opt_bool(s.invert_screen), k);
    lemma_opt_int_key("overheat_mode"@, spec_opt_bool(s.overheat_mode), k);
}

proof fn lemma_wire_keys_distinct()
    ensures
        "hostname"@ != "wifiPass"@,
        "hostname"@ != "fanspeed"@,
        "wifiPass"@ != "fanspeed"@,
        "stratumPort"@ != "stratumUser"@,
        "stratumPort"@ != "coreVoltage"@,
        "stratumUser"@ != "coreVoltage"@,
        "fallbackStratumPort"@ != "fallbackStratumUser"@,
        "stratumURL"@ != "flipscreen"@,
        "autofanspeed"@ != "invertscreen"@,
        "hostname"@.len() == 8,
        "ssid"@.len() == 4,
        "wifiPass"@.len() == 8,
        "stratumURL"@.len() == 10,
        "stratumPort"@.len() == 11,
        "stratumUser"@.len() == 11,
        "stratumPassword"@.len() == 15,
        "fallbackStratumURL"@.len() == 18,
        "fallbackStratumPort"@.len() == 19,
        "fallbackStratumUser"@.len() == 19,
        "fallbackStratumPassword"@.len() == 23,
        "fanspeed"@.len() == 8,
        "autofanspeed"@.len() == 12,
        "coreVoltage"@.len() == 11,
        "frequency"@.len() == 9,
        "flipscreen"@.len() == 10,
        "invertfanpolarity"@.len() == 17,
        "invertscreen"@.len() == 12,
        "overheat_mode"@.len() == 13,
{
    reveal_strlit("hostname");
    reveal_strlit("ssid");
    reveal_strlit("wifiPass");
    reveal_strlit("stratumURL");
    reveal_strlit("stratumPort");
    reveal_strlit("stratumUser");
    reveal_strlit("stratumPassword");
    reveal_strlit("fallbackStratumURL");
    reveal_strlit("fallbackStratumPort");
    reveal_strlit("fallbackStratumUser");
    reveal_strlit("fallbackStratumPassword");
    reveal_strlit("fanspeed");
    reveal_strlit("autofanspeed");
    reveal_strlit("coreVoltage");
    reveal_strlit("frequency");
    reveal_strlit("flipscreen");
    reveal_strlit("invertfanpolarity");
    reveal_strlit("invertscreen");
    reveal_strlit("overheat_mode");
    assert("hostname"@[0] != "wifiPass"@[0]);
    assert("hostname"@[0] != "fanspeed"@[0]);
    assert("wifiPass"@[0] != "fanspeed"@[0]);
    assert("stratumPort"@[7] != "stratumUser"@[7]);
    assert("stratumPort"@[0] != "coreVoltage"@[0]);
    assert("stratumUser"@[0] != "coreVoltage"@[0]);
    assert("fallbackStratumPort"@[15] != "fallbackStratumUser"@[15]);
    assert("stratumURL"@[0] != "flipscreen"@[0]);
    assert("autofanspeed"@[0] != "invertscreen"@[0]);
}

/// Fields left unset are absent from the serialized payload: for every
/// patch, no entry is emitted under the wire key of an unset field (in
/// particular nothing is ever sent as null).
pub proof fn lemma_unset_fields_absent(s: Settings)
    ensures
        s.hostname is None ==> !spec_has_key(spec_entries(s), "hostname"@),
        s.ssid is None ==> !spec_has_key(spec_entries(s), "ssid"@),
        s.wifi_pass is None ==> !spec_has_key(spec_entries(s), "wifiPass"@),
        s.stratum_url is None ==> !spec_has_key(spec_entries(s), "stratumURL"@),
        s.stratum_port is None ==> !spec_has_key(spec_entries(s), "stratumPort"@),
        s.stratum_user is None ==> !spec_has_key(spec_entries(s), "stratumUser"@),
        s.stratum_password is None ==> !spec_has_key(spec_entries(s), "stratumPassword"@),
        s.fallback_stratum_url is None ==> !spec_has_key(spec_entries(s), "fallbackStratumURL"@),
        s.fallback_stratum_port is None ==> !spec_has_key(spec_entries(s), "fallbackStratumPort"@),
        s.fallback_stratum_user is None ==> !spec_has_key(spec_entries(s), "fallbackStratumUser"@),
        s.fallback_stratum_password is None ==> !spec_has_key(
            spec_entries(s),
            "fallbackStratumPassword"@,
        ),
        s.fanspeed is None ==> !spec_has_key(spec_entries(s), "fanspeed"@),
        s.autofanspeed is None ==> !spec_has_key(spec_entries(s), "autofanspeed"@),
        s.core_voltage is None ==> !spec_has_key(spec_entries(s), "coreVoltage"@),
        s.frequency is None ==> !spec_has_key(spec_entries(s), "frequency"@),
        s.flip_screen is None ==> !spec_has_key(spec_entries(s), "flipscreen"@),
        s.invert_fan_polarity is None ==> !spec_has_key(spec_entries(s), "invertfanpolarity"@),
        s.invert_screen is None ==> !spec_has_key(spec_entries(s), "invertscreen"@),
        s.overheat_mode is None ==> !spec_has_key(spec_entries(s), "overheat_mode"@),
{
    lemma_wire_keys_distinct();
    lemma_payload_keys(s, "hostname"@);
    lemma_payload_keys(s, "ssid"@);
    lemma_payload_keys(s, "wifiPass"@);
    lemma_payload_keys(s, "stratumURL"@);
    lemma_payload_keys(s, "stratumPort"@);
    lemma_payload_keys(s, "stratumUser"@);
    lemma_payload_keys(s, "stratumPassword"@);
    lemma_payload_keys(s, "fallbackStratumURL"@);
    lemma_payload_keys(s, "fallbackStratumPort"@);
    lemma_payload_keys(s, "fallbackStratumUser"@);
    lemma_payload_keys(s, "fallbackStratumPassword"@);
    lemma_payload_keys(s, "fanspeed"@);
    lemma_payload_keys(s, "autofanspeed"@);
    lemma_payload_keys(s, "coreVoltage"@);
    lemma_payload_keys(s, "frequency"@);
    lemma_payload_keys(s, "flipscreen"@);
    lemma_payload_keys(s, "invertfanpolarity"@);
    lemma_payload_keys(s, "invertscreen"@);
    lemma_payload_keys(s, "overheat_mode"@);
}


/// Whether two optional text fields hold the same characters.
pub open spec fn spec_text_like(a: Option<String>, b: Option<String>) -> bool {
    match (a, b) {
        (Some(x), Some(y)) => x@ == y@,
        (None, None) => true,
        _ => false,
    }
}

/// Whether two patches say the same thing: scalar fields equal, text
/// fields equal character for character.
pub open spec fn spec_settings_like(a: Settings, b: Settings) -> bool {
        &&& spec_text_like(a.hostname, b.hostname)
        &&& spec_text_like(a.ssid, b.ssid)
        &&& spec_text_like(a.wifi_pass, b.wifi_pass)
        &&& spec_text_like(a.stratum_url, b.stratum_url)
        &&& a.stratum_port == b.stratum_port
        &&& spec_text_like(a.stratum_user, b.stratum_user)
        &&& spec_text_like(a.stratum_password, b.stratum_password)
        &&& spec_text_like(a.fallback_stratum_url, b.fallback_stratum_url)
        &&& a.fallback_stratum_port == b.fallback_stratum_port
        &&& spec_text_like(a.fallback_stratum_user, b.fallback_stratum_user)
        &&& spec_text_like(a.fallback_stratum_password, b.fallback_stratum_password)
        &&& a.fanspeed == b.fanspeed
        &&& a.autofanspeed == b.autofanspeed
        &&& a.core_voltage == b.core_voltage
        &&& a.frequency == b.frequency
        &&& a.flip_screen == b.flip_screen
        &&& a.invert_fan_polarity == b.invert_fan_polarity
        &&& a.invert_screen == b.invert_screen
        &&& a.overheat_mode == b.overheat_mode
}

proof fn lemma_entries_subrange(ps: Seq<(String, StringOrInt)>, a: int, b: int)
    requires
        0 <= a <= b <= ps.len(),
    ensures
        entries_of(ps.subrange(a, b)) == entries_of(ps).subrange(a, b),
{
    assert(entries_of(ps.subrange(a, b)) =~= entries_of(ps).subrange(a, b));
}

proof fn lemma_from_pairs_concat(
    xs: Seq<(String, StringOrInt)>,
    ys: Seq<(String, StringOrInt)>,
    acc: Settings,
)
    ensures
        spec_from_pairs(xs + ys, acc) == match spec_from_pairs(xs, acc) {
            Some(mid) => spec_from_pairs(ys, mid),
            None => None::<Settings>,
        },
    decreases xs.len(),
{
    if xs.len() == 0 {
        assert(xs + ys =~= ys);
    } else {
        assert((xs + ys)[0] == xs[0]);
        assert((xs + ys).drop_first() =~= xs.drop_first() + ys);
        match spec_apply_pair(acc, xs[0]) {
            Some(mid) => {
                lemma_from_pairs_concat(xs.drop_first(), ys, mid);
            },
            None => {},
        }
    }
}

proof fn lemma_from_pairs_single(seg: Seq<(String, StringOrInt)>, acc: Settings)
    requires
        seg.len() == 1,
    ensures
        spec_from_pairs(seg, acc) == spec_apply_pair(acc, seg[0]),
{
    assert(seg.drop_first() =~= Seq::<(String, StringOrInt)>::empty());
    match spec_apply_pair(acc, seg[0]) {
        Some(s2) => {
            assert(spec_from_pairs(seg.drop_first(), s2) == Some(s2));
            assert(spec_from_pairs(seg, acc) == Some(s2));
        },
        None => {},
    }
}

proof fn lemma_segment_shape_text(
    seg: Seq<(String, StringOrInt)>,
    key: Seq<char>,
    v: Option<String>,
)
    requires
        entries_of(seg) == opt_text_entry(key, v),
        v is Some,
    ensures
        seg.len() == 1,
        seg[0].0@ == key,
        seg[0].1 matches StringOrInt::String(st) && st@ == v->0@,
{
    assert(opt_text_entry(key, v).len() == 1);
    assert(entries_of(seg).len() == seg.len());
    assert(entries_of(seg)[0] == (seg[0].0@, seg[0].1@));
    assert(entries_of(seg)[0] == (key, WireValue::String(v->0@)));
}

proof fn lemma_segment_shape_int(seg: Seq<(String, StringOrInt)>, key: Seq<char>, v: Option<i64>)
    requires
        entries_of(seg) == opt_int_entry(key, v),
        v is Some,
    ensures
        seg.len() == 1,
        seg[0].0@ == key,
        seg[0].1 matches StringOrInt::Int(i) && i == v->0,
{
    assert(opt_int_entry(key, v).len() == 1);
    assert(entries_of(seg).len() == seg.len());
    assert(entries_of(seg)[0] == (seg[0].0@, seg[0].1@));
    assert(entries_of(seg)[0] == (key, WireValue::Int(v->0 as int)));
}

/// One decoding step of the round trip per field, in field order:
/// given that the payload so far decodes to `acc` and the next segment
/// is the field's encoded entry, the payload with the segment appended
/// decodes to `acc` with exactly that field set — to what the patch
/// says — and everything else untouched.
proof fn lemma_rt_step_1(
    front: Seq<(String, StringOrInt)>,
    seg: Seq<(String, StringOrInt)>,
    start: Settings,
    acc: Settings,
    s: Settings,
)
    requires
        spec_from_pairs(front, start) == Some(acc),
        entries_of(seg) == opt_text_entry("hostname"@, s.hostname),
    ensures
        spec_from_pairs(front + seg, start) matches Some(d) && ({
            &&& (s.hostname is Some ==> spec_text_like(d.hostname, s.hostname))
            &&& (s.hostname is None ==> d.hostname == acc.hostname)
            &&& d.ssid == acc.ssid
            &&& d.wifi_pass == acc.wifi_pass
            &&& d.stratum_url == acc.stratum_url
            &&& d.stratum_port == acc.stratum_port
            &&& d.stratum_user == acc.stratum_user
            &&& d.stratum_password == acc.stratum_password
            &&& d.fallback_stratum_url == acc.fallback_stratum_url
            &&& d.fallback_stratum_port == acc.fallback_stratum_port
            &&& d.fallback_stratum_user == acc.fallback_stratum_user
            &&& d.fallback_stratum_password == acc.fallback_stratum_password
            &&& d.fanspeed == acc.fanspeed
            &&& d.autofanspeed == acc.autofanspeed
            &&& d.core_voltage == acc.core_voltage
            &&& d.frequency == acc.frequency
            &&& d.flip_screen == acc.flip_screen
            &&& d.invert_fan_polarity == acc.invert_fan_polarity
            &&& d.invert_screen == acc.invert_screen
            &&& d.overheat_mode == acc.overheat_mode
        }),
{
    lemma_wire_keys_distinct();
    lemma_from_pairs_concat(front, seg, start);
    if s.hostname is Some {
        lemma_segment_shape_text(seg, "hostname"@, s.hostname);
        lemma_from_pairs_single(seg, acc);
    } else {
        assert(entries_of(seg).len() == seg.len());
        assert(seg.len() == 0);
        assert(seg =~= Seq::<(String, StringOrInt)>::empty());
        assert(front + seg =~= front);
    }
}

proof fn lemma_rt_step_2(
    front: Seq<(String, StringOrInt)>,
    seg: Seq<(String, StringOrInt)>,
    start: Settings,
    acc: Settings,
    s: Settings,
)
    requires
        spec_from_pairs(front, start) == Some(acc),
        entries_of(seg) == opt_text_entry("ssid"@, s.ssid),
    ensures
        spec_from_pairs(front + seg, start) matches Some(d) && ({
            &&& (s.ssid is Some ==> spec_text_like(d.ssid, s.ssid))
            &&& (s.ssid is None ==> d.ssid == acc.ssid)
            &&& d.hostname == acc.hostname
            &&& d.wifi_pass == acc.wifi_pass
            &&& d.stratum_url == acc.stratum_url
            &&& d.stratum_port == acc.stratum_port
            &&& d.stratum_user == acc.stratum_user
            &&& d.stratum_password == acc.stratum_password
            &&& d.fallback_stratum_url == acc.fallback_stratum_url
            &&& d.fallback_stratum_port == acc.fallback_stratum_port
            &&& d.fallback_stratum_user == acc.fallback_stratum_user
            &&& d.fallback_stratum_password == acc.fallback_stratum_password
            &&& d.fanspeed == acc.fanspeed
            &&& d.autofanspeed == acc.autofanspeed
            &&& d.core_voltage == acc.core_voltage
            &&& d.frequency == acc.frequency
            &&& d.flip_screen == acc.flip_screen
            &&& d.invert_fan_polarity == acc.invert_fan_polarity
            &&& d.invert_screen == acc.invert_screen
            &&& d.overheat_mode == acc.overheat_mode
        }),
{
    lemma_wire_keys_distinct();
    lemma_from_pairs_concat(front, seg, start);
    if s.ssid is Some {
        lemma_segment_shape_text(seg, "ssid"@, s.ssid);
        lemma_from_pairs_single(seg, acc);
    } else {
        assert(entries_of(seg).len() == seg.len());
        assert(seg.len() == 0);
        assert(seg =~= Seq::<(String, StringOrInt)>::empty());
        assert(front + seg =~= front);
    }
}

proof fn lemma_rt_step_3(
    front: Seq<(String, StringOrInt)>,
    seg: Seq<(String, StringOrInt)>,
    start: Settings,
    acc: Settings,
    s: Settings,
)
    requires
        spec_from_pairs(front, start) == Some(acc),
        entries_of(seg) == opt_text_entry("wifiPass"@, s.wifi_pass),
    ensures
        spec_from_pairs(front + seg, start) matches Some(d) && ({
            &&& (s.wifi_pass is Some ==> spec_text_like(d.wifi_pass, s.wifi_pass))
            &&& (s.wifi_pass is None ==> d.wifi_pass == acc.wifi_pass)
            &&& d.hostname == acc.hostname
            &&& d.ssid == acc.ssid
            &&& d.stratum_url == acc.stratum_url
            &&& d.stratum_port == acc.stratum_port
            &&& d.stratum_user == acc.stratum_user
            &&& d.stratum_password == acc.stratum_password
            &&& d.fallback_stratum_url == acc.fallback_stratum_url
            &&& d.fallback_stratum_port == acc.fallback_stratum_port
            &&& d.fallback_stratum_user == acc.fallback_stratum_user
            &&& d.fallback_stratum_password == acc.fallback_stratum_password
            &&& d.fanspeed == acc.fanspeed
            &&& d.autofanspeed == acc.autofanspeed
            &&& d.core_voltage == acc.core_voltage
            &&& d.frequency == acc.frequency
            &&& d.flip_screen == acc.flip_screen
            &&& d.invert_fan_polarity == acc.invert_fan_polarity
            &&& d.invert_screen == acc.invert_screen
            &&& d.overheat_mode == acc.overheat_mode
        }),
{
    lemma_wire_keys_distinct();
    lemma_from_pairs_concat(front, seg, start);
    if s.wifi_pass is Some {
        lemma_segment_shape_text(seg, "wifiPass"@, s.wifi_pass);
        lemma_from_pairs_single(seg, acc);
    } else {
        assert(entries_of(seg).len() == seg.len());
        assert(seg.len() == 0);
        assert(seg =~= Seq::<(String, StringOrInt)>::empty());
        assert(front + seg =~= front);
    }
}

proof fn lemma_rt_step_4(
    front: Seq<(String, StringOrInt)>,
    seg: Seq<(String, StringOrInt)>,
    start: Settings,
    acc: Settings,
    s: Settings,
)
    requires
        spec_from_pairs(front, start) == Some(acc),
        entries_of(seg) == opt_text_entry("stratumURL"@, s.stratum_url),
    ensures
        spec_from_pairs(front + seg, start) matches Some(d) && ({
            &&& (s.stratum_url is Some ==> spec_text_like(d.stratum_url, s.stratum_url))
            &&& (s.stratum_url is None ==> d.stratum_url == acc.stratum_url)
            &&& d.hostname == acc.hostname
            &&& d.ssid == acc.ssid
            &&& d.wifi_pass == acc.wifi_pass
            &&& d.stratum_port == acc.stratum_port
            &&& d.stratum_user == acc.stratum_user
            &&& d.stratum_password == acc.stratum_password
            &&& d.fallback_stratum_url == acc.fallback_stratum_url
            &&& d.fallback_stratum_port == acc.fallback_stratum_port
            &&& d.fallback_stratum_user == acc.fallback_stratum_user
            &&& d.fallback_stratum_password == acc.fallback_stratum_password
            &&& d.fanspeed == acc.fanspeed
            &&& d.autofanspeed == acc.autofanspeed
            &&& d.core_voltage == acc.core_voltage
            &&& d.frequency == acc.frequency
            &&& d.flip_screen == acc.flip_screen
            &&& d.invert_fan_polarity == acc.invert_fan_polarity
            &&& d.invert_screen == acc.invert_screen
            &&& d.overheat_mode == acc.overheat_mode
        }),
{
    lemma_wire_keys_distinct();
    lemma_from_pairs_concat(front, seg, start);
    if s.stratum_url is Some {
        lemma_segment_shape_text(seg, "stratumURL"@, s.stratum_url);
        lemma_from_pairs_single(seg, acc);
    } else {
        assert(entries_of(seg).len() == seg.len());
        assert(seg.len() == 0);
        assert(seg =~= Seq::<(String, StringOrInt)>::empty());
        assert(front + seg =~= front);
    }
}

proof fn lemma_rt_step_5(
    front: Seq<(String, StringOrInt)>,
    seg: Seq<(String, StringOrInt)>,
    start: Settings,
    acc: Settings,
    s: Settings,
)
    requires
        spec_from_pairs(front, start) == Some(acc),
        entries_of(seg) == opt_int_entry("stratumPort"@, spec_opt_u16(s.stratum_port)),
    ensures
        spec_from_pairs(front + seg, start) matches Some(d) && ({
            &&& (s.stratum_port is Some ==> d.stratum_port == s.stratum_port)
            &&& (s.stratum_port is None ==> d.stratum_port == acc.stratum_port)
            &&& d.hostname == acc.hostname
            &&& d.ssid == acc.ssid
            &&& d.wifi_pass == acc.wifi_pass
            &&& d.stratum_url == acc.stratum_url
            &&& d.stratum_user == acc.stratum_user
            &&& d.stratum_password == acc.stratum_password
            &&& d.fallback_stratum_url == acc.fallback_stratum_url
            &&& d.fallback_stratum_port == acc.fallback_stratum_port
            &&& d.fallback_stratum_user == acc.fallback_stratum_user
            &&& d.fallback_stratum_password == acc.fallback_stratum_password
            &&& d.fanspeed == acc.fanspeed
            &&& d.autofanspeed == acc.autofanspeed
            &&& d.core_voltage == acc.core_voltage
            &&& d.frequency == acc.frequency
            &&& d.flip_screen == acc.flip_screen
            &&& d.invert_fan_polarity == acc.invert_fan_polarity
            &&& d.invert_screen == acc.invert_screen
            &&& d.overheat_mode == acc.overheat_mode
        }),
{
    lemma_wire_keys_distinct();
    lemma_from_pairs_concat(front, seg, start);
    if s.stratum_port is Some {
        lemma_segment_shape_int(seg, "stratumPort"@, spec_opt_u16(s.stratum_port));
        lemma_from_pairs_single(seg, acc);
    } else {
        assert(entries_of(seg).len() == seg.len());
        assert(seg.len() == 0);
        assert(seg =~= Seq::<(String, StringOrInt)>::empty());
        assert(front + seg =~= front);
    }
}

proof fn lemma_rt_step_6(
    front: Seq<(String, StringOrInt)>,
    seg: Seq<(String, StringOrInt)>,
    start: Settings,
    acc: Settings,
    s: Settings,
)
    requires
        spec_from_pairs(front, start) == Some(acc),
        entries_of(seg) == opt_text_entry("stratumUser"@, s.stratum_user),
    ensures
        spec_from_pairs(front + seg, start) matches Some(d) && ({
            &&& (s.stratum_user is Some ==> spec_text_like(d.stratum_user, s.stratum_user))
            &&& (s.stratum_user is None ==> d.stratum_user == acc.stratum_user)
            &&& d.hostname == acc.hostname
            &&& d.ssid == acc.ssid
            &&& d.wifi_pass == acc.wifi_pass
            &&& d.stratum_url == acc.stratum_url
            &&& d.stratum_port == acc.stratum_port
            &&& d.stratum_password == acc.stratum_password
            &&& d.fallback_stratum_url == acc.fallback_stratum_url
            &&& d.fallback_stratum_port == acc.fallback_stratum_port
            &&& d.fallback_stratum_user == acc.fallback_stratum_user
            &&& d.fallback_stratum_password == acc.fallback_stratum_password
            &&& d.fanspeed == acc.fanspeed
            &&& d.autofanspeed == acc.autofanspeed
            &&& d.core_voltage == acc.core_voltage
            &&& d.frequency == acc.frequency
            &&& d.flip_screen == acc.flip_screen
            &&& d.invert_fan_polarity == acc.invert_fan_polarity
            &&& d.invert_screen == acc.invert_screen
            &&& d.overheat_mode == acc.overheat_mode
        }),
{
    lemma_wire_keys_distinct();
    lemma_from_pairs_concat(front, seg, start);
    if s.stratum_user is Some {
        lemma_segment_shape_text(seg, "stratumUser"@, s.stratum_user);
        lemma_from_pairs_single(seg, acc);
    } else {
        assert(entries_of(seg).len() == seg.len());
        assert(seg.len() == 0);
        assert(seg =~= Seq::<(String, StringOrInt)>::empty());
        assert(front + seg =~= front);
    }
}

proof fn lemma_rt_step_7(
    front: Seq<(String, StringOrInt)>,
    seg: Seq<(String, StringOrInt)>,
    start: Settings,
    acc: Settings,
    s: Settings,
)
    requires
        spec_from_pairs(front, start) == Some(acc),
        entries_of(seg) == opt_text_entry("stratumPassword"@, s.stratum_password),
    ensures
        spec_from_pairs(front + seg, start) matches Some(d) && ({
            &&& (s.stratum_password is Some ==> spec_text_like(d.stratum_password, s.stratum_password))
            &&& (s.stratum_password is None ==> d.stratum_password == acc.stratum_password)
            &&& d.hostname == acc.hostname
            &&& d.ssid == acc.ssid
            &&& d.wifi_pass == acc.wifi_pass
            &&& d.stratum_url == acc.stratum_url
            &&& d.stratum_port == acc.stratum_port
            &&& d.stratum_user == acc.stratum_user
            &&& d.fallback_stratum_url == acc.fallback_stratum_url
            &&& d.fallback_stratum_port == acc.fallback_stratum_port
            &&& d.fallback_stratum_user == acc.fallback_stratum_user
            &&& d.fallback_stratum_password == acc.fallback_stratum_password
            &&& d.fanspeed == acc.fanspeed
            &&& d.autofanspeed == acc.autofanspeed
            &&& d.core_voltage == acc.core_voltage
            &&& d.frequency == acc.frequency
            &&& d.flip_screen == acc.flip_screen
            &&& d.invert_fan_polarity == acc.invert_fan_polarity
            &&& d.invert_screen == acc.invert_screen
            &&& d.overheat_mode == acc.overheat_mode
        }),
{
    lemma_wire_keys_distinct();
    lemma_from_pairs_concat(front, seg, start);
    if s.stratum_password is Some {
        lemma_segment_shape_text(seg, "stratumPassword"@, s.stratum_password);
        lemma_from_pairs_single(seg, acc);
    } else {
        assert(entries_of(seg).len() == seg.len());
        assert(seg.len() == 0);
        assert(seg =~= Seq::<(String, StringOrInt)>::empty());
        assert(front + seg =~= front);
    }
}

proof fn lemma_rt_step_8(
    front: Seq<(String, StringOrInt)>,
    seg: Seq<(String, StringOrInt)>,
    start: Settings,
    acc: Settings,
    s: Settings,
)
    requires
        spec_from_pairs(front, start) == Some(acc),
        entries_of(seg) == opt_text_entry("fallbackStratumURL"@, s.fallback_stratum_url),
    ensures
        spec_from_pairs(front + seg, start) matches Some(d) && ({
            &&& (s.fallback_stratum_url is Some ==> spec_text_like(d.fallback_stratum_url, s.fallback_stratum_url))
            &&& (s.fallback_stratum_url is None ==> d.fallback_stratum_url == acc.fallback_stratum_url)
            &&& d.hostname == acc.hostname
            &&& d.ssid == acc.ssid
            &&& d.wifi_pass == acc.wifi_pass
            &&& d.stratum_url == acc.stratum_url
            &&& d.stratum_port == acc.stratum_port
            &&& d.stratum_user == acc.stratum_user
            &&& d.stratum_password == acc.stratum_password
            &&& d.fallback_stratum_port == acc.fallback_stratum_port
            &&& d.fallback_stratum_user == acc.fallback_stratum_user
            &&& d.fallback_stratum_password == acc.fallback_stratum_password
            &&& d.fanspeed == acc.fanspeed
            &&& d.autofanspeed == acc.autofanspeed
            &&& d.core_voltage == acc.core_voltage
            &&& d.frequency == acc.frequency
            &&& d.flip_screen == acc.flip_screen
            &&& d.invert_fan_polarity == acc.invert_fan_polarity
            &&& d.invert_screen == acc.invert_screen
            &&& d.overheat_mode == acc.overheat_mode
        }),
{
    lemma_wire_keys_distinct();
    lemma_from_pairs_concat(front, seg, start);
    if s.fallback_stratum_url is Some {
        lemma_segment_shape_text(seg, "fallbackStratumURL"@, s.fallback_stratum_url);
        lemma_from_pairs_single(seg, acc);
    } else {
        assert(entries_of(seg).len() == seg.len());
        assert(seg.len() == 0);
        assert(seg =~= Seq::<(String, StringOrInt)>::empty());
        assert(front + seg =~= front);
    }
}

proof fn lemma_rt_step_9(
    front: Seq<(String, StringOrInt)>,
    seg: Seq<(String, StringOrInt)>,
    start: Settings,
    acc: Settings,
    s: Settings,
)
    requires
        spec_from_pairs(front, start) == Some(acc),
        entries_of(seg) == opt_int_entry("fallbackStratumPort"@, spec_opt_u16(s.fallback_stratum_port)),
    ensures
        spec_from_pairs(front + seg, start) matches Some(d) && ({
            &&& (s.fallback_stratum_port is Some ==> d.fallback_stratum_port == s.fallback_stratum_port)
            &&& (s.fallback_stratum_port is None ==> d.fallback_stratum_port == acc.fallback_stratum_port)
            &&& d.hostname == acc.hostname
            &&& d.ssid == acc.ssid
            &&& d.wifi_pass == acc.wifi_pass
            &&& d.stratum_url == acc.stratum_url
            &&& d.stratum_port == acc.stratum_port
            &&& d.stratum_user == acc.stratum_user
            &&& d.stratum_password == acc.stratum_password
            &&& d.fallback_stratum_url == acc.fallback_stratum_url
            &&& d.fallback_stratum_user == acc.fallback_stratum_user
            &&& d.fallback_stratum_password == acc.fallback_stratum_password
            &&& d.fanspeed == acc.fanspeed
            &&& d.autofanspeed == acc.autofanspeed
            &&& d.core_voltage == acc.core_voltage
            &&& d.frequency == acc.frequency
            &&& d.flip_screen == acc.flip_screen
            &&& d.invert_fan_polarity == acc.invert_fan_polarity
            &&& d.invert_screen == acc.invert_screen
            &&& d.overheat_mode == acc.overheat_mode
        }),
{
    lemma_wire_keys_distinct();
    lemma_from_pairs_concat(front, seg, start);
    if s.fallback_stratum_port is Some {
        lemma_segment_shape_int(seg, "fallbackStratumPort"@, spec_opt_u16(s.fallback_stratum_port));
        lemma_from_pairs_single(seg, acc);
    } else {
        assert(entries_of(seg).len() == seg.len());
        assert(seg.len() == 0);
        assert(seg =~= Seq::<(String, StringOrInt)>::empty());
        assert(front + seg =~= front);
    }
}

proof fn lemma_rt_step_10(
    front: Seq<(String, StringOrInt)>,
    seg: Seq<(String, StringOrInt)>,
    start: Settings,
    acc: Settings,
    s: Settings,
)
    requires
        spec_from_pairs(front, start) == Some(acc),
        entries_of(seg) == opt_text_entry("fallbackStratumUser"@, s.fallback_stratum_user),
    ensures
        spec_from_pairs(front + seg, start) matches Some(d) && ({
            &&& (s.fallback_stratum_user is Some ==> spec_text_like(d.fallback_stratum_user, s.fallback_stratum_user))
            &&& (s.fallback_stratum_user is None ==> d.fallback_stratum_user == acc.fallback_stratum_user)
            &&& d.hostname == acc.hostname
            &&& d.ssid == acc.ssid
            &&& d.wifi_pass == acc.wifi_pass
            &&& d.stratum_url == acc.stratum_url
            &&& d.stratum_port == acc.stratum_port
            &&& d.stratum_user == acc.stratum_user
            &&& d.stratum_password == acc.stratum_password
            &&& d.fallback_stratum_url == acc.fallback_stratum_url
            &&& d.fallback_stratum_port == acc.fallback_stratum_port
            &&& d.fallback_stratum_password == acc.fallback_stratum_password
            &&& d.fanspeed == acc.fanspeed
            &&& d.autofanspeed == acc.autofanspeed
            &&& d.core_voltage == acc.core_voltage
            &&& d.frequency == acc.frequency
            &&& d.flip_screen == acc.flip_screen
            &&& d.invert_fan_polarity == acc.invert_fan_polarity
            &&& d.invert_screen == acc.invert_screen
            &&& d.overheat_mode == acc.overheat_mode
        }),
{
    lemma_wire_keys_distinct();
    lemma_from_pairs_concat(front, seg, start);
    if s.fallback_stratum_user is Some {
        lemma_segment_shape_text(seg, "fallbackStratumUser"@, s.fallback_stratum_user);
        lemma_from_pairs_single(seg, acc);
    } else {
        assert(entries_of(seg).len() == seg.len());
        assert(seg.len() == 0);
        assert(seg =~= Seq::<(String, StringOrInt)>::empty());
        assert(front + seg =~= front);
    }
}

proof fn lemma_rt_step_11(
    front: Seq<(String, StringOrInt)>,
    seg: Seq<(String, StringOrInt)>,
    start: Settings,
    acc: Settings,
    s: Settings,
)
    requires
        spec_from_pairs(front, start) == Some(acc),
        entries_of(seg) == opt_text_entry("fallbackStratumPassword"@, s.fallback_stratum_password),
    ensures
        spec_from_pairs(front + seg, start) matches Some(d) && ({
            &&& (s.fallback_stratum_password is Some ==> spec_text_like(d.fallback_stratum_password, s.fallback_stratum_password))
            &&& (s.fallback_stratum_password is None ==> d.fallback_stratum_password == acc.fallback_stratum_password)
            &&& d.hostname == acc.hostname
            &&& d.ssid == acc.ssid
            &&& d.wifi_pass == acc.wifi_pass
            &&& d.stratum_url == acc.stratum_url
            &&& d.stratum_port == acc.stratum_port
            &&& d.stratum_user == acc.stratum_user
            &&& d.stratum_password == acc.stratum_password
            &&& d.fallback_stratum_url == acc.fallback_stratum_url
            &&& d.fallback_stratum_port == acc.fallback_stratum_port
            &&& d.fallback_stratum_user == acc.fallback_stratum_user
            &&& d.fanspeed == acc.fanspeed
            &&& d.autofanspeed == acc.autofanspeed
            &&& d.core_voltage == acc.core_voltage
            &&& d.frequency == acc.frequency
            &&& d.flip_screen == acc.flip_screen
            &&& d.invert_fan_polarity == acc.invert_fan_polarity
            &&& d.invert_screen == acc.invert_screen
            &&& d.overheat_mode == acc.overheat_mode
        }),
{
    lemma_wire_keys_distinct();
    lemma_from_pairs_concat(front, seg, start);
    if s.fallback_stratum_password is Some {
        lemma_segment_shape_text(seg, "fallbackStratumPassword"@, s.fallback_stratum_password);
        lemma_from_pairs_single(seg, acc);
    } else {
        assert(entries_of(seg).len() == seg.len());
        assert(seg.len() == 0);
        assert(seg =~= Seq::<(String, StringOrInt)>::empty());
        assert(front + seg =~= front);
    }
}

proof fn lemma_rt_step_12(
    front: Seq<(String, StringOrInt)>,
    seg: Seq<(String, StringOrInt)>,
    start: Settings,
    acc: Settings,
    s: Settings,
)
    requires
        spec_from_pairs(front, start) == Some(acc),
        entries_of(seg) == opt_int_entry("fanspeed"@, spec_opt_u8(s.fanspeed)),
    ensures
        spec_from_pairs(front + seg, start) matches Some(d) && ({
            &&& (s.fanspeed is Some ==> d.fanspeed == s.fanspeed)
            &&& (s.fanspeed is None ==> d.fanspeed == acc.fanspeed)
            &&& d.hostname == acc.hostname
            &&& d.ssid == acc.ssid
            &&& d.wifi_pass == acc.wifi_pass
            &&& d.stratum_url == acc.stratum_url
            &&& d.stratum_port == acc.stratum_port
            &&& d.stratum_user == acc.stratum_user
            &&& d.stratum_password == acc.stratum_password
            &&& d.fallback_stratum_url == acc.fallback_stratum_url
            &&& d.fallback_stratum_port == acc.fallback_stratum_port
            &&& d.fallback_stratum_user == acc.fallback_stratum_user
            &&& d.fallback_stratum_password == acc.fallback_stratum_password
            &&& d.autofanspeed == acc.autofanspeed
            &&& d.core_voltage == acc.core_voltage
            &&& d.frequency == acc.frequency
            &&& d.flip_screen == acc.flip_screen
            &&& d.invert_fan_polarity == acc.invert_fan_polarity
            &&& d.invert_screen == acc.invert_screen
            &&& d.overheat_mode == acc.overheat_mode
        }),
{
    lemma_wire_keys_distinct();
    lemma_from_pairs_concat(front, seg, start);
    if s.fanspeed is Some {
        lemma_segment_shape_int(seg, "fanspeed"@, spec_opt_u8(s.fanspeed));
        lemma_from_pairs_single(seg, acc);
    } else {
        assert(entries_of(seg).len() == seg.len());
        assert(seg.len() == 0);
        assert(seg =~= Seq::<(String, StringOrInt)>::empty());
        assert(front + seg =~= front);
    }
}

proof fn lemma_rt_step_13(
    front: Seq<(String, StringOrInt)>,
    seg: Seq<(String, StringOrInt)>,
    start: Settings,
    acc: Settings,
    s: Settings,
)
    requires
        spec_from_pairs(front, start) == Some(acc),
        entries_of(seg) == opt_int_entry("autofanspeed"@, spec_opt_bool(s.autofanspeed)),
    ensures
        spec_from_pairs(front + seg, start) matches Some(d) && ({
            &&& (s.autofanspeed is Some ==> d.autofanspeed == s.autofanspeed)
            &&& (s.autofanspeed is None ==> d.autofanspeed == acc.autofanspeed)
            &&& d.hostname == acc.hostname
            &&& d.ssid == acc.ssid
            &&& d.wifi_pass == acc.wifi_pass
            &&& d.stratum_url == acc.stratum_url
            &&& d.stratum_port == acc.stratum_port
            &&& d.stratum_user == acc.stratum_user
            &&& d.stratum_password == acc.stratum_password
            &&& d.fallback_stratum_url == acc.fallback_stratum_url
            &&& d.fallback_stratum_port == acc.fallback_stratum_port
            &&& d.fallback_stratum_user == acc.fallback_stratum_user
            &&& d.fallback_stratum_password == acc.fallback_stratum_password
            &&& d.fanspeed == acc.fanspeed
            &&& d.core_voltage == acc.core_voltage
            &&& d.frequency == acc.frequency
            &&& d.flip_screen == acc.flip_screen
            &&& d.invert_fan_polarity == acc.invert_fan_polarity
            &&& d.invert_screen == acc.invert_screen
            &&& d.overheat_mode == acc.overheat_mode
        }),
{
    lemma_wire_keys_distinct();
    lemma_from_pairs_concat(front, seg, start);
    if s.autofanspeed is Some {
        lemma_segment_shape_int(seg, "autofanspeed"@, spec_opt_bool(s.autofanspeed));
        lemma_from_pairs_single(seg, acc);
    } else {
        assert(entries_of(seg).len() == seg.len());
        assert(seg.len() == 0);
        assert(seg =~= Seq::<(String, StringOrInt)>::empty());
        assert(front + seg =~= front);
    }
}

proof fn lemma_rt_step_14(
    front: Seq<(String, StringOrInt)>,
    seg: Seq<(String, StringOrInt)>,
    start: Settings,
    acc: Settings,
    s: Settings,
)
    requires
        spec_from_pairs(front, start) == Some(acc),
        entries_of(seg) == opt_int_entry("coreVoltage"@, spec_opt_voltage(s.core_voltage)),
    ensures
        spec_from_pairs(front + seg, start) matches Some(d) && ({
            &&& (s.core_voltage is Some ==> d.core_voltage == s.core_voltage)
            &&& (s.core_voltage is None ==> d.core_voltage == acc.core_voltage)
            &&& d.hostname == acc.hostname
            &&& d.ssid == acc.ssid
            &&& d.wifi_pass == acc.wifi_pass
            &&& d.stratum_url == acc.stratum_url
            &&& d.stratum_port == acc.stratum_port
            &&& d.stratum_user == acc.stratum_user
            &&& d.stratum_password == acc.stratum_password
            &&& d.fallback_stratum_url == acc.fallback_stratum_url
            &&& d.fallback_stratum_port == acc.fallback_stratum_port
            &&& d.fallback_stratum_user == acc.fallback_stratum_user
            &&& d.fallback_stratum_password == acc.fallback_stratum_password
            &&& d.fanspeed == acc.fanspeed
            &&& d.autofanspeed == acc.autofanspeed
            &&& d.frequency == acc.frequency
            &&& d.flip_screen == acc.flip_screen
            &&& d.invert_fan_polarity == acc.invert_fan_polarity
            &&& d.invert_screen == acc.invert_screen
            &&& d.overheat_mode == acc.overheat_mode
        }),
{
    lemma_wire_keys_distinct();
    lemma_from_pairs_concat(front, seg, start);
    if s.core_voltage is Some {
        lemma_segment_shape_int(seg, "coreVoltage"@, spec_opt_voltage(s.core_voltage));
        lemma_from_pairs_single(seg, acc);
        lemma_clock_wire_round_trip(Frequency::FourHundred, s.core_voltage->0);
    } else {
        assert(entries_of(seg).len() == seg.len());
        assert(seg.len() == 0);
        assert(seg =~= Seq::<(String, StringOrInt)>::empty());
        assert(front + seg =~= front);
    }
}

proof fn lemma_rt_step_15(
    front: Seq<(String, StringOrInt)>,
    seg: Seq<(String, StringOrInt)>,
    start: Settings,
    acc: Settings,
    s: Settings,
)
    requires
        spec_from_pairs(front, start) == Some(acc),
        entries_of(seg) == opt_int_entry("frequency"@, spec_opt_frequency(s.frequency)),
    ensures
        spec_from_pairs(front + seg, start) matches Some(d) && ({
            &&& (s.frequency is Some ==> d.frequency == s.frequency)
            &&& (s.frequency is None ==> d.frequency == acc.frequency)
            &&& d.hostname == acc.hostname
            &&& d.ssid == acc.ssid
            &&& d.wifi_pass == acc.wifi_pass
            &&& d.stratum_url == acc.stratum_url
            &&& d.stratum_port == acc.stratum_port
            &&& d.stratum_user == acc.stratum_user
            &&& d.stratum_password == acc.stratum_password
            &&& d.fallback_stratum_url == acc.fallback_stratum_url
            &&& d.fallback_stratum_port == acc.fallback_stratum_port
            &&& d.fallback_stratum_user == acc.fallback_stratum_user
            &&& d.fallback_stratum_password == acc.fallback_stratum_password
            &&& d.fanspeed == acc.fanspeed
            &&& d.autofanspeed == acc.autofanspeed
            &&& d.core_voltage == acc.core_voltage
            &&& d.flip_screen == acc.flip_screen
            &&& d.invert_fan_polarity == acc.invert_fan_polarity
            &&& d.invert_screen == acc.invert_screen
            &&& d.overheat_mode == acc.overheat_mode
        }),
{
    lemma_wire_keys_distinct();
    lemma_from_pairs_concat(front, seg, start);
    if s.frequency is Some {
        lemma_segment_shape_int(seg, "frequency"@, spec_opt_frequency(s.frequency));
        lemma_from_pairs_single(seg, acc);
        lemma_clock_wire_round_trip(s.frequency->0, Voltage::OneThousand);
    } else {
        assert(entries_of(seg).len() == seg.len());
        assert(seg.len() == 0);
        assert(seg =~= Seq::<(String, StringOrInt)>::empty());
        assert(front + seg =~= front);
    }
}

proof fn lemma_rt_step_16(
    front: Seq<(String, StringOrInt)>,
    seg: Seq<(String, StringOrInt)>,
    start: Settings,
    acc: Settings,
    s: Settings,
)
    requires
        spec_from_pairs(front, start) == Some(acc),
        entries_of(seg) == opt_int_entry("flipscreen"@, spec_opt_bool(s.flip_screen)),
    ensures
        spec_from_pairs(front + seg, start) matches Some(d) && ({
            &&& (s.flip_screen is Some ==> d.flip_screen == s.flip_screen)
            &&& (s.flip_screen is None ==> d.flip_screen == acc.flip_screen)
            &&& d.hostname == acc.hostname
            &&& d.ssid == acc.ssid
            &&& d.wifi_pass == acc.wifi_pass
            &&& d.stratum_url == acc.stratum_url
            &&& d.stratum_port == acc.stratum_port
            &&& d.stratum_user == acc.stratum_user
            &&& d.stratum_password == acc.stratum_password
            &&& d.fallback_stratum_url == acc.fallback_stratum_url
            &&& d.fallback_stratum_port == acc.fallback_stratum_port
            &&& d.fallback_stratum_user == acc.fallback_stratum_user
            &&& d.fallback_stratum_password == acc.fallback_stratum_password
            &&& d.fanspeed == acc.fanspeed
            &&& d.autofanspeed == acc.autofanspeed
            &&& d.core_voltage == acc.core_voltage
            &&& d.frequency == acc.frequency
            &&& d.invert_fan_polarity == acc.invert_fan_polarity
            &&& d.invert_screen == acc.invert_screen
            &&& d.overheat_mode == acc.overheat_mode
        }),
{
    lemma_wire_keys_distinct();
    lemma_from_pairs_concat(front, seg, start);
    if s.flip_screen is Some {
        lemma_segment_shape_int(seg, "flipscreen"@, spec_opt_bool(s.flip_screen));
        lemma_from_pairs_single(seg, acc);
    } else {
        assert(entries_of(seg).len() == seg.len());
        assert(seg.len() == 0);
        assert(seg =~= Seq::<(String, StringOrInt)>::empty());
        assert(front + seg =~= front);
    }
}

proof fn lemma_rt_step_17(
    front: Seq<(String, StringOrInt)>,
    seg: Seq<(String, StringOrInt)>,
    start: Settings,
    acc: Settings,
    s: Settings,
)
    requires
        spec_from_pairs(front, start) == Some(acc),
        entries_of(seg) == opt_int_entry("invertfanpolarity"@, spec_opt_bool(s.invert_fan_polarity)),
    ensures
        spec_from_pairs(front + seg, start) matches Some(d) && ({
            &&& (s.invert_fan_polarity is Some ==> d.invert_fan_polarity == s.invert_fan_polarity)
            &&& (s.invert_fan_polarity is None ==> d.invert_fan_polarity == acc.invert_fan_polarity)
            &&& d.hostname == acc.hostname
            &&& d.ssid == acc.ssid
            &&& d.wifi_pass == acc.wifi_pass
            &&& d.stratum_url == acc.stratum_url
            &&& d.stratum_port == acc.stratum_port
            &&& d.stratum_user == acc.stratum_user
            &&& d.stratum_password == acc.stratum_password
            &&& d.fallback_stratum_url == acc.fallback_stratum_url
            &&& d.fallback_stratum_port == acc.fallback_stratum_port
            &&& d.fallback_stratum_user == acc.fallback_stratum_user
            &&& d.fallback_stratum_password == acc.fallback_stratum_password
            &&& d.fanspeed == acc.fanspeed
            &&& d.autofanspeed == acc.autofanspeed
            &&& d.core_voltage == acc.core_voltage
            &&& d.frequency == acc.frequency
            &&& d.flip_screen == acc.flip_screen
            &&& d.invert_screen == acc.invert_screen
            &&& d.overheat_mode == acc.overheat_mode
        }),
{
    lemma_wire_keys_distinct();
    lemma_from_pairs_concat(front, seg, start);
    if s.invert_fan_polarity is Some {
        lemma_segment_shape_int(seg, "invertfanpolarity"@, spec_opt_bool(s.invert_fan_polarity));
        lemma_from_pairs_single(seg, acc);
    } else {
        assert(entries_of(seg).len() == seg.len());
        assert(seg.len() == 0);
        assert(seg =~= Seq::<(String, StringOrInt)>::empty());
        assert(front + seg =~= front);
    }
}

proof fn lemma_rt_step_18(
    front: Seq<(String, StringOrInt)>,
    seg: Seq<(String, StringOrInt)>,
    start: Settings,
    acc: Settings,
    s: Settings,
)
    requires
        spec_from_pairs(front, start) == Some(acc),
        entries_of(seg) == opt_int_entry("invertscreen"@, spec_opt_bool(s.invert_screen)),
    ensures
        spec_from_pairs(front + seg, start) matches Some(d) && ({
            &&& (s.invert_screen is Some ==> d.invert_screen == s.invert_screen)
            &&& (s.invert_screen is None ==> d.invert_screen == acc.invert_screen)
            &&& d.hostname == acc.hostname
            &&& d.ssid == acc.ssid
            &&& d.wifi_pass == acc.wifi_pass
            &&& d.stratum_url == acc.stratum_url
            &&& d.stratum_port == acc.stratum_port
            &&& d.stratum_user == acc.stratum_user
            &&& d.stratum_password == acc.stratum_password
            &&& d.fallback_stratum_url == acc.fallback_stratum_url
            &&& d.fallback_stratum_port == acc.fallback_stratum_port
            &&& d.fallback_stratum_user == acc.fallback_stratum_user
            &&& d.fallback_stratum_password == acc.fallback_stratum_password
            &&& d.fanspeed == acc.fanspeed
            &&& d.autofanspeed == acc.autofanspeed
            &&& d.core_voltage == acc.core_voltage
            &&& d.frequency == acc.frequency
            &&& d.flip_screen == acc.flip_screen
            &&& d.invert_fan_polarity == acc.invert_fan_polarity
            &&& d.overheat_mode == acc.overheat_mode
        }),
{
    lemma_wire_keys_distinct();
    lemma_from_pairs_concat(front, seg, start);
    if s.invert_screen is Some {
        lemma_segment_shape_int(seg, "invertscreen"@, spec_opt_bool(s.invert_screen));
        lemma_from_pairs_single(seg, acc);
    } else {
        assert(entries_of(seg).len() == seg.len());
        assert(seg.len() == 0);
        assert(seg =~= Seq::<(String, StringOrInt)>::empty());
        assert(front + seg =~= front);
    }
}

proof fn lemma_rt_step_19(
    front: Seq<(String, StringOrInt)>,
    seg: Seq<(String, StringOrInt)>,
    start: Settings,
    acc: Settings,
    s: Settings,
)
    requires
        spec_from_pairs(front, start) == Some(acc),
        entries_of(seg) == opt_int_entry("overheat_mode"@, spec_opt_bool(s.overheat_mode)),
    ensures
        spec_from_pairs(front + seg, start) matches Some(d) && ({
            &&& (s.overheat_mode is Some ==> d.overheat_mode == s.overheat_mode)
            &&& (s.overheat_mode is None ==> d.overheat_mode == acc.overheat_mode)
            &&& d.hostname == acc.hostname
            &&& d.ssid == acc.ssid
            &&& d.wifi_pass == acc.wifi_pass
            &&& d.stratum_url == acc.stratum_url
            &&& d.stratum_port == acc.stratum_port
            &&& d.stratum_user == acc.stratum_user
            &&& d.stratum_password == acc.stratum_password
            &&& d.fallback_stratum_url == acc.fallback_stratum_url
            &&& d.fallback_stratum_port == acc.fallback_stratum_port
            &&& d.fallback_stratum_user == acc.fallback_stratum_user
            &&& d.fallback_stratum_password == acc.fallback_stratum_password
            &&& d.fanspeed == acc.fanspeed
            &&& d.autofanspeed == acc.autofanspeed
            &&& d.core_voltage == acc.core_voltage
            &&& d.frequency == acc.frequency
            &&& d.flip_screen == acc.flip_screen
            &&& d.invert_fan_polarity == acc.invert_fan_polarity
            &&& d.invert_screen == acc.invert_screen
        }),
{
    lemma_wire_keys_distinct();
    lemma_from_pairs_concat(front, seg, start);
    if s.overheat_mode is Some {
        lemma_segment_shape_int(seg, "overheat_mode"@, spec_opt_bool(s.overheat_mode));
        lemma_from_pairs_single(seg, acc);
    } else {
        assert(entries_of(seg).len() == seg.len());
        assert(seg.len() == 0);
        assert(seg =~= Seq::<(String, StringOrInt)>::empty());
        assert(front + seg =~= front);
    }
}

/// Cut the encoded prefix of a payload in two: when the entries of a
/// prefix split as `fe + se` with `fe` exactly `a` entries long, the
/// pairs split at `a` the same way.
proof fn lemma_rt_cut(
    ps: Seq<(String, StringOrInt)>,
    a: int,
    b: int,
    fe: Seq<(Seq<char>, WireValue)>,
    se: Seq<(Seq<char>, WireValue)>,
)
    requires
        0 <= a <= b <= ps.len(),
        entries_of(ps.subrange(0, b)) == fe + se,
        fe.len() == a,
    ensures
        entries_of(ps.subrange(0, a)) == fe,
        entries_of(ps.subrange(a, b)) == se,
        ps.subrange(0, b) == ps.subrange(0, a) + ps.subrange(a, b),
{
    let frontb = ps.subrange(0, b);
    assert(entries_of(frontb).len() == frontb.len());
    assert(ps.subrange(0, b) =~= ps.subrange(0, a) + ps.subrange(a, b));
    lemma_entries_subrange(frontb, 0, a);
    lemma_entries_subrange(frontb, a, b);
    assert(ps.subrange(0, a) =~= frontb.subrange(0, a));
    assert(ps.subrange(a, b) =~= frontb.subrange(a, b));
    assert(entries_of(ps.subrange(0, a)) =~= (fe + se).subrange(0, a));
    assert((fe + se).subrange(0, a) =~= fe);
    assert(entries_of(ps.subrange(a, b)) =~= (fe + se).subrange(a, b));
    assert((fe + se).subrange(a, b) =~= se);
}

/// Decoding the payload of a patch gives the patch back: for every
/// patch, a payload that encodes it decodes without error to a patch
/// that says the same thing — scalar fields exactly, text fields
/// character for character.
#[verifier::rlimit(100)]
pub proof fn lemma_payload_round_trip(s: Settings, ps: Seq<(String, StringOrInt)>)
    requires
        entries_of(ps) == spec_entries(s),
    ensures
        spec_from_pairs(ps, spec_empty_settings()) matches Some(d) && spec_settings_like(d, s),
{
    let e1 = opt_text_entry("hostname"@, s.hostname);
    let e2 = opt_text_entry("ssid"@, s.ssid);
    let e3 = opt_text_entry("wifiPass"@, s.wifi_pass);
    let e4 = opt_text_entry("stratumURL"@, s.stratum_url);
    let e5 = opt_int_entry("stratumPort"@, spec_opt_u16(s.stratum_port));
    let e6 = opt_text_entry("stratumUser"@, s.stratum_user);
    let e7 = opt_text_entry("stratumPassword"@, s.stratum_password);
    let e8 = opt_text_entry("fallbackStratumURL"@, s.fallback_stratum_url);
    let e9 = opt_int_entry("fallbackStratumPort"@, spec_opt_u16(s.fallback_stratum_port));
    let e10 = opt_text_entry("fallbackStratumUser"@, s.fallback_stratum_user);
    let e11 = opt_text_entry("fallbackStratumPassword"@, s.fallback_stratum_password);
    let e12 = opt_int_entry("fanspeed"@, spec_opt_u8(s.fanspeed));
    let e13 = opt_int_entry("autofanspeed"@, spec_opt_bool(s.autofanspeed));
    let e14 = opt_int_entry("coreVoltage"@, spec_opt_voltage(s.core_voltage));
    let e15 = opt_int_entry("frequency"@, spec_opt_frequency(s.frequency));
    let e16 = opt_int_entry("flipscreen"@, spec_opt_bool(s.flip_screen));
    let e17 = opt_int_entry("invertfanpolarity"@, spec_opt_bool(s.invert_fan_polarity));
    let e18 = opt_int_entry("invertscreen"@, spec_opt_bool(s.invert_screen));
    let e19 = opt_int_entry("overheat_mode"@, spec_opt_bool(s.overheat_mode));
    let c0 = Seq::<(Seq<char>, WireValue)>::empty();
    let c1 = c0 + e1;
    let c2 = c1 + e2;
    let c3 = c2 + e3;
    let c4 = c3 + e4;
    let c5 = c4 + e5;
    let c6 = c5 + e6;
    let c7 = c6 + e7;
    let c8 = c7 + e8;
    let c9 = c8 + e9;
    let c10 = c9 + e10;
    let c11 = c10 + e11;
    let c12 = c11 + e12;
    let c13 = c12 + e13;
    let c14 = c13 + e14;
    let c15 = c14 + e15;
    let c16 = c15 + e16;
    let c17 = c16 + e17;
    let c18 = c17 + e18;
    let c19 = c18 + e19;
    assert(spec_entries(s) =~= c19);
    let total = ps.len() as int;
    assert(entries_of(ps).len() == ps.len());
    let m19: int = total;
    let m18: int = m19 - e19.len();
    let m17: int = m18 - e18.len();
    let m16: int = m17 - e17.len();
    let m15: int = m16 - e16.len();
    let m14: int = m15 - e15.len();
    let m13: int = m14 - e14.len();
    let m12: int = m13 - e13.len();
    let m11: int = m12 - e12.len();
    let m10: int = m11 - e11.len();
    let m9: int = m10 - e10.len();
    let m8: int = m9 - e9.len();
    let m7: int = m8 - e8.len();
    let m6: int = m7 - e7.len();
    let m5: int = m6 - e6.len();
    let m4: int = m5 - e5.len();
    let m3: int = m4 - e4.len();
    let m2: int = m3 - e3.len();
    let m1: int = m2 - e2.len();
    let m0: int = m1 - e1.len();
    assert(ps.subrange(0, m19) =~= ps);
    assert(entries_of(ps.subrange(0, m19)) == c19);
    lemma_rt_cut(ps, m18, m19, c18, e19);
    lemma_rt_cut(ps, m17, m18, c17, e18);
    lemma_rt_cut(ps, m16, m17, c16, e17);
    lemma_rt_cut(ps, m15, m16, c15, e16);
    lemma_rt_cut(ps, m14, m15, c14, e15);
    lemma_rt_cut(ps, m13, m14, c13, e14);
    lemma_rt_cut(ps, m12, m13, c12, e13);
    lemma_rt_cut(ps, m11, m12, c11, e12);
    lemma_rt_cut(ps, m10, m11, c10, e11);
    lemma_rt_cut(ps, m9, m10, c9, e10);
    lemma_rt_cut(ps, m8, m9, c8, e9);
    lemma_rt_cut(ps, m7, m8, c7, e8);
    lemma_rt_cut(ps, m6, m7, c6, e7);
    lemma_rt_cut(ps, m5, m6, c5, e6);
    lemma_rt_cut(ps, m4, m5, c4, e5);
    lemma_rt_cut(ps, m3, m4, c3, e4);
    lemma_rt_cut(ps, m2, m3, c2, e3);
    lemma_rt_cut(ps, m1, m2, c1, e2);
    lemma_rt_cut(ps, m0, m1, c0, e1);
    assert(ps.subrange(0, m0) =~= Seq::<(String, StringOrInt)>::empty());
    let start = spec_empty_settings();
    assert(spec_from_pairs(ps.subrange(0, m0), start) == Some(start));
    lemma_rt_step_1(ps.subrange(0, m0), ps.subrange(m0, m1), start, start, s);
    let acc1 = spec_from_pairs(ps.subrange(0, m1), start)->0;
    lemma_rt_step_2(ps.subrange(0, m1), ps.subrange(m1, m2), start, acc1, s);
    let acc2 = spec_from_pairs(ps.subrange(0, m2), start)->0;
    lemma_rt_step_3(ps.subrange(0, m2), ps.subrange(m2, m3), start, acc2, s);
    let acc3 = spec_from_pairs(ps.subrange(0, m3), start)->0;
    lemma_rt_step_4(ps.subrange(0, m3), ps.subrange(m3, m4), start, acc3, s);
    let acc4 = spec_from_pairs(ps.subrange(0, m4), start)->0;
    lemma_rt_step_5(ps.subrange(0, m4), ps.subrange(m4, m5), start, acc4, s);
    let acc5 = spec_from_pairs(ps.subrange(0, m5), start)->0;
    lemma_rt_step_6(ps.subrange(0, m5), ps.subrange(m5, m6), start, acc5, s);
    let acc6 = spec_from_pairs(ps.subrange(0, m6), start)->0;
    lemma_rt_step_7(ps.subrange(0, m6), ps.subrange(m6, m7), start, acc6, s);
    let acc7 = spec_from_pairs(ps.subrange(0, m7), start)->0;
    lemma_rt_step_8(ps.subrange(0, m7), ps.subrange(m7, m8), start, acc7, s);
    let acc8 = spec_from_pairs(ps.subrange(0, m8), start)->0;
    lemma_rt_step_9(ps.subrange(0, m8), ps.subrange(m8, m9), start, acc8, s);
    let acc9 = spec_from_pairs(ps.subrange(0, m9), start)->0;
    lemma_rt_step_10(ps.subrange(0, m9), ps.subrange(m9, m10), start, acc9, s);
    let acc10 = spec_from_pairs(ps.subrange(0, m10), start)->0;
    lemma_rt_step_11(ps.subrange(0, m10), ps.subrange(m10, m11), start, acc10, s);
    let acc11 = spec_from_pairs(ps.subrange(0, m11), start)->0;
    lemma_rt_step_12(ps.subrange(0, m11), ps.subrange(m11, m12), start, acc11, s);
    let acc12 = spec_from_pairs(ps.subrange(0, m12), start)->0;
    lemma_rt_step_13(ps.subrange(0, m12), ps.subrange(m12, m13), start, acc12, s);
    let acc13 = spec_from_pairs(ps.subrange(0, m13), start)->0;
    lemma_rt_step_14(ps.subrange(0, m13), ps.subrange(m13, m14), start, acc13, s);
    let acc14 = spec_from_pairs(ps.subrange(0, m14), start)->0;
    lemma_rt_step_15(ps.subrange(0, m14), ps.subrange(m14, m15), start, acc14, s);
    let acc15 = spec_from_pairs(ps.subrange(0, m15), start)->0;
    lemma_rt_step_16(ps.subrange(0, m15), ps.subrange(m15, m16), start, acc15, s);
    let acc16 = spec_from_pairs(ps.subrange(0, m16), start)->0;
    lemma_rt_step_17(ps.subrange(0, m16), ps.subrange(m16, m17), start, acc16, s);
    let acc17 = spec_from_pairs(ps.subrange(0, m17), start)->0;
    lemma_rt_step_18(ps.subrange(0, m17), ps.subrange(m17, m18), start, acc17, s);
    let acc18 = spec_from_pairs(ps.subrange(0, m18), start)->0;
    lemma_rt_step_19(ps.subrange(0, m18), ps.subrange(m18, m19), start, acc18, s);
    let acc19 = spec_from_pairs(ps.subrange(0, m19), start)->0;
    assert(spec_from_pairs(ps, spec_empty_settings()) == Some(acc19));
    assert(spec_settings_like(acc19, s));
}

} // verus!
