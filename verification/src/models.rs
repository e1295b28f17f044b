//! Core data types shared by every device operation: the error taxonomy
//! and the snapshot of a device's reported state that the library reads.

use vstd::prelude::*;

use crate::text::{spec_udigits, u64_to_string};

verus! {

/// Classified outcome of talking to a device.
///
/// - `Http`: a transport-level failure (DNS, connect, timeout); carries
///   the underlying message. Generally transient.
/// - `InvalidRequest`: the device rejected the call as malformed. The
///   device firmware answers invalid endpoints with a redirection
///   instead of a not-found status, so every 3xx status is classified
///   here. Never retried.
/// - `ApiServer`: a device-side 5xx; carries the status code and the
///   response body text. May be transient.
/// - `Decode`: the response body did not match the expected shape;
///   carries a description. Never retried.
/// - `Timeout`: the bounded restart-detection poll loop gave up.
#[derive(Debug, Clone, PartialEq, Eq)]
pub enum Error {
    Http(String),
    InvalidRequest(u16),
    ApiServer(u16, String),
    Decode(String),
    Timeout,
}

impl Error {
    /// Whether an error of this kind may resolve by itself, so that the
    /// restart-detection poll loop keeps waiting instead of aborting.
    pub open spec fn spec_is_transient(&self) -> bool {
        match self {
            Error::Http(_) => true,
            Error::ApiServer(_, _) => true,
            Error::InvalidRequest(_) => false,
            Error::Decode(_) => false,
            Error::Timeout => false,
        }
    }

    /// The human-readable account of an error.
    pub open spec fn spec_describe(&self) -> Seq<char> {
        match self {
            Error::Http(m) => "Error connecting to the API: "@ + m@,
            Error::InvalidRequest(c) => "Invalid request - status "@ + spec_udigits(*c as nat),
            Error::ApiServer(c, b) => "Server error on API call - status "@ + spec_udigits(
                *c as nat,
            ) + ", body '"@ + b@ + "'"@,
            Error::Decode(m) => "Error decoding the API response: "@ + m@,
            Error::Timeout => "Timed out waiting for the device to come back"@,
        }
    }

    /// Spell the error out, as it is reported to the operator.
    pub fn describe(&self) -> (r: String)
        ensures
            r@ == self.spec_describe(),
    {
        match self {
            Error::Http(m) => {
                let mut out = "Error connecting to the API: ".to_owned();
                out.append(m.as_str());
                out
            },
            Error::InvalidRequest(c) => {
                let mut out = "Invalid request - status ".to_owned();
                out.append(u64_to_string(*c as u64).as_str());
                out
            },
            Error::ApiServer(c, b) => {
                let mut out = "Server error on API call - status ".to_owned();
                out.append(u64_to_string(*c as u64).as_str());
                out.append(", body '");
                out.append(b.as_str());
                out.append("'");
                out
            },
            Error::Decode(m) => {
                let mut out = "Error decoding the API response: ".to_owned();
                out.append(m.as_str());
                out
            },
            Error::Timeout => "Timed out waiting for the device to come back".to_owned(),
        }
    }

    /// Transient errors are exactly the transport failures and the
    /// device-side 5xx answers.
    pub fn is_transient(&self) -> (r: bool)
        ensures
            r == self.spec_is_transient(),
    {
        match self {
            Error::Http(_) => true,
            Error::ApiServer(_, _) => true,
            Error::InvalidRequest(_) => false,
            Error::Decode(_) => false,
            Error::Timeout => false,
        }
    }
}

/// Arguments of the info command: the device to ask, and whether to
/// print raw JSON instead of the formatted table.
#[derive(Debug, Clone)]
pub struct InfoArgs {
    /// The URL of the device on the local network, usually an IP
    /// address, or a configured alias for one.
    pub base: String,
    /// Output JSON instead of the formatted information.
    pub json: bool,
}

/// Arguments of the restart command.
#[derive(Debug, Clone)]
pub struct RestartArgs {
    /// The URL of the device on the local network, usually an IP
    /// address, or a configured alias for one.
    pub base: String,
}

/// Arguments of the settings-update command.
#[derive(Debug, Clone)]
pub struct UpdateSetttingsArgs {
    /// The URL of the device on the local network, usually an IP
    /// address, or a configured alias for one.
    pub base: String,
    /// The sparse patch to send.
    pub settings: crate::settings::Settings,
}

/// Arguments of the alias command: associate an alias with a base.
#[derive(Debug, Clone)]
pub struct AliasArgs {
    /// The URL of the device on the local network, usually an IP
    /// address.
    pub base: String,
    /// The alias to reference the IP.
    pub alias: String,
}

/// Arguments of the scan command, with the addresses already read into
/// their 32-bit values.
#[derive(Debug, Clone)]
pub struct ScanArgs {
    /// An address inside the network to scan.
    pub base: u32,
    /// The dotted netmask that, applied to the base, gives the range
    /// to probe.
    pub mask: u32,
    /// Save newly found devices to the device book.
    pub should_save: bool,
}

/// The part of a device's reported state that the library's own logic
/// reads: the installed firmware version tag and the board revision.
/// The device reports many more fields (pool configuration, hash rate,
/// uptime, ...); those are decoded and displayed by the unverified
/// shell and never influence a decision made here.
#[derive(Debug, Clone)]
pub struct SystemInfo {
    pub version: String,
    pub board_version: String,
}

} // verus!
