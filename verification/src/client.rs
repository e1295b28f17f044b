//! The transport client: builds the HTTP requests for each typed device
//! operation and classifies the raw responses the caller got back.
//!
//! The library never opens a connection itself. A caller takes an
//! [`HttpRequest`], performs it (with a short connection timeout, so one
//! unreachable device cannot stall anything), and hands back either the
//! status and body text or a transport failure. Everything on either
//! side of that exchange is verified here.

use vstd::prelude::*;

use crate::models::Error;
use crate::settings::{entries_of, spec_entries, Settings};
use crate::text::u64_to_string;
use crate::wire::StringOrInt;

verus! {

/// The HTTP methods the device API is driven with.
#[derive(Debug, Clone, Copy, PartialEq, Eq, Structural)]
pub enum Method {
    Get,
    Post,
    Patch,
}

/// A raw response as the caller saw it: the status code and the body
/// text, before classification.
#[derive(Debug, Clone)]
pub struct RawResponse {
    pub status: u16,
    pub body: String,
}

/// Classify a raw device response, reproducing the device firmware's
/// observed behaviour:
///
/// - any 3xx is the device rejecting the request as invalid (the
///   firmware redirects on invalid endpoints instead of answering 404),
///   so it is an error, never a success;
/// - any 5xx is a device-side failure, surfaced with status and body;
/// - everything else passes through to the caller for further decoding.
pub fn classify_response(response: RawResponse) -> (r: Result<RawResponse, Error>)
    ensures
        300 <= response.status < 400 ==> r == Result::<RawResponse, Error>::Err(
            Error::InvalidRequest(response.status),
        ),
        500 <= response.status < 600 ==> r == Result::<RawResponse, Error>::Err(
            Error::ApiServer(response.status, response.body),
        ),
        !(300 <= response.status < 400) && !(500 <= response.status < 600) ==> r == Result::<
            RawResponse,
            Error,
        >::Ok(response),
{
    if 300 <= response.status && response.status < 400 {
        Err(Error::InvalidRequest(response.status))
    } else if 500 <= response.status && response.status < 600 {
        Err(Error::ApiServer(response.status, response.body))
    } else {
        Ok(response)
    }
}

/// Classify the response to a blob upload. Uploads accept nothing but
/// plain success: a 2xx passes, a 3xx is the invalid-request
/// redirection, a 5xx is a device-side failure, and any other status
/// is reported as a failed upload.
pub fn classify_upload_response(response: RawResponse) -> (r: Result<(), Error>)
    ensures
        200 <= response.status < 300 ==> r is Ok,
        300 <= response.status < 400 ==> r == Result::<(), Error>::Err(
            Error::InvalidRequest(response.status),
        ),
        500 <= response.status < 600 ==> r == Result::<(), Error>::Err(
            Error::ApiServer(response.status, response.body),
        ),
        !(200 <= response.status < 600) ==> (r matches Err(e) && e matches Error::Http(_)),
{
    if 200 <= response.status && response.status < 300 {
        Ok(())
    } else if 300 <= response.status && response.status < 400 {
        Err(Error::InvalidRequest(response.status))
    } else if 500 <= response.status && response.status < 600 {
        Err(Error::ApiServer(response.status, response.body))
    } else {
        let mut message = "upload rejected with status ".to_owned();
        message.append(u64_to_string(response.status as u64).as_str());
        Err(Error::Http(message))
    }
}

/// The body a request carries: nothing, a flat JSON object given as
/// keyed wire scalars, or a raw octet-stream blob.
#[derive(Debug, Clone)]
pub enum RequestBody {
    Empty,
    Json(Vec<(String, StringOrInt)>),
    Octet(Vec<u8>),
}

/// One HTTP request against a device, ready to be performed: the
/// method, the full URL, and the body.
#[derive(Debug, Clone)]
pub struct HttpRequest {
    pub method: Method,
    pub url: String,
    pub body: RequestBody,
}

/// A device URL: the fixed scheme and API prefix around the device's
/// base address.
pub open spec fn spec_url(base: Seq<char>, path: Seq<char>) -> Seq<char> {
    "http://"@ + base + "/api"@ + path
}

/// A client bound to one device, identified by its base host/address.
/// It builds the typed requests of the device API; performing them,
/// with a short connection timeout, is the caller's part.
#[derive(Debug, Clone)]
pub struct BitaxeClient {
    pub base: String,
}

impl BitaxeClient {
    pub fn new(base: String) -> (r: Self)
        ensures
            r.base == base,
    {
        BitaxeClient { base }
    }

    /// The full URL for an API path on this device:
    /// `http://<base>/api<path>`.
    pub fn gen_url(&self, path: &str) -> (r: String)
        ensures
            r@ == spec_url(self.base@, path@),
    {
        let mut url = "http://".to_owned();
        url.append(self.base.as_str());
        url.append("/api");
        url.append(path);
        url
    }

    /// The request that reads a fresh snapshot of the device's state.
    pub fn system_info_request(&self) -> (r: HttpRequest)
        ensures
            r.method == Method::Get,
            r.url@ == spec_url(self.base@, "/system/info"@),
            r.body is Empty,
    {
        HttpRequest { method: Method::Get, url: self.gen_url("/system/info"), body: RequestBody::Empty }
    }

    /// The request that restarts the device. Success is any response
    /// that classifies clean; the body of the answer is informational
    /// only and never parsed.
    pub fn restart_request(&self) -> (r: HttpRequest)
        ensures
            r.method == Method::Post,
            r.url@ == spec_url(self.base@, "/system/restart"@),
            r.body is Empty,
    {
        HttpRequest {
            method: Method::Post,
            url: self.gen_url("/system/restart"),
            body: RequestBody::Empty,
        }
    }

    /// The request that patches the device's settings: exactly the set
    /// fields of the patch, as [`spec_entries`] lays down.
    pub fn update_settings_request(&self, settings: &Settings) -> (r: HttpRequest)
        ensures
            r.method == Method::Patch,
            r.url@ == spec_url(self.base@, "/system"@),
            r.body matches RequestBody::Json(ps) && entries_of(ps@) == spec_entries(*settings),
    {
        HttpRequest {
            method: Method::Patch,
            url: self.gen_url("/system"),
            body: RequestBody::Json(settings.to_pairs()),
        }
    }

    /// The request that uploads a firmware image to the device's OTA
    /// endpoint. The device reboots by itself on receiving it.
    pub fn upload_firmware_request(&self, contents: Vec<u8>) -> (r: HttpRequest)
        ensures
            r.method == Method::Post,
            r.url@ == spec_url(self.base@, "/system/OTA"@),
            r.body matches RequestBody::Octet(b) && b@ == contents@,
    {
        HttpRequest {
            method: Method::Post,
            url: self.gen_url("/system/OTA"),
            body: RequestBody::Octet(contents),
        }
    }

    /// The request that uploads a web-asset bundle to the device's OTA
    /// endpoint for the web interface.
    pub fn upload_www_request(&self, contents: Vec<u8>) -> (r: HttpRequest)
        ensures
            r.method == Method::Post,
            r.url@ == spec_url(self.base@, "/system/OTAWWW"@),
            r.body matches RequestBody::Octet(b) && b@ == contents@,
    {
        HttpRequest {
            method: Method::Post,
            url: self.gen_url("/system/OTAWWW"),
            body: RequestBody::Octet(contents),
        }
    }
}

} // verus!
