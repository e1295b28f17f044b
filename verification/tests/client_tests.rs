use bacli::client::{
    classify_response, classify_upload_response, BitaxeClient, Method, RawResponse, RequestBody,
};
use bacli::models::Error;
use bacli::settings::Settings;

#[test]
fn redirection_is_classified_invalid_never_success() {
    for status in [300u16, 301, 302, 307, 399] {
        let r = classify_response(RawResponse { status, body: "ignored".to_string() });
        assert!(matches!(r, Err(Error::InvalidRequest(s)) if s == status));
    }
}

#[test]
fn server_error_carries_status_and_body() {
    let r = classify_response(RawResponse { status: 500, body: "oops".to_string() });
    match r {
        Err(Error::ApiServer(status, body)) => {
            assert_eq!(status, 500);
            assert_eq!(body, "oops");
        },
        other => panic!("expected a server error, got {:?}", other),
    }
}

#[test]
fn ordinary_statuses_pass_through() {
    for status in [200u16, 201, 204, 400, 404] {
        let r = classify_response(RawResponse { status, body: "payload".to_string() });
        match r {
            Ok(resp) => {
                assert_eq!(resp.status, status);
                assert_eq!(resp.body, "payload");
            },
            other => panic!("expected a pass-through, got {:?}", other),
        }
    }
}

#[test]
fn uploads_accept_nothing_but_plain_success() {
    assert!(classify_upload_response(RawResponse { status: 200, body: String::new() }).is_ok());
    assert!(classify_upload_response(RawResponse { status: 204, body: String::new() }).is_ok());

    let redirected = classify_upload_response(RawResponse { status: 302, body: String::new() });
    assert!(matches!(redirected, Err(Error::InvalidRequest(302))));

    let server = classify_upload_response(RawResponse { status: 503, body: "busy".to_string() });
    assert!(matches!(server, Err(Error::ApiServer(503, b)) if b == "busy"));

    let rejected = classify_upload_response(RawResponse { status: 404, body: String::new() });
    match rejected {
        Err(Error::Http(message)) => assert_eq!(message, "upload rejected with status 404"),
        other => panic!("expected a failed upload, got {:?}", other),
    }
}

#[test]
fn urls_join_the_base_with_the_api_prefix() {
    let client = BitaxeClient::new("192.168.1.5".to_string());
    assert_eq!(client.gen_url("/system/info"), "http://192.168.1.5/api/system/info");
    assert_eq!(client.gen_url("/system"), "http://192.168.1.5/api/system");
}

#[test]
fn typed_requests_target_their_endpoints() {
    let client = BitaxeClient::new("10.0.0.2".to_string());

    let info = client.system_info_request();
    assert_eq!(info.method, Method::Get);
    assert_eq!(info.url, "http://10.0.0.2/api/system/info");
    assert!(matches!(info.body, RequestBody::Empty));

    let restart = client.restart_request();
    assert_eq!(restart.method, Method::Post);
    assert_eq!(restart.url, "http://10.0.0.2/api/system/restart");
    assert!(matches!(restart.body, RequestBody::Empty));

    let firmware = client.upload_firmware_request(vec![1, 2, 3]);
    assert_eq!(firmware.method, Method::Post);
    assert_eq!(firmware.url, "http://10.0.0.2/api/system/OTA");
    assert!(matches!(firmware.body, RequestBody::Octet(b) if b == vec![1, 2, 3]));

    let www = client.upload_www_request(vec![9]);
    assert_eq!(www.method, Method::Post);
    assert_eq!(www.url, "http://10.0.0.2/api/system/OTAWWW");
    assert!(matches!(www.body, RequestBody::Octet(b) if b == vec![9]));
}

#[test]
fn settings_request_carries_the_sparse_patch() {
    let client = BitaxeClient::new("10.0.0.2".to_string());
    let patch = Settings { hostname: Some("miner".to_string()), ..Default::default() };
    let request = client.update_settings_request(&patch);
    assert_eq!(request.method, Method::Patch);
    assert_eq!(request.url, "http://10.0.0.2/api/system");
    match request.body {
        RequestBody::Json(pairs) => {
            assert_eq!(pairs.len(), 1);
            assert_eq!(pairs[0].0, "hostname");
            assert_eq!(pairs[0].1.as_str(), Some("miner"));
        },
        other => panic!("expected a JSON body, got {:?}", other),
    }
}
