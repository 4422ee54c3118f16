use vernachain::client::{auth_frame_from_quoted, ApiRequest, HttpMethod, VernachainClient, BLOCK_CHANNEL_CAPACITY};
use vernachain::error::VernachainError;
use vernachain::relay::{continue_after_forward, relay_action, RelayAction, RelayEvent};
use vernachain::sdk::{response_field, status_ok, SdkError, VernachainSDK};
use vernachain::status::{classify_status, needs_error_text, status_error, StatusClass};
use vernachain::text::{append_decimal, replace_every, trim_trailing_slashes};

fn client() -> VernachainClient {
    VernachainClient::new("http://localhost:8080/", Some("k1".to_string()))
}

fn assert_request(r: ApiRequest, method: HttpMethod, url: &str) {
    assert_eq!(r.method, method);
    assert_eq!(r.url, url);
}

#[test]
fn new_trims_base_and_derives_ws_url() {
    let c = client();
    assert_eq!(c.base_url(), "http://localhost:8080");
    assert_eq!(c.ws_url(), "ws://localhost:8080/");
    assert_eq!(c.api_key(), &Some("k1".to_string()));
    assert_eq!(c.authorization(), Some("Bearer k1".to_string()));
}

#[test]
fn https_node_gives_wss_stream() {
    let c = VernachainClient::new("https://node.example///", None);
    assert_eq!(c.base_url(), "https://node.example");
    assert_eq!(c.ws_url(), "wss://node.example///");
    assert_eq!(c.authorization(), None);
}

#[test]
fn key_check_before_new() {
    assert!(VernachainClient::accepts_key(&None));
    assert!(VernachainClient::accepts_key(&Some("abc\tdef".to_string())));
    assert!(!VernachainClient::accepts_key(&Some("abc\ndef".to_string())));
    assert!(!VernachainClient::accepts_key(&Some("a\u{7f}".to_string())));
}

#[test]
fn current_generation_paths() {
    let c = client();
    let b = "http://localhost:8080";
    assert_request(c.create_transaction(), HttpMethod::Post, &format!("{b}/api/v1/transactions"));
    assert_request(c.get_transaction("0xab"), HttpMethod::Get, &format!("{b}/api/v1/transactions/0xab"));
    assert_request(c.get_block(42, 3), HttpMethod::Get, &format!("{b}/api/v1/blocks/42?shard_id=3"));
    assert_request(c.get_latest_block(0), HttpMethod::Get, &format!("{b}/api/v1/blocks/latest?shard_id=0"));
    assert_request(c.deploy_contract(), HttpMethod::Post, &format!("{b}/api/v1/contracts"));
    assert_request(c.call_contract("0xc0"), HttpMethod::Post, &format!("{b}/api/v1/contracts/0xc0/call"));
    assert_request(c.initiate_cross_shard_transfer(), HttpMethod::Post, &format!("{b}/api/v1/cross-shard/transfer"));
    assert_request(c.get_validator_set(7), HttpMethod::Get, &format!("{b}/api/v1/validators?shard_id=7"));
    assert_request(c.stake(), HttpMethod::Post, &format!("{b}/api/v1/stake"));
    assert_request(c.bridge_transfer(), HttpMethod::Post, &format!("{b}/api/v1/bridge/transfer"));
}

#[test]
fn largest_numbers_in_paths() {
    let c = client();
    assert_request(
        c.get_block(u64::MAX, u64::MAX),
        HttpMethod::Get,
        "http://localhost:8080/api/v1/blocks/18446744073709551615?shard_id=18446744073709551615",
    );
}

#[test]
fn block_stream_address_and_url() {
    let c = client();
    assert_eq!(c.block_stream_address(5), "ws://localhost:8080//ws/blocks?shard_id=5");
    let c = VernachainClient::new("http://localhost:8080", None);
    let u = c.block_stream_url(5).unwrap();
    assert_eq!(u.as_str(), "ws://localhost:8080/ws/blocks?shard_id=5");
}

#[test]
fn block_stream_url_rejects_relative_address() {
    let c = VernachainClient::new("node", None);
    assert_eq!(c.block_stream_address(1), "node/ws/blocks?shard_id=1");
    assert!(matches!(c.block_stream_url(1), Err(VernachainError::InternalError(_))));
}

#[test]
fn auth_frame_quotes_key() {
    let c = VernachainClient::new("http://h", Some("a\"b".to_string()));
    let frame = c.auth_frame().unwrap();
    assert_eq!(frame, "{\"token\":\"a\\\"b\",\"type\":\"auth\"}");
    let v: serde_json::Value = serde_json::from_str(&frame).unwrap();
    assert_eq!(v["type"], "auth");
    assert_eq!(v["token"], "a\"b");
    let c = VernachainClient::new("http://h", None);
    assert!(c.auth_frame().is_none());
}

#[test]
fn auth_frame_escapes_backslash_and_tab() {
    let c = VernachainClient::new("http://h", Some("\\\té/".to_string()));
    let frame = c.auth_frame().unwrap();
    assert_eq!(frame, "{\"token\":\"\\\\\\té/\",\"type\":\"auth\"}");
}

#[test]
fn auth_frame_matches_json_object_text() {
    let key = "k\t\"x\"";
    let c = VernachainClient::new("http://h", Some(key.to_string()));
    let mut m = serde_json::Map::new();
    m.insert("type".to_string(), serde_json::Value::String("auth".to_string()));
    m.insert("token".to_string(), serde_json::Value::String(key.to_string()));
    let expected = serde_json::Value::Object(m).to_string();
    assert_eq!(c.auth_frame().unwrap(), expected);
}

#[test]
fn auth_frame_from_quoted_exact() {
    assert_eq!(auth_frame_from_quoted("\"k\""), "{\"token\":\"k\",\"type\":\"auth\"}");
}

#[test]
fn status_401_is_authentication_error_only() {
    assert_eq!(classify_status(401), StatusClass::Unauthorized);
    assert!(!needs_error_text(401));
    assert!(matches!(status_error(401, String::new()), Some(VernachainError::AuthenticationError)));
}

#[test]
fn status_429_is_rate_limit_error() {
    assert_eq!(classify_status(429), StatusClass::RateLimited);
    assert!(matches!(status_error(429, String::new()), Some(VernachainError::RateLimitError)));
}

#[test]
fn other_failures_carry_body_text() {
    assert_eq!(classify_status(500), StatusClass::Failure);
    assert_eq!(classify_status(300), StatusClass::Failure);
    assert_eq!(classify_status(199), StatusClass::Failure);
    assert!(needs_error_text(404));
    match status_error(404, "not found".to_string()) {
        Some(VernachainError::NetworkError(t)) => assert_eq!(t, "not found"),
        other => panic!("unexpected {:?}", other),
    }
}

#[test]
fn success_range() {
    assert_eq!(classify_status(200), StatusClass::Success);
    assert_eq!(classify_status(299), StatusClass::Success);
    assert!(status_error(204, "x".to_string()).is_none());
    assert!(status_ok(200) && status_ok(299));
    assert!(!status_ok(300) && !status_ok(401));
}

#[test]
fn relay_forwards_blocks_and_skips_malformed() {
    assert_eq!(relay_action(RelayEvent::Block), RelayAction::Forward);
    assert_eq!(relay_action(RelayEvent::Malformed), RelayAction::LogAndSkip);
    assert_eq!(relay_action(RelayEvent::Other), RelayAction::Ignore);
    assert_eq!(relay_action(RelayEvent::Close), RelayAction::Stop);
    assert_eq!(relay_action(RelayEvent::TransportError), RelayAction::LogAndStop);
    assert_eq!(relay_action(RelayEvent::End), RelayAction::Stop);
    assert!(continue_after_forward(true));
    assert!(!continue_after_forward(false));
    assert_eq!(BLOCK_CHANNEL_CAPACITY, 100);
}

#[test]
fn text_helpers() {
    assert_eq!(trim_trailing_slashes("a/b//"), "a/b");
    assert_eq!(trim_trailing_slashes("///"), "");
    assert_eq!(trim_trailing_slashes(""), "");
    assert_eq!(replace_every("httphttp-htt", "http", "ws"), "wsws-htt");
    assert_eq!(replace_every("héllo", "l", "LL"), "héLLLLo");
    let mut s = String::from("n=");
    append_decimal(&mut s, 0);
    append_decimal(&mut s, 1090);
    assert_eq!(s, "n=01090");
}

#[test]
fn sdk_new_and_paths() {
    let sdk = VernachainSDK::new("https://api.example/", "key").unwrap();
    assert_eq!(sdk.api_url(), "https://api.example");
    assert_eq!(sdk.api_key(), "key");
    let b = "https://api.example";
    assert_request(sdk.get_block(9), HttpMethod::Get, &format!("{b}/api/v1/block/9"));
    assert_request(sdk.get_transaction("h"), HttpMethod::Get, &format!("{b}/api/v1/transaction/h"));
    assert_request(sdk.get_balance("ad"), HttpMethod::Get, &format!("{b}/api/v1/address/ad"));
    assert_request(sdk.send_transaction(), HttpMethod::Post, &format!("{b}/api/v1/transaction"));
    assert_request(sdk.deploy_contract(), HttpMethod::Post, &format!("{b}/api/v1/contract/deploy"));
    assert_request(sdk.call_contract("c1"), HttpMethod::Post, &format!("{b}/api/v1/contract/c1/call"));
    assert_request(sdk.bridge_transfer(), HttpMethod::Post, &format!("{b}/api/v1/bridge/transfer"));
    assert_request(sdk.get_bridge_transaction("t"), HttpMethod::Get, &format!("{b}/api/v1/bridge/transaction/t"));
    assert_request(sdk.get_network_stats(), HttpMethod::Get, &format!("{b}/api/v1/stats"));
    assert_request(sdk.get_validators(), HttpMethod::Get, &format!("{b}/api/v1/validators"));
}

#[test]
fn sdk_rejects_key_with_control_character() {
    assert!(matches!(VernachainSDK::new("http://h", "bad\r\nkey"), Err(SdkError::InvalidApiKey)));
    assert!(VernachainSDK::new("http://h", "ключ").is_ok());
}

#[test]
fn sdk_error_messages() {
    let e = SdkError::api("{\"detail\":\"nope\"}");
    assert_eq!(e, SdkError::Api("API error: {\"detail\":\"nope\"}".to_string()));
    assert_eq!(e.message(), "API error: {\"detail\":\"nope\"}");
    assert_eq!(SdkError::InvalidResponseFormat.message(), "Invalid response format");
}

#[test]
fn sdk_response_field() {
    assert_eq!(response_field(Some("0xh".to_string())), Ok("0xh".to_string()));
    assert_eq!(response_field(None), Err(SdkError::InvalidResponseFormat));
}
