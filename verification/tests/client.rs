use bigpanda_rs::alert::{Alert, AlertStatus};
use bigpanda_rs::change::Change;
use bigpanda_rs::{classify_status, ApiType, BigPandaError, Client, HttpMethod};

fn sample_alert() -> Alert {
    Alert {
        app_key: "ak".to_string(),
        status: AlertStatus::Critical,
        host: "rust_test_host".to_string(),
        timestamp: None,
        check: None,
        description: Some("rust test description".to_string()),
        cluster: None,
        primary_property: None,
        secondary_property: None,
        additional: None,
    }
}

fn sample_change() -> Change {
    Change {
        identifier: "TEST-12345".to_string(),
        status: "Done".to_string(),
        summary: "This is a test change".to_string(),
        start: 100,
        end: 200,
        ticket_url: None,
        tags: None,
        metadata: None,
    }
}

#[test]
fn alert_client_sends_no_app_key_header() {
    let client = Client::new(ApiType::Alert, "ak", "tok");
    let request = client.alert_request(&sample_alert());
    assert!(matches!(request.method, HttpMethod::Post));
    assert_eq!(request.url, "https://api.bigpanda.io/data/v2/alerts");
    assert_eq!(request.headers.len(), 2);
    assert_eq!(request.headers[0].0, "Content-Type");
    assert_eq!(request.headers[0].1, "application/json");
    assert_eq!(request.headers[1].0, "Authorization");
    assert_eq!(request.headers[1].1, "Bearer tok");
    assert!(!request.headers.iter().any(|h| h.0 == "x-bp-app-key"));
    assert_eq!(
        request.body,
        r#"{"app_key":"ak","status":"critical","host":"rust_test_host","description":"rust test description"}"#
    );
}

#[test]
fn change_client_sends_app_key_header() {
    let client = Client::new(ApiType::Change, "ak", "tok");
    let request = client.change_request(&sample_change());
    assert!(matches!(request.method, HttpMethod::Post));
    assert_eq!(request.url, "https://api.bigpanda.io/data/changes");
    assert_eq!(request.headers.len(), 3);
    assert_eq!(request.headers[0].0, "Content-Type");
    assert_eq!(request.headers[0].1, "application/json");
    assert_eq!(request.headers[1].0, "Authorization");
    assert_eq!(request.headers[1].1, "Bearer tok");
    assert_eq!(request.headers[2].0, "x-bp-app-key");
    assert_eq!(request.headers[2].1, "ak");
    assert_eq!(
        request.body,
        r#"{"identifier":"TEST-12345","status":"Done","summary":"This is a test change","start":100,"end":200}"#
    );
}

#[test]
fn build_request_keeps_method_url_and_body() {
    let client = Client::new(ApiType::Alert, "ak", "tok");
    let request = client.build_request(
        HttpMethod::Put,
        "https://api.bigpanda.io/data/v2/alerts",
        "{}".to_string(),
    );
    assert!(matches!(request.method, HttpMethod::Put));
    assert_eq!(request.method.as_str(), "PUT");
    assert_eq!(request.url, "https://api.bigpanda.io/data/v2/alerts");
    assert_eq!(request.body, "{}");
    assert_eq!(request.headers.len(), 2);
}

#[test]
fn accepted_statuses_are_success() {
    assert!(classify_status(200).is_ok());
    assert!(classify_status(201).is_ok());
    assert!(classify_status(204).is_ok());
}

#[test]
fn rejected_statuses_carry_their_code() {
    match classify_status(404) {
        Err(BigPandaError::HTTPError(code)) => assert_eq!(code, 404),
        _ => panic!("expected an HTTP error carrying 404"),
    }
    match classify_status(500) {
        Err(BigPandaError::HTTPError(code)) => assert_eq!(code, 500),
        _ => panic!("expected an HTTP error carrying 500"),
    }
    match classify_status(202) {
        Err(BigPandaError::HTTPError(code)) => assert_eq!(code, 202),
        _ => panic!("expected an HTTP error carrying 202"),
    }
}

#[test]
fn error_messages_render() {
    let http = BigPandaError::HTTPError(404);
    assert_eq!(http.message(), "Invalid status code: 404");
    let network = BigPandaError::NetworkError("connection refused".to_string());
    assert_eq!(network.message(), "connection refused");
}

#[test]
fn method_tokens_render() {
    assert_eq!(HttpMethod::Get.as_str(), "GET");
    assert_eq!(HttpMethod::Post.as_str(), "POST");
    assert_eq!(HttpMethod::Put.as_str(), "PUT");
}
