use bigpanda_rs::alert::{Alert, AlertStatus};
use bigpanda_rs::change::Change;

fn minimal_alert(status: AlertStatus) -> Alert {
    Alert {
        app_key: "k".to_string(),
        status,
        host: "h1".to_string(),
        timestamp: None,
        check: None,
        description: None,
        cluster: None,
        primary_property: None,
        secondary_property: None,
        additional: None,
    }
}

#[test]
fn alert_minimal_has_exactly_three_keys() {
    let alert = minimal_alert(AlertStatus::Critical);
    let json = alert.to_json();
    assert_eq!(json, r#"{"app_key":"k","status":"critical","host":"h1"}"#);
    let value: serde_json::Value = serde_json::from_str(&json).unwrap();
    let obj = value.as_object().unwrap();
    assert_eq!(obj.len(), 3);
    assert_eq!(obj.get("app_key").unwrap().as_str().unwrap(), "k");
    assert_eq!(obj.get("status").unwrap().as_str().unwrap(), "critical");
    assert_eq!(obj.get("host").unwrap().as_str().unwrap(), "h1");
}

#[test]
fn alert_status_tokens_are_lowercase() {
    let cases = [
        (AlertStatus::Acknowledged, "acknowledged"),
        (AlertStatus::Critical, "critical"),
        (AlertStatus::Okay, "ok"),
        (AlertStatus::Warning, "warning"),
    ];
    for (status, token) in cases {
        let json = minimal_alert(status).to_json();
        let value: serde_json::Value = serde_json::from_str(&json).unwrap();
        assert_eq!(value.get("status").unwrap().as_str().unwrap(), token);
    }
}

#[test]
fn alert_optional_fields_present_when_set() {
    let alert = Alert {
        app_key: "k".to_string(),
        status: AlertStatus::Warning,
        host: "h".to_string(),
        timestamp: Some(1500000000),
        check: Some("cpu".to_string()),
        description: Some("load high".to_string()),
        cluster: Some("c7".to_string()),
        primary_property: Some("host".to_string()),
        secondary_property: Some("check".to_string()),
        additional: None,
    };
    let json = alert.to_json();
    assert_eq!(
        json,
        r#"{"app_key":"k","status":"warning","host":"h","timestamp":1500000000,"check":"cpu","description":"load high","cluster":"c7","primary_property":"host","secondary_property":"check"}"#
    );
}

#[test]
fn alert_additional_entries_are_flattened() {
    let alert = Alert {
        app_key: "k".to_string(),
        status: AlertStatus::Critical,
        host: "rust_test_host".to_string(),
        timestamp: Some(1600000000),
        check: None,
        description: Some("rust test description".to_string()),
        cluster: None,
        primary_property: None,
        secondary_property: None,
        additional: Some(vec![
            ("test_1".to_string(), "test_1".to_string()),
            ("test_2".to_string(), "test_2".to_string()),
        ]),
    };
    let json = alert.to_json();
    let value: serde_json::Value = serde_json::from_str(&json).unwrap();
    let obj = value.as_object().unwrap();
    // the map's entries are top-level keys, siblings of the named fields
    assert_eq!(obj.get("test_1").unwrap().as_str().unwrap(), "test_1");
    assert_eq!(obj.get("test_2").unwrap().as_str().unwrap(), "test_2");
    assert!(obj.get("additional").is_none());
    assert_eq!(obj.len(), 7);
    assert_eq!(obj.get("app_key").unwrap().as_str().unwrap(), "k");
    assert_eq!(obj.get("timestamp").unwrap().as_i64().unwrap(), 1600000000);
}

#[test]
fn alert_strings_are_json_escaped() {
    let alert = Alert {
        app_key: "k".to_string(),
        status: AlertStatus::Warning,
        host: "h".to_string(),
        timestamp: None,
        check: None,
        description: Some("say \"hi\"\\\n\ttab\u{1}".to_string()),
        cluster: None,
        primary_property: None,
        secondary_property: None,
        additional: None,
    };
    let json = alert.to_json();
    assert_eq!(
        json,
        r#"{"app_key":"k","status":"warning","host":"h","description":"say \"hi\"\\\n\ttab\u0001"}"#
    );
    let value: serde_json::Value = serde_json::from_str(&json).unwrap();
    assert_eq!(
        value.get("description").unwrap().as_str().unwrap(),
        "say \"hi\"\\\n\ttab\u{1}"
    );
}

#[test]
fn alert_negative_timestamp_renders_signed() {
    let mut alert = minimal_alert(AlertStatus::Okay);
    alert.timestamp = Some(-5);
    let json = alert.to_json();
    assert_eq!(json, r#"{"app_key":"k","status":"ok","host":"h1","timestamp":-5}"#);
}

fn minimal_change() -> Change {
    Change {
        identifier: "C-1".to_string(),
        status: "Done".to_string(),
        summary: "s".to_string(),
        start: 100,
        end: 200,
        ticket_url: None,
        tags: None,
        metadata: None,
    }
}

#[test]
fn change_minimal_has_exactly_five_keys() {
    let json = minimal_change().to_json();
    assert_eq!(
        json,
        r#"{"identifier":"C-1","status":"Done","summary":"s","start":100,"end":200}"#
    );
    let value: serde_json::Value = serde_json::from_str(&json).unwrap();
    let obj = value.as_object().unwrap();
    assert_eq!(obj.len(), 5);
    assert_eq!(obj.get("identifier").unwrap().as_str().unwrap(), "C-1");
    assert_eq!(obj.get("status").unwrap().as_str().unwrap(), "Done");
    assert_eq!(obj.get("summary").unwrap().as_str().unwrap(), "s");
    assert_eq!(obj.get("start").unwrap().as_i64().unwrap(), 100);
    assert_eq!(obj.get("end").unwrap().as_i64().unwrap(), 200);
}

#[test]
fn change_tags_and_metadata_stay_nested() {
    let mut change = minimal_change();
    change.tags = Some(vec![
        ("change_type".to_string(), "software".to_string()),
        ("service".to_string(), "test_service".to_string()),
    ]);
    change.metadata = Some(vec![("note".to_string(), "n1".to_string())]);
    let json = change.to_json();
    assert_eq!(
        json,
        r#"{"identifier":"C-1","status":"Done","summary":"s","start":100,"end":200,"tags":{"change_type":"software","service":"test_service"},"metadata":{"note":"n1"}}"#
    );
    let value: serde_json::Value = serde_json::from_str(&json).unwrap();
    let obj = value.as_object().unwrap();
    // nested objects under their own keys, not top-level entries
    assert!(obj.get("change_type").is_none());
    let tags = obj.get("tags").unwrap().as_object().unwrap();
    assert_eq!(tags.get("change_type").unwrap().as_str().unwrap(), "software");
    assert_eq!(tags.get("service").unwrap().as_str().unwrap(), "test_service");
    let metadata = obj.get("metadata").unwrap().as_object().unwrap();
    assert_eq!(metadata.get("note").unwrap().as_str().unwrap(), "n1");
}

#[test]
fn change_ticket_url_present_when_set() {
    let mut change = minimal_change();
    change.ticket_url = Some("https://tickets.example/C-1".to_string());
    let json = change.to_json();
    assert_eq!(
        json,
        r#"{"identifier":"C-1","status":"Done","summary":"s","start":100,"end":200,"ticket_url":"https://tickets.example/C-1"}"#
    );
}

#[test]
fn change_extreme_window_bounds_render_exactly() {
    let mut change = minimal_change();
    change.start = i64::MIN;
    change.end = i64::MAX;
    let json = change.to_json();
    assert_eq!(
        json,
        r#"{"identifier":"C-1","status":"Done","summary":"s","start":-9223372036854775808,"end":9223372036854775807}"#
    );
}

#[test]
fn change_empty_tags_map_serializes_as_empty_object() {
    let mut change = minimal_change();
    change.tags = Some(vec![]);
    let json = change.to_json();
    assert_eq!(
        json,
        r#"{"identifier":"C-1","status":"Done","summary":"s","start":100,"end":200,"tags":{}}"#
    );
}

#[test]
fn alert_non_ascii_text_passes_through_unescaped() {
    let mut alert = minimal_alert(AlertStatus::Critical);
    alert.description = Some("héllo wörld \u{2713}".to_string());
    let json = alert.to_json();
    assert_eq!(
        json,
        r#"{"app_key":"k","status":"critical","host":"h1","description":"héllo wörld ✓"}"#
    );
    let value: serde_json::Value = serde_json::from_str(&json).unwrap();
    assert_eq!(
        value.get("description").unwrap().as_str().unwrap(),
        "héllo wörld \u{2713}"
    );
}
