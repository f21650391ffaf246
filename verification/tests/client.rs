use std::time::Duration;

use aptabase_rs::{AptabaseClient, InitOptions, JsonValue, OsFamily, PlatformInfo, TrackingSession};

const SECOND: i128 = 1_000_000_000;
const SESSION_TIMEOUT: i128 = 4 * 60 * 60 * SECOND;

fn platform() -> PlatformInfo {
    PlatformInfo {
        is_debug: true,
        os_family: OsFamily::Other,
        os_type_name: "Linux".into(),
        os_version: "6.1".into(),
        is_flatpak: false,
        locale: Some("en-US".into()),
    }
}

fn client() -> AptabaseClient {
    AptabaseClient::new(
        "A-US-test".into(),
        "1.2.3".into(),
        platform(),
        Duration::from_secs(60),
    )
}

fn member<'a>(value: &'a JsonValue, key: &str) -> &'a JsonValue {
    match value {
        JsonValue::Object(members) => &members.iter().find(|(k, _)| k == key).unwrap().1,
        _ => panic!("not an object"),
    }
}

fn text(value: &JsonValue) -> &str {
    match value {
        JsonValue::String(s) => s,
        _ => panic!("not a string"),
    }
}

fn object(members: Vec<(&str, JsonValue)>) -> JsonValue {
    JsonValue::Object(members.into_iter().map(|(k, v)| (k.to_string(), v)).collect())
}

#[test]
fn serializes_required_event_fields_and_object_properties() {
    let mut client = client();
    client
        .track_event(
            "settings_saved",
            Some(object(vec![("section", JsonValue::String("privacy".into()))])),
        )
        .unwrap();

    let events = client.dispatcher.queued_events();
    let event = &events[0];
    assert!(matches!(member(event, "timestamp"), JsonValue::String(_)));
    assert!(matches!(member(event, "sessionId"), JsonValue::String(_)));
    assert_eq!(text(member(event, "eventName")), "settings_saved");
    assert_eq!(
        member(event, "props"),
        &object(vec![("section", JsonValue::String("privacy".into()))])
    );
    let system = member(event, "systemProps");
    assert_eq!(text(member(system, "appVersion")), "1.2.3");
    assert_eq!(text(member(system, "engineName")), "Rust");
    assert_eq!(text(member(system, "engineVersion")), "unknown");
    assert!(matches!(member(system, "isDebug"), JsonValue::Bool(_)));
    assert!(matches!(member(system, "osName"), JsonValue::String(_)));
    assert!(matches!(member(system, "osVersion"), JsonValue::String(_)));
    assert!(matches!(member(system, "locale"), JsonValue::String(_)));
    assert_eq!(text(member(system, "sdkVersion")), "aptabase-rs@0.1.0");
}

#[test]
fn rejects_non_object_properties_without_enqueueing() {
    let mut client = client();

    let array = JsonValue::Array(vec![
        JsonValue::Number("1".into()),
        JsonValue::Number("2".into()),
        JsonValue::Number("3".into()),
    ]);
    let result = client.track_event("invalid", Some(array));
    assert_eq!(
        result,
        Err("props must be `None` or the `Object` variation of `serde_json::Value`".to_string())
    );
    assert!(client.dispatcher.is_empty());
}

#[test]
fn disabled_client_ignores_events() {
    let mut client = AptabaseClient::new(
        "invalid".into(),
        "1.0.0".into(),
        platform(),
        Duration::from_secs(60),
    );

    assert!(!client.is_enabled());
    let array = JsonValue::Array(vec![
        JsonValue::Number("1".into()),
        JsonValue::Number("2".into()),
        JsonValue::Number("3".into()),
    ]);
    assert!(client.track_event("ignored", Some(array)).is_ok());
    assert!(client.dispatcher.is_empty());
}

#[test]
fn reuses_session_within_four_hours() {
    let mut client = client();
    let now: i128 = 0;
    client.session = TrackingSession {
        id: "existing".into(),
        last_touch_ts: now,
    };

    assert_eq!(client.eval_session_id_at(now + 60 * SECOND), "existing");
    assert_eq!(client.session.last_touch_ts, now + 60 * SECOND);
}

#[test]
fn rotates_session_after_four_hours() {
    let mut client = client();
    let now: i128 = 0;
    client.session = TrackingSession {
        id: "expired".into(),
        last_touch_ts: now,
    };

    let session_id = client.eval_session_id_at(now + SESSION_TIMEOUT + SECOND);
    assert_ne!(session_id, "expired");
    assert_eq!(client.session.last_touch_ts, now + SESSION_TIMEOUT + SECOND);
}

#[test]
fn applies_engine_metadata_overrides_to_events() {
    let mut client = AptabaseClient::with_options(
        "A-US-test".into(),
        "1.0.0".into(),
        InitOptions {
            engine_name: Some("Custom Runtime".into()),
            engine_version: Some("9.1".into()),
            ..InitOptions::default()
        },
        platform(),
        Duration::from_secs(60),
    );
    client.track_event("started", None).unwrap();

    let events = client.dispatcher.queued_events();
    let system = member(&events[0], "systemProps");
    assert_eq!(text(member(system, "engineName")), "Custom Runtime");
    assert_eq!(text(member(system, "engineVersion")), "9.1");
}

#[test]
fn session_at_exactly_four_hours_is_kept() {
    let mut client = client();
    client.session = TrackingSession {
        id: "edge".into(),
        last_touch_ts: 5,
    };
    assert_eq!(client.eval_session_id_at(5 + SESSION_TIMEOUT), "edge");
}

#[test]
fn rotated_session_id_is_decimal() {
    let mut client = client();
    client.session = TrackingSession {
        id: "old".into(),
        last_touch_ts: 0,
    };
    let id = client.eval_session_id_at(SESSION_TIMEOUT + 1);
    assert!(!id.is_empty());
    assert!(id.chars().all(|c| c.is_ascii_digit()));
    assert_eq!(client.session.id, id);
}

#[test]
fn tracked_event_uses_timestamp_and_session_of_the_call() {
    let mut client = client();
    client.session = TrackingSession {
        id: "s-1".into(),
        last_touch_ts: 0,
    };
    let now = 1_546_300_800 * SECOND;
    client.track_event_at("opened", None, now).unwrap();
    let events = client.dispatcher.queued_events();
    assert_eq!(events.len(), 1);
    assert_eq!(text(member(&events[0], "timestamp")), "2019-01-01T00:00:00Z");
    assert_ne!(text(member(&events[0], "sessionId")), "s-1");
    assert_eq!(text(member(&events[0], "sessionId")), client.session.id);
    assert_eq!(member(&events[0], "props"), &JsonValue::Null);
    assert_eq!(client.session.last_touch_ts, now);
}

#[test]
fn events_queue_in_order() {
    let mut client = client();
    client.track_event_at("first", None, 10 * SECOND).unwrap();
    client.track_event_at("second", None, 20 * SECOND).unwrap();
    let events = client.dispatcher.queued_events();
    assert_eq!(events.len(), 2);
    assert_eq!(text(member(&events[0], "eventName")), "first");
    assert_eq!(text(member(&events[1], "eventName")), "second");
    assert_eq!(
        member(&events[0], "sessionId"),
        member(&events[1], "sessionId")
    );
    assert_eq!(text(member(&events[0], "timestamp")), "1970-01-01T00:00:10Z");
}

#[test]
fn unformattable_clock_is_refused_without_enqueueing() {
    let mut client = client();
    let result = client.track_event_at("late", None, i128::MAX);
    assert_eq!(
        result,
        Err("the current time cannot be written as an RFC 3339 timestamp".to_string())
    );
    assert!(client.dispatcher.is_empty());
}

#[test]
fn seeded_session_id_replaces_generated_one() {
    let mut client = client();
    client.seed_session_id(Some("mine".into()));
    assert_eq!(client.session.id, "mine");
    client.seed_session_id(Some(String::new()));
    assert_eq!(client.session.id, "mine");
    client.seed_session_id(None);
    assert_eq!(client.session.id, "mine");
}

#[test]
fn client_with_valid_key_is_enabled_with_its_endpoint() {
    let client = client();
    assert!(client.is_enabled());
    assert_eq!(client.dispatcher.url, "https://us.aptabase.com/api/v0/events");
    assert_eq!(client.dispatcher.app_key, "A-US-test");
    assert_eq!(client.dispatcher.user_agent, "Linux/6.1 Rust/unknown en-US");
    assert_eq!(client.flush_interval, Duration::from_secs(60));
}

#[test]
fn client_session_starts_at_construction() {
    let mut client = AptabaseClient::with_options_at(
        "A-US-test".into(),
        "1.2.3".into(),
        InitOptions::default(),
        platform(),
        Duration::from_secs(60),
        1_000 * SECOND,
    );
    assert_eq!(client.session.last_touch_ts, 1_000 * SECOND);
    let first = client.session.id.clone();
    assert!(!first.is_empty());
    assert_eq!(client.eval_session_id_at(1_000 * SECOND + SESSION_TIMEOUT), first);
}

#[test]
fn event_document_has_the_ingestion_layout() {
    let mut client = client();
    client.session = TrackingSession {
        id: "42".into(),
        last_touch_ts: 0,
    };
    client.track_event_at("opened", None, SECOND).unwrap();
    let events = client.dispatcher.queued_events();
    let keys: Vec<&str> = match &events[0] {
        JsonValue::Object(members) => members.iter().map(|(k, _)| k.as_str()).collect(),
        _ => panic!("not an object"),
    };
    assert_eq!(keys, vec!["timestamp", "sessionId", "eventName", "systemProps", "props"]);
    let system_keys: Vec<&str> = match member(&events[0], "systemProps") {
        JsonValue::Object(members) => members.iter().map(|(k, _)| k.as_str()).collect(),
        _ => panic!("not an object"),
    };
    assert_eq!(
        system_keys,
        vec![
            "isDebug",
            "osName",
            "osVersion",
            "locale",
            "engineName",
            "engineVersion",
            "appVersion",
            "sdkVersion"
        ]
    );
    assert_eq!(text(member(&events[0], "sessionId")), "42");
    assert_eq!(member(member(&events[0], "systemProps"), "isDebug"), &JsonValue::Bool(true));
}

#[test]
fn key_that_cannot_be_a_header_disables_the_client() {
    let client = AptabaseClient::new(
        "A-US-a\nb".into(),
        "1.0.0".into(),
        platform(),
        Duration::from_secs(60),
    );
    assert!(!client.is_enabled());
    assert!(client.dispatcher.app_key.is_empty());
    assert_eq!(client.dispatcher.url, "http://localhost:3000/");
}

#[test]
fn user_agent_that_cannot_be_a_header_disables_the_client() {
    let client = AptabaseClient::with_options(
        "A-US-test".into(),
        "1.0.0".into(),
        InitOptions {
            engine_name: Some("bad\u{7f}".into()),
            ..InitOptions::default()
        },
        platform(),
        Duration::from_secs(60),
    );
    assert!(!client.is_enabled());
    assert!(client.dispatcher.user_agent.is_empty());
    assert!(client.dispatcher.app_key.is_empty());
}

#[test]
fn clones_keep_every_field() {
    let session = TrackingSession {
        id: "abc".into(),
        last_touch_ts: 7,
    };
    let copy = session.clone();
    assert_eq!(copy.id, "abc");
    assert_eq!(copy.last_touch_ts, 7);
    let options = InitOptions {
        host: Some("h".into()),
        flush_interval: Some(Duration::from_secs(3)),
        engine_name: Some("e".into()),
        engine_version: None,
    };
    let copy = options.clone();
    assert_eq!(copy.host.as_deref(), Some("h"));
    assert_eq!(copy.flush_interval, Some(Duration::from_secs(3)));
    assert_eq!(copy.engine_name.as_deref(), Some("e"));
    assert!(copy.engine_version.is_none());
}
