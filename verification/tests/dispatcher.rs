use std::time::Duration;

use aptabase_rs::{
    event_document, get_info, Config, EventDispatcher, InitOptions, JsonValue, OsFamily,
    PlatformInfo, Reply, SystemProperties,
};
use aptabase_rs::{should_retry, status_is_server_error, status_is_success};

fn sys_info() -> SystemProperties {
    get_info(
        PlatformInfo {
            is_debug: true,
            os_family: OsFamily::Other,
            os_type_name: "Linux".into(),
            os_version: "6.1".into(),
            is_flatpak: false,
            locale: Some("en-US".into()),
        },
        &InitOptions::default(),
    )
}

fn dispatcher(url: &str) -> EventDispatcher {
    let config = Config {
        app_key: "A-DEV-test".into(),
        ingest_api_url: url.into(),
        flush_interval: Duration::from_secs(1),
    };
    EventDispatcher::new(&config, &sys_info())
}

fn event(index: u32) -> JsonValue {
    event_document(
        "1970-01-01T00:00:00Z".into(),
        "1".into(),
        "test",
        &sys_info(),
        &"1.0.0".to_string(),
        Some(JsonValue::Object(vec![(
            "index".into(),
            JsonValue::Number(index.to_string()),
        )])),
    )
}

/// Runs a flush, answering the batches with `replies` in turn; returns the sizes of the batches.
fn flush(dispatcher: &mut EventDispatcher, replies: &[Reply]) -> Vec<usize> {
    let mut sizes = Vec::new();
    let Some(mut run) = dispatcher.begin_flush() else {
        return sizes;
    };
    let mut answers = replies.iter();
    while let Some(batch) = dispatcher.next_batch() {
        sizes.push(batch.len());
        run.record(batch, *answers.next().unwrap());
    }
    dispatcher.finish_flush(run);
    sizes
}

#[test]
fn empty_flush_makes_no_request() {
    let mut dispatcher = dispatcher("http://127.0.0.1:1/api/v0/events");

    assert!(dispatcher.begin_flush().is_none());
    let sizes = flush(&mut dispatcher, &[]);
    assert!(sizes.is_empty());
    assert!(dispatcher.is_empty());
}

#[test]
fn sends_headers_endpoint_and_batches_of_at_most_25() {
    let mut dispatcher = dispatcher("http://127.0.0.1:1/api/v0/events");
    for index in 0..26 {
        dispatcher.enqueue(event(index));
    }

    let sizes = flush(&mut dispatcher, &[Reply::Status(200), Reply::Status(200)]);

    assert_eq!(dispatcher.url, "http://127.0.0.1:1/api/v0/events");
    assert_eq!(sizes, vec![25, 1]);
    assert_eq!(dispatcher.app_key, "A-DEV-test");
    assert!(dispatcher.user_agent.contains("Rust/unknown"));
    assert!(dispatcher.is_empty());
}

#[test]
fn requeues_transport_failures() {
    let mut dispatcher = dispatcher("http://127.0.0.1:1/api/v0/events");
    dispatcher.enqueue(event(1));

    flush(&mut dispatcher, &[Reply::TransportFailure]);

    assert_eq!(dispatcher.queued_events().len(), 1);
}

#[test]
fn requeues_server_errors() {
    let mut dispatcher = dispatcher("http://127.0.0.1:1/api/v0/events");
    dispatcher.enqueue(event(1));

    let sizes = flush(&mut dispatcher, &[Reply::Status(500)]);

    assert_eq!(sizes, vec![1]);
    assert_eq!(dispatcher.queued_events().len(), 1);
}

#[test]
fn discards_non_server_http_errors() {
    let mut dispatcher = dispatcher("http://127.0.0.1:1/api/v0/events");
    dispatcher.enqueue(event(1));

    let sizes = flush(&mut dispatcher, &[Reply::Status(400)]);

    assert_eq!(sizes, vec![1]);
    assert!(dispatcher.is_empty());
}

#[test]
fn requeued_batches_keep_their_order_after_new_events() {
    let mut dispatcher = dispatcher("http://127.0.0.1:1/api/v0/events");
    for index in 0..60 {
        dispatcher.enqueue(event(index));
    }
    let sizes = flush(
        &mut dispatcher,
        &[Reply::Status(503), Reply::Status(201), Reply::TransportFailure],
    );
    assert_eq!(sizes, vec![25, 25, 10]);
    let queued = dispatcher.queued_events();
    assert_eq!(queued.len(), 35);
    assert_eq!(queued[0], event(0));
    assert_eq!(queued[24], event(24));
    assert_eq!(queued[25], event(50));
    assert_eq!(queued[34], event(59));
}

#[test]
fn enqueue_many_appends_in_order() {
    let mut dispatcher = dispatcher("http://127.0.0.1:1/api/v0/events");
    dispatcher.enqueue(event(0));
    dispatcher.enqueue_many(vec![event(1), event(2), event(3)]);
    let queued = dispatcher.queued_events();
    assert_eq!(queued.len(), 4);
    for (i, e) in queued.iter().enumerate() {
        assert_eq!(e, &event(i as u32));
    }
}

#[test]
fn status_classes_decide_retry() {
    assert!(status_is_success(200));
    assert!(status_is_success(299));
    assert!(!status_is_success(300));
    assert!(!status_is_success(199));
    assert!(status_is_server_error(500));
    assert!(status_is_server_error(599));
    assert!(!status_is_server_error(600));
    assert!(!status_is_server_error(499));
    assert!(should_retry(Reply::TransportFailure));
    assert!(should_retry(Reply::Status(502)));
    assert!(!should_retry(Reply::Status(404)));
    assert!(!should_retry(Reply::Status(204)));
    assert!(!should_retry(Reply::Status(302)));
}

#[test]
fn failed_flush_keeps_every_event_in_order() {
    let mut dispatcher = dispatcher("http://127.0.0.1:1/api/v0/events");
    for index in 0..51 {
        dispatcher.enqueue(event(index));
    }
    let sizes = flush(
        &mut dispatcher,
        &[Reply::TransportFailure, Reply::Status(500), Reply::Status(599)],
    );
    assert_eq!(sizes, vec![25, 25, 1]);
    let queued = dispatcher.queued_events();
    assert_eq!(queued.len(), 51);
    for (i, e) in queued.iter().enumerate() {
        assert_eq!(e, &event(i as u32));
    }
}

#[test]
fn requests_post_json_with_app_key_to_the_endpoint() {
    let dispatcher = dispatcher("http://127.0.0.1:1/api/v0/events");
    let shape = dispatcher.request_shape();
    assert_eq!(shape.method, "POST");
    assert_eq!(shape.url, "http://127.0.0.1:1/api/v0/events");
    assert_eq!(
        shape.headers,
        vec![
            ("App-Key".to_string(), "A-DEV-test".to_string()),
            ("Content-Type".to_string(), "application/json".to_string()),
        ]
    );
    assert!(shape.user_agent.unwrap().contains("Rust/unknown"));
    assert_eq!(shape.timeout_secs, 10);
}

#[test]
fn empty_user_agent_is_not_sent() {
    let mut dispatcher = dispatcher("http://127.0.0.1:1/api/v0/events");
    dispatcher.user_agent = String::new();
    assert!(dispatcher.request_shape().user_agent.is_none());
}
