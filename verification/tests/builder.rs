use std::time::Duration;

use aptabase_rs::{Builder, InitOptions, OsFamily, PlatformInfo};

fn platform() -> PlatformInfo {
    PlatformInfo {
        is_debug: true,
        os_family: OsFamily::Windows,
        os_type_name: "Windows".into(),
        os_version: "11".into(),
        is_flatpak: false,
        locale: Some("de-DE".into()),
    }
}

#[test]
fn builder_builder_uses_supplied_session_id() {
    // Act
    let mut client = Builder::new("A-DEV-123", "test")
        .with_session_id("persisted-session")
        .build(platform(), Duration::from_secs(2));

    // Assert
    assert_eq!(client.eval_session_id(), "persisted-session");
}

#[test]
fn builder_builder_treats_empty_session_id_as_absent() {
    // Act
    let mut client = Builder::new("A-DEV-123", "test")
        .with_session_id("")
        .build(platform(), Duration::from_secs(2));

    // Assert
    assert!(!client.eval_session_id().is_empty());
}

#[test]
fn lib_builder_uses_supplied_session_id() {
    // Act
    let mut client = Builder::new("A-DEV-123", "test")
        .with_session_id("persisted-session")
        .build(platform(), Duration::from_secs(2));

    // Assert
    assert_eq!(client.eval_session_id(), "persisted-session");
}

#[test]
fn builder_records_settings() {
    let builder = Builder::new("A-EU-1", "2.0")
        .with_polling(true)
        .with_options(InitOptions {
            flush_interval: Some(Duration::from_secs(5)),
            ..InitOptions::default()
        });
    assert!(builder.enable_polling);
    assert_eq!(builder.app_key, "A-EU-1");
    assert_eq!(builder.app_version, "2.0");
    assert!(builder.session_id.is_none());

    let client = builder.build(platform(), Duration::from_secs(2));
    assert!(client.is_enabled());
    assert_eq!(client.flush_interval, Duration::from_secs(5));
    assert_eq!(client.app_version, "2.0");
    assert_eq!(client.sys_info.os_name, "Windows");
    assert_eq!(client.dispatcher.url, "https://eu.aptabase.com/api/v0/events");
}

#[test]
fn builder_with_invalid_key_builds_disabled_client() {
    let client = Builder::new("nope", "1").build(platform(), Duration::from_secs(2));
    assert!(!client.is_enabled());
    assert!(client.dispatcher.app_key.is_empty());
    assert_eq!(client.flush_interval, Duration::from_secs(2));
}

#[test]
fn built_session_starts_at_build_time() {
    let hour: i128 = 3_600_000_000_000;
    let mut client = Builder::new("A-DEV-123", "test")
        .with_session_id("persisted-session")
        .build_at(platform(), Duration::from_secs(2), 5 * hour);
    assert_eq!(client.session.last_touch_ts, 5 * hour);
    client.track_event_at("late", None, 9 * hour).unwrap();
    assert_eq!(client.session.id, "persisted-session");
    assert_eq!(client.eval_session_id_at(13 * hour + 1), client.session.id.clone());
    assert_ne!(client.session.id, "persisted-session");
}
