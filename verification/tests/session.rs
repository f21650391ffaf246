use std::time::Duration;

use aptabase_rs::{new_session_id, session_id_from, Builder, OsFamily, PlatformInfo};

fn platform() -> PlatformInfo {
    PlatformInfo {
        is_debug: false,
        os_family: OsFamily::MacOs,
        os_type_name: "Mac OS".into(),
        os_version: "14.0".into(),
        is_flatpak: false,
        locale: None,
    }
}

#[test]
fn new_session_id_is_not_empty() {
    // Act
    let session_id = new_session_id();

    // Assert
    assert!(!session_id.is_empty());
}

#[test]
fn session_builder_uses_supplied_session_id() {
    // Act
    let mut client = Builder::new("A-DEV-123", "test")
        .with_session_id("persisted-session")
        .build(platform(), Duration::from_secs(2));

    // Assert
    assert_eq!(client.eval_session_id(), "persisted-session");
}

#[test]
fn builder_generates_session_id_when_none_supplied() {
    // Act
    let mut client = Builder::new("A-DEV-123", "test").build(platform(), Duration::from_secs(2));

    // Assert
    assert!(!client.eval_session_id().is_empty());
}

#[test]
fn session_builder_treats_empty_session_id_as_absent() {
    // Act
    let mut client = Builder::new("A-DEV-123", "test")
        .with_session_id("")
        .build(platform(), Duration::from_secs(2));

    // Assert
    assert!(!client.eval_session_id().is_empty());
}

#[test]
fn session_id_is_seconds_then_eight_random_digits() {
    assert_eq!(
        session_id_from(1_700_000_000_123_456_789, 42),
        "170000000000000042"
    );
    assert_eq!(session_id_from(0, 0), "0");
    assert_eq!(session_id_from(-5_000_000_000, 7), "7");
    assert_eq!(session_id_from(999_999_999, 99_999_999), "99999999");
    assert_eq!(session_id_from(1_000_000_000, 1), "100000001");
}

#[test]
fn new_session_id_is_decimal_and_recent() {
    let id = new_session_id();
    assert!(id.chars().all(|c| c.is_ascii_digit()));
    let value: u128 = id.parse().unwrap();
    let seconds = value / 100_000_000;
    assert!(seconds > 1_600_000_000);
}
