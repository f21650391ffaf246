use aptabase_rs::{default_panic_props, JsonValue, PanicLocation, PANIC_EVENT_NAME};

#[test]
fn panic_props_carry_message_and_location() {
    let props = default_panic_props(
        "boom",
        Some(PanicLocation {
            file: "src/main.rs".into(),
            line: 12,
            column: 5,
        }),
    );
    assert_eq!(
        props,
        JsonValue::Object(vec![(
            "info".into(),
            JsonValue::String("boom (src/main.rs:12:5)".into())
        )])
    );
    assert_eq!(PANIC_EVENT_NAME, "panic");
}

#[test]
fn panic_props_without_location() {
    let props = default_panic_props("oops", None);
    assert_eq!(
        props,
        JsonValue::Object(vec![("info".into(), JsonValue::String("oops ()".into()))])
    );
}
