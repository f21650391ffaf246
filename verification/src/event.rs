//! JSON values, and the documents of tracked events.
use vstd::prelude::*;
use vstd::string::*;

use crate::sys::SystemProperties;

verus! {

/// A JSON value. Numbers keep their JSON text; objects keep their members in order.
#[derive(Debug, PartialEq)]
pub enum JsonValue {
    Null,
    Bool(bool),
    Number(String),
    String(String),
    Array(Vec<JsonValue>),
    Object(Vec<(String, JsonValue)>),
}

/// This SDK's name and version, as reported with every event.
pub const SDK_VERSION: &'static str = "aptabase-rs@0.1.0";

/// Whether properties are refused: anything but an absent value or a JSON object.
pub open spec fn props_rejected(props: Option<JsonValue>) -> bool {
    match props {
        Some(JsonValue::Object(_)) => false,
        Some(_) => true,
        None => false,
    }
}

/// Whether the properties are acceptable for an event.
pub fn props_are_valid(props: &Option<JsonValue>) -> (r: bool)
    ensures
        r == !props_rejected(*props),
{
    match props {
        Some(JsonValue::Object(_)) => true,
        Some(_) => false,
        None => true,
    }
}

/// Whether `m` is the member `key` holding the text `value`.
pub open spec fn text_member(m: (String, JsonValue), key: Seq<char>, value: Seq<char>) -> bool {
    &&& m.0@ == key
    &&& m.1 matches JsonValue::String(s)
    &&& s@ == value
}

/// Whether `j` is the `systemProps` document: `isDebug`, `osName`, `osVersion`, `locale`,
/// `engineName`, `engineVersion`, `appVersion` and `sdkVersion`.
pub open spec fn is_system_props_json(j: JsonValue, sys: SystemProperties, app_version: Seq<char>) -> bool {
    &&& j matches JsonValue::Object(m)
    &&& m@.len() == 8
    &&& m@[0].0@ == "isDebug"@
    &&& m@[0].1 == JsonValue::Bool(sys.is_debug)
    &&& text_member(m@[1], "osName"@, sys.os_name@)
    &&& text_member(m@[2], "osVersion"@, sys.os_version@)
    &&& text_member(m@[3], "locale"@, sys.locale@)
    &&& text_member(m@[4], "engineName"@, sys.engine_name@)
    &&& text_member(m@[5], "engineVersion"@, sys.engine_version@)
    &&& text_member(m@[6], "appVersion"@, app_version)
    &&& text_member(m@[7], "sdkVersion"@, SDK_VERSION@)
}

/// Whether `j` is the event document that the ingestion API receives: `timestamp`, `sessionId`,
/// `eventName`, `systemProps` and `props` (null when absent).
pub open spec fn is_event_json(
    j: JsonValue,
    timestamp: Seq<char>,
    session_id: Seq<char>,
    name: Seq<char>,
    sys: SystemProperties,
    app_version: Seq<char>,
    props: Option<JsonValue>,
) -> bool {
    &&& j matches JsonValue::Object(m)
    &&& m@.len() == 5
    &&& text_member(m@[0], "timestamp"@, timestamp)
    &&& text_member(m@[1], "sessionId"@, session_id)
    &&& text_member(m@[2], "eventName"@, name)
    &&& m@[3].0@ == "systemProps"@
    &&& is_system_props_json(m@[3].1, sys, app_version)
    &&& m@[4].0@ == "props"@
    &&& m@[4].1 == match props {
        Some(p) => p,
        None => JsonValue::Null,
    }
}

/// The session id that an event document carries.
pub open spec fn event_session_id(j: JsonValue) -> Seq<char> {
    match j {
        JsonValue::Object(m) => match m@[1].1 {
            JsonValue::String(s) => s@,
            _ => Seq::empty(),
        },
        _ => Seq::empty(),
    }
}

fn text_entry(key: &str, value: String) -> (r: (String, JsonValue))
    ensures
        text_member(r, key@, value@),
{
    (String::from_str(key), JsonValue::String(value))
}

/// The event document for the given parts.
pub fn event_document(
    timestamp: String,
    session_id: String,
    name: &str,
    sys: &SystemProperties,
    app_version: &String,
    props: Option<JsonValue>,
) -> (r: JsonValue)
    ensures
        is_event_json(r, timestamp@, session_id@, name@, *sys, app_version@, props),
{
    let mut system: Vec<(String, JsonValue)> = Vec::new();
    system.push((String::from_str("isDebug"), JsonValue::Bool(sys.is_debug)));
    system.push(text_entry("osName", sys.os_name.clone()));
    system.push(text_entry("osVersion", sys.os_version.clone()));
    system.push(text_entry("locale", sys.locale.clone()));
    system.push(text_entry("engineName", sys.engine_name.clone()));
    system.push(text_entry("engineVersion", sys.engine_version.clone()));
    system.push(text_entry("appVersion", app_version.clone()));
    system.push(text_entry("sdkVersion", String::from_str(SDK_VERSION)));
    let mut members: Vec<(String, JsonValue)> = Vec::new();
    members.push(text_entry("timestamp", timestamp));
    members.push(text_entry("sessionId", session_id));
    members.push(text_entry("eventName", String::from_str(name)));
    members.push((String::from_str("systemProps"), JsonValue::Object(system)));
    let value = match props {
        Some(p) => p,
        None => JsonValue::Null,
    };
    members.push((String::from_str("props"), value));
    JsonValue::Object(members)
}

} // verus!
