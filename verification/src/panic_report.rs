//! The event that the default panic hook tracks.
use vstd::prelude::*;
use vstd::string::*;

use crate::event::JsonValue;
use crate::text::{decimal, decimal_string};

verus! {

/// Where a panic happened.
#[derive(Debug)]
pub struct PanicLocation {
    pub file: String,
    pub line: u32,
    pub column: u32,
}

/// `file:line:column`, or nothing when the location is unknown.
pub open spec fn location_text(location: Option<PanicLocation>) -> Seq<char> {
    match location {
        Some(l) => l.file@ + ":"@ + decimal(l.line as nat) + ":"@ + decimal(l.column as nat),
        None => Seq::empty(),
    }
}

/// `message (location)`.
pub open spec fn panic_info_text(message: Seq<char>, location: Option<PanicLocation>) -> Seq<char> {
    message + " ("@ + location_text(location) + ")"@
}

/// Whether `props` are the properties of the panic event: one member `info` holding `text`.
pub open spec fn is_panic_props(props: JsonValue, text: Seq<char>) -> bool {
    &&& props matches JsonValue::Object(members)
    &&& members@.len() == 1
    &&& members@[0].0@ == "info"@
    &&& members@[0].1 matches JsonValue::String(s)
    &&& s@ == text
}

/// The name of the event that the default panic hook tracks.
pub const PANIC_EVENT_NAME: &'static str = "panic";

/// Renders a panic location as `file:line:column`.
fn location_string(location: &Option<PanicLocation>) -> (r: String)
    ensures
        r@ == location_text(*location),
{
    match location {
        Some(l) => {
            let colon = ":";
            let s = l.file.clone();
            let s = s.concat(colon);
            let line = decimal_string(l.line as u128);
            let s = s.concat(line.as_str());
            let s = s.concat(colon);
            let column = decimal_string(l.column as u128);
            s.concat(column.as_str())
        },
        None => String::new(),
    }
}

/// The properties of the panic event for a panic message and its location.
pub fn default_panic_props(message: &str, location: Option<PanicLocation>) -> (r: JsonValue)
    ensures
        is_panic_props(r, panic_info_text(message@, location)),
{
    let loc = location_string(&location);
    let text = String::from_str(message);
    let text = text.concat(" (");
    let text = text.concat(loc.as_str());
    let text = text.concat(")");
    let mut members: Vec<(String, JsonValue)> = Vec::new();
    members.push((String::from_str("info"), JsonValue::String(text)));
    JsonValue::Object(members)
}

} // verus!
