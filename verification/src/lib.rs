//! Verified core of an Aptabase analytics client.
pub mod builder;
pub mod client;
pub mod config;
pub mod dispatcher;
pub mod event;
pub mod laws;
pub mod panic_report;
pub mod session;
pub mod sys;
pub mod text;

pub use builder::Builder;
pub use client::AptabaseClient;
pub use config::{Config, InitOptions, Region};
pub use dispatcher::{
    should_retry, status_is_server_error, status_is_success, user_agent, EventDispatcher, FlushRun,
    Reply, RequestShape, HTTP_REQUEST_TIMEOUT_SECS, MAX_BATCH_SIZE,
};
pub use event::{event_document, JsonValue, SDK_VERSION};
pub use panic_report::{default_panic_props, PanicLocation, PANIC_EVENT_NAME};
pub use session::{new_session_id, session_id_from, TrackingSession};
pub use sys::{get_info, is_flatpak, OsFamily, PlatformInfo, SystemProperties};
