//! The client builder.
use std::time::Duration;
use vstd::prelude::*;
use vstd::string::*;

use crate::client::{configured, AptabaseClient};
use crate::config::{opt_view, InitOptions};
use crate::session::{is_generated_session_id, now_unix_nanos};
use crate::sys::PlatformInfo;

verus! {

/// Collects the settings of a client before it is built.
#[derive(Debug)]
pub struct Builder {
    pub app_key: String,
    pub app_version: String,
    /// The caller's initial session id, if any.
    pub session_id: Option<String>,
    /// Whether periodic flushing should start with the client.
    pub enable_polling: bool,
    pub options: InitOptions,
}

/// Whether a caller-supplied session id is used: present and non-empty.
pub open spec fn supplied_id(session_id: Option<Seq<char>>) -> Option<Seq<char>> {
    match session_id {
        Some(id) => if id.len() > 0 {
            Some(id)
        } else {
            None
        },
        None => None,
    }
}

impl Builder {
    /// Creates a new builder.
    pub fn new(app_key: &str, app_version: &str) -> (r: Builder)
        ensures
            r.app_key@ == app_key@,
            r.app_version@ == app_version@,
            r.session_id is None,
            !r.enable_polling,
            r.options.host is None,
            r.options.flush_interval is None,
            r.options.engine_name is None,
            r.options.engine_version is None,
    {
        Builder {
            app_key: String::from_str(app_key),
            app_version: String::from_str(app_version),
            session_id: None,
            enable_polling: false,
            options: InitOptions {
                host: None,
                flush_interval: None,
                engine_name: None,
                engine_version: None,
            },
        }
    }

    /// Sets custom options to use for the client.
    pub fn with_options(self, opts: InitOptions) -> (r: Builder)
        ensures
            r == (Builder { options: opts, ..self }),
    {
        Builder { options: opts, ..self }
    }

    /// Sets the initial session id.
    pub fn with_session_id(self, session_id: &str) -> (r: Builder)
        ensures
            r.app_key == self.app_key,
            r.app_version == self.app_version,
            r.enable_polling == self.enable_polling,
            r.options == self.options,
            r.session_id matches Some(id) && id@ == session_id@,
    {
        Builder { session_id: Some(String::from_str(session_id)), ..self }
    }

    /// Sets whether periodic flushing should be enabled.
    pub fn with_polling(self, enable: bool) -> (r: Builder)
        ensures
            r == (Builder { enable_polling: enable, ..self }),
    {
        Builder { enable_polling: enable, ..self }
    }

    /// Builds the client from the settings and what the platform reports, at the present time.
    /// A non-empty caller-supplied session id replaces the generated one.
    pub fn build(self, platform: PlatformInfo, default_flush_interval: Duration) -> (r:
        AptabaseClient)
        ensures
            exists|now: int| #[trigger] built(r, self, platform, default_flush_interval, now),
    {
        let now = now_unix_nanos();
        self.build_at(platform, default_flush_interval, now)
    }

    /// Builds the client with its session starting at `now` (Unix nanoseconds).
    pub fn build_at(self, platform: PlatformInfo, default_flush_interval: Duration, now: i128) -> (r:
        AptabaseClient)
        ensures
            built(r, self, platform, default_flush_interval, now as int),
    {
        let mut client = AptabaseClient::with_options_at(
            self.app_key,
            self.app_version,
            self.options,
            platform,
            default_flush_interval,
            now,
        );
        client.seed_session_id(self.session_id);
        client
    }
}

/// Whether `c` is the client that builder `b` builds at `now`: configured from the builder's
/// settings, its session starting at `now`, with the supplied id when it is present and non-empty
/// and a generated one otherwise.
pub open spec fn built(
    c: AptabaseClient,
    b: Builder,
    platform: PlatformInfo,
    default_flush_interval: Duration,
    now: int,
) -> bool {
    &&& configured(c, b.app_key@, b.app_version@, b.options, platform, default_flush_interval)
    &&& c.session.last_touch_ts == now
    &&& c.well_formed()
    &&& match supplied_id(opt_view(b.session_id)) {
        Some(id) => c.session.id@ == id,
        None => is_generated_session_id(c.session.id@),
    }
}

} // verus!
