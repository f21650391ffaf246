//! The client: enabling, sessions and event tracking.
use std::time::Duration;
use vstd::prelude::*;
use vstd::string::*;

use crate::config::{fallback_url, ingest_endpoint, opt_view, Config, InitOptions};
use crate::dispatcher::{header_safe, header_value_ok, user_agent, user_agent_of, EventDispatcher};
use crate::event::{event_document, is_event_json, props_are_valid, props_rejected, JsonValue};
use crate::session::{
    is_generated_session_id, lemma_generated_ids_are_digits, now_unix_nanos, session_seeded, session_used, TrackingSession,
};
use crate::sys::{get_info, system_properties_of, PlatformInfo, SystemProperties};

verus! {

/// The client used to track events.
#[derive(Debug)]
pub struct AptabaseClient {
    /// Whether the configuration allows delivery; a disabled client ignores events.
    pub is_enabled: bool,
    /// The current tracking session.
    pub session: TrackingSession,
    /// The queue of events waiting for delivery.
    pub dispatcher: EventDispatcher,
    /// The application's version, reported with every event.
    pub app_version: String,
    /// Metadata reported with every event.
    pub sys_info: SystemProperties,
    /// Interval for periodic flushing.
    pub flush_interval: Duration,
}

/// The RFC 3339 text that the `time` crate gives for a UTC instant in Unix nanoseconds, or `None`
/// where it has no such text.
pub uninterp spec fn rfc3339_text(unix_nanos: int) -> Option<Seq<char>>;

/// Calls `time::OffsetDateTime::from_unix_timestamp_nanos` and formats the instant with
/// `time::format_description::well_known::Rfc3339`. Trusted: the result is `rfc3339_text` of the
/// instant.
#[verifier::external_body]
fn format_rfc3339(unix_nanos: i128) -> (r: Option<String>)
    ensures
        opt_view(r) == rfc3339_text(unix_nanos as int),
{
    match time::OffsetDateTime::from_unix_timestamp_nanos(unix_nanos) {
        Ok(instant) => instant.format(&time::format_description::well_known::Rfc3339).ok(),
        Err(_) => None,
    }
}

/// The error for properties that are not a JSON object.
pub open spec fn props_error() -> Seq<char> {
    "props must be `None` or the `Object` variation of `serde_json::Value`"@
}

/// The error for a clock reading that has no RFC 3339 text.
pub open spec fn clock_error() -> Seq<char> {
    "the current time cannot be written as an RFC 3339 timestamp"@
}

/// Whether `after` differs from `before` in at most its session and its queue.
pub open spec fn same_setup(before: AptabaseClient, after: AptabaseClient) -> bool {
    &&& after.is_enabled == before.is_enabled
    &&& after.app_version == before.app_version
    &&& after.sys_info == before.sys_info
    &&& after.flush_interval == before.flush_interval
    &&& after.dispatcher.url == before.dispatcher.url
    &&& after.dispatcher.app_key == before.dispatcher.app_key
    &&& after.dispatcher.user_agent == before.dispatcher.user_agent
}

/// Whether tracking the event `name` with `props` at `now` takes `before` to `after` with result
/// `r`. A disabled client accepts and ignores the event. Properties that are not a JSON object are
/// refused. Otherwise the session is used at `now` and one event is appended to the queue; only a
/// clock reading without an RFC 3339 text is refused there.
pub open spec fn event_tracked(
    before: AptabaseClient,
    name: Seq<char>,
    props: Option<JsonValue>,
    now: int,
    after: AptabaseClient,
    r: Result<(), String>,
) -> bool {
    if !before.is_enabled {
        r is Ok && after == before
    } else if props_rejected(props) {
        r matches Err(m) && m@ == props_error() && after == before
    } else {
        match rfc3339_text(now) {
            None => r matches Err(m) && m@ == clock_error() && after == before,
            Some(ts) => {
                &&& r is Ok
                &&& same_setup(before, after)
                &&& session_used(before.session, now, after.session, after.session.id@)
                &&& after.dispatcher@.len() == before.dispatcher@.len() + 1
                &&& after.dispatcher@.drop_last() == before.dispatcher@
                &&& is_event_json(
                    after.dispatcher@.last(),
                    ts,
                    after.session.id@,
                    name,
                    before.sys_info,
                    before.app_version@,
                    props,
                )
            },
        }
    }
}

/// The app key that the configuration keeps: the key itself when it is usable, else nothing.
pub open spec fn configured_key(key: Seq<char>, host: Option<Seq<char>>) -> Seq<char> {
    if ingest_endpoint(key, host) is Some {
        key
    } else {
        Seq::empty()
    }
}

/// The ingestion URL that the configuration holds.
pub open spec fn configured_url(key: Seq<char>, host: Option<Seq<char>>) -> Seq<char> {
    match ingest_endpoint(key, host) {
        Some(u) => u,
        None => fallback_url(),
    }
}

/// Whether a client for `key` and `host`, reporting `sys`, can deliver: the key names a usable
/// endpoint, and both the key and the user agent can be sent as HTTP header values.
pub open spec fn delivery_usable(key: Seq<char>, host: Option<Seq<char>>, sys: SystemProperties) -> bool {
    &&& ingest_endpoint(key, host) is Some
    &&& header_safe(key)
    &&& header_safe(user_agent_of(sys))
}

/// Whether `c` is configured for `key`, `app_version`, `options` and `platform`, with an empty queue.
/// A configuration that cannot deliver disables the client instead of failing.
pub open spec fn configured(
    c: AptabaseClient,
    key: Seq<char>,
    app_version: Seq<char>,
    options: InitOptions,
    platform: PlatformInfo,
    default_flush_interval: Duration,
) -> bool {
    let host = opt_view(options.host);
    let usable = delivery_usable(key, host, c.sys_info);
    &&& system_properties_of(platform, options, c.sys_info)
    &&& c.is_enabled == usable
    &&& c.app_version@ == app_version
    &&& c.flush_interval == if usable {
        match options.flush_interval {
            Some(d) => d,
            None => default_flush_interval,
        }
    } else {
        default_flush_interval
    }
    &&& c.dispatcher.url@ == if usable {
        configured_url(key, host)
    } else {
        fallback_url()
    }
    &&& c.dispatcher.app_key@ == if usable {
        key
    } else {
        Seq::<char>::empty()
    }
    &&& c.dispatcher.user_agent@ == if header_safe(user_agent_of(c.sys_info)) {
        user_agent_of(c.sys_info)
    } else {
        Seq::<char>::empty()
    }
    &&& c.dispatcher@ == Seq::<JsonValue>::empty()
}

/// Whether `c` is a freshly constructed client at `now`: configured, with a generated session id
/// whose activity starts at `now`.
pub open spec fn constructed(
    c: AptabaseClient,
    key: Seq<char>,
    app_version: Seq<char>,
    options: InitOptions,
    platform: PlatformInfo,
    default_flush_interval: Duration,
    now: int,
) -> bool {
    &&& configured(c, key, app_version, options, platform, default_flush_interval)
    &&& is_generated_session_id(c.session.id@)
    &&& c.session.last_touch_ts == now
    &&& c.well_formed()
}

/// A usable app key is never empty.
proof fn lemma_endpoint_key_nonempty(key: Seq<char>, host: Option<Seq<char>>)
    ensures
        ingest_endpoint(key, host) is Some ==> key.len() > 0,
{
    if key.len() == 0 {
        assert(crate::config::split_fields(key) =~= seq![Seq::<char>::empty()]);
    }
}

/// The options with nothing set.
pub open spec fn no_options() -> InitOptions {
    InitOptions { host: None, flush_interval: None, engine_name: None, engine_version: None }
}

impl AptabaseClient {
    /// Whether the client is well formed: its session id is never empty.
    pub open spec fn well_formed(&self) -> bool {
        self.session.id@.len() > 0
    }

    /// Creates a client using the default options, constructed at the present time.
    pub fn new(
        app_key: String,
        app_version: String,
        platform: PlatformInfo,
        default_flush_interval: Duration,
    ) -> (r: AptabaseClient)
        ensures
            exists|now: int|
                #[trigger] constructed(
                    r,
                    app_key@,
                    app_version@,
                    no_options(),
                    platform,
                    default_flush_interval,
                    now,
                ),
    {
        let options = InitOptions::default();
        AptabaseClient::with_options(app_key, app_version, options, platform, default_flush_interval)
    }

    /// Creates a client using a custom endpoint, interval, or engine metadata, constructed at the
    /// present time.
    pub fn with_options(
        app_key: String,
        app_version: String,
        options: InitOptions,
        platform: PlatformInfo,
        default_flush_interval: Duration,
    ) -> (r: AptabaseClient)
        ensures
            exists|now: int|
                #[trigger] constructed(
                    r,
                    app_key@,
                    app_version@,
                    options,
                    platform,
                    default_flush_interval,
                    now,
                ),
    {
        let now = now_unix_nanos();
        AptabaseClient::with_options_at(
            app_key,
            app_version,
            options,
            platform,
            default_flush_interval,
            now,
        )
    }

    /// Creates a client whose session starts at `now` (Unix nanoseconds).
    pub fn with_options_at(
        app_key: String,
        app_version: String,
        options: InitOptions,
        platform: PlatformInfo,
        default_flush_interval: Duration,
        now: i128,
    ) -> (r: AptabaseClient)
        ensures
            constructed(
                r,
                app_key@,
                app_version@,
                options,
                platform,
                default_flush_interval,
                now as int,
            ),
    {
        proof {
            lemma_endpoint_key_nonempty(app_key@, opt_view(options.host));
        }
        let sys_info = get_info(platform, &options);
        let config = Config::new(app_key, &options, default_flush_interval);
        let agent_ok = header_value_ok(user_agent(&sys_info).as_str());
        let usable = !config.app_key.as_str().is_empty() && header_value_ok(config.app_key.as_str())
            && agent_ok;
        let config = if usable {
            config
        } else {
            Config::disabled(default_flush_interval)
        };
        let mut dispatcher = EventDispatcher::new(&config, &sys_info);
        if !agent_ok {
            dispatcher.user_agent = String::new();
        }
        let session = TrackingSession::new_at(now);
        proof {
            lemma_generated_ids_are_digits(session.id@);
        }
        AptabaseClient {
            is_enabled: usable,
            session,
            dispatcher,
            app_version,
            sys_info,
            flush_interval: config.flush_interval,
        }
    }

    /// Whether this client has a usable delivery configuration.
    pub fn is_enabled(&self) -> (r: bool)
        ensures
            r == self.is_enabled,
    {
        self.is_enabled
    }

    /// Returns the current session id at the present time, replacing an expired session.
    pub fn eval_session_id(&mut self) -> (id: String)
        ensures
            exists|now: int|
                #[trigger] session_used(old(self).session, now, final(self).session, id@),
            final(self).dispatcher == old(self).dispatcher,
            same_setup(*old(self), *final(self)),
            old(self).well_formed() ==> final(self).well_formed(),
    {
        let now = now_unix_nanos();
        self.eval_session_id_at(now)
    }

    /// Returns the session id at `now`, replacing the session when it has been idle for more than
    /// four hours and refreshing its activity time otherwise.
    pub fn eval_session_id_at(&mut self, now: i128) -> (id: String)
        ensures
            session_used(old(self).session, now as int, final(self).session, id@),
            final(self).dispatcher == old(self).dispatcher,
            same_setup(*old(self), *final(self)),
            old(self).well_formed() ==> final(self).well_formed(),
    {
        self.session.use_at(now)
    }

    /// Replaces the generated session id with a caller-supplied one. An absent or empty id leaves
    /// the generated one in place; the session's activity time is unaffected.
    pub fn seed_session_id(&mut self, id: Option<String>)
        ensures
            session_seeded(old(self).session, opt_view(id), final(self).session),
            final(self).dispatcher == old(self).dispatcher,
            same_setup(*old(self), *final(self)),
            old(self).well_formed() ==> final(self).well_formed(),
    {
        self.session.seed(id);
    }

    /// Enqueues an event at the present time.
    pub fn track_event(&mut self, name: &str, props: Option<JsonValue>) -> (r: Result<(), String>)
        ensures
            exists|now: int| #[trigger] event_tracked(*old(self), name@, props, now, *final(self), r),
            old(self).well_formed() ==> final(self).well_formed(),
    {
        let now = now_unix_nanos();
        self.track_event_at(name, props, now)
    }

    /// Enqueues an event tracked at `now` (Unix nanoseconds).
    pub fn track_event_at(&mut self, name: &str, props: Option<JsonValue>, now: i128) -> (r: Result<
        (),
        String,
    >)
        ensures
            event_tracked(*old(self), name@, props, now as int, *final(self), r),
            old(self).well_formed() ==> final(self).well_formed(),
    {
        if !self.is_enabled {
            return Ok(());
        }
        if !props_are_valid(&props) {
            return Err(
                String::from_str(
                    "props must be `None` or the `Object` variation of `serde_json::Value`",
                ),
            );
        }
        let timestamp = match format_rfc3339(now) {
            Some(t) => t,
            None => {
                return Err(
                    String::from_str("the current time cannot be written as an RFC 3339 timestamp"),
                );
            },
        };
        let session_id = self.eval_session_id_at(now);
        let event = event_document(timestamp, session_id, name, &self.sys_info, &self.app_version, props);
        let ghost queued = self.dispatcher@;
        self.dispatcher.enqueue(event);
        assert(self.dispatcher@.drop_last() =~= queued);
        Ok(())
    }
}

} // verus!
