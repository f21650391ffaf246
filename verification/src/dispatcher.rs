//! The in-memory event queue and the decisions of a flush: batching, retry and requeueing.
use std::collections::VecDeque;
use vstd::prelude::*;
use vstd::string::*;

use crate::config::Config;
use crate::event::JsonValue;
use crate::sys::SystemProperties;
use crate::text::chars_of;

verus! {

/// The most events that one request carries.
pub const MAX_BATCH_SIZE: usize = 25;

/// Holds the events waiting for delivery, and what the transport needs to deliver them.
#[derive(Debug)]
pub struct EventDispatcher {
    /// The serialized ingestion URL.
    pub url: String,
    /// The value of the `App-Key` header.
    pub app_key: String,
    /// The value of the `User-Agent` header.
    pub user_agent: String,
    /// Event documents waiting for delivery, oldest first.
    pub queue: VecDeque<JsonValue>,
}

/// How the ingestion service answered a batch.
#[derive(Debug, Clone, Copy, PartialEq, Eq)]
pub enum Reply {
    /// The service answered with this HTTP status code.
    Status(u16),
    /// The request could not be delivered.
    TransportFailure,
}

/// The state of a flush in progress: the batches that are to be retried later.
#[derive(Debug)]
pub struct FlushRun {
    pub failed: Vec<JsonValue>,
}

/// `<os name>/<os version> <engine name>/<engine version> <locale>`.
pub open spec fn user_agent_of(sys: SystemProperties) -> Seq<char> {
    sys.os_name@ + "/"@ + sys.os_version@ + " "@ + sys.engine_name@ + "/"@ + sys.engine_version@
        + " "@ + sys.locale@
}

/// Whether a character may stand in an HTTP header value, as `http::HeaderValue::from_str` accepts
/// it: a tab, or any character from space upwards but DEL. (Characters beyond ASCII are encoded as
/// bytes from 0x80 upwards, which it accepts.)
pub open spec fn header_char_ok(c: char) -> bool {
    c == '\t' || (32 <= c as u32 && c as u32 != 127)
}

/// Whether a text may be sent as an HTTP header value.
pub open spec fn header_safe(s: Seq<char>) -> bool {
    forall|i: int| 0 <= i < s.len() ==> header_char_ok(#[trigger] s[i])
}

/// Whether `s` may be sent as an HTTP header value.
pub fn header_value_ok(s: &str) -> (r: bool)
    ensures
        r == header_safe(s@),
{
    let chars = chars_of(s);
    let mut i: usize = 0;
    while i < chars.len()
        invariant
            chars@ == s@,
            i <= chars@.len(),
            forall|j: int| 0 <= j < i ==> header_char_ok(#[trigger] s@[j]),
        decreases chars@.len() - i,
    {
        let c = chars[i];
        let code = c as u32;
        if !(c == '\t' || (32 <= code && code != 127)) {
            assert(!header_char_ok(s@[i as int]));
            return false;
        }
        i = i + 1;
    }
    true
}

/// Whether an HTTP status reports success (`200..=299`), as `http::StatusCode::is_success`.
pub open spec fn is_success_status(code: u16) -> bool {
    200 <= code <= 299
}

/// Whether an HTTP status reports a server error (`500..=599`), as
/// `http::StatusCode::is_server_error`.
pub open spec fn is_server_error_status(code: u16) -> bool {
    500 <= code <= 599
}

/// Whether a batch that got `reply` is kept for a later flush: after a transport failure or a
/// server error. A success, or any other unsuccessful status, drops it.
pub open spec fn is_retried(reply: Reply) -> bool {
    match reply {
        Reply::TransportFailure => true,
        Reply::Status(code) => !is_success_status(code) && is_server_error_status(code),
    }
}

/// The size of the next batch taken from a queue of `n` events.
pub open spec fn batch_size(n: nat) -> nat {
    if n < MAX_BATCH_SIZE as nat {
        n
    } else {
        MAX_BATCH_SIZE as nat
    }
}

/// What a batch that got `reply` leaves to retry.
pub open spec fn retained(batch: Seq<JsonValue>, reply: Reply) -> Seq<JsonValue> {
    if is_retried(reply) {
        batch
    } else {
        Seq::empty()
    }
}

/// Whether an HTTP status code reports success.
pub fn status_is_success(code: u16) -> (r: bool)
    ensures
        r == is_success_status(code),
{
    200 <= code && code <= 299
}

/// Whether an HTTP status code reports a server error.
pub fn status_is_server_error(code: u16) -> (r: bool)
    ensures
        r == is_server_error_status(code),
{
    500 <= code && code <= 599
}

/// Whether a batch that got `reply` is to be retried.
pub fn should_retry(reply: Reply) -> (r: bool)
    ensures
        r == is_retried(reply),
{
    match reply {
        Reply::TransportFailure => true,
        Reply::Status(code) => !status_is_success(code) && status_is_server_error(code),
    }
}

/// Builds the user agent from the system properties.
pub fn user_agent(sys: &SystemProperties) -> (r: String)
    ensures
        r@ == user_agent_of(*sys),
{
    let slash = "/";
    let space = " ";
    let s = sys.os_name.clone();
    let s = s.concat(slash);
    let s = s.concat(sys.os_version.as_str());
    let s = s.concat(space);
    let s = s.concat(sys.engine_name.as_str());
    let s = s.concat(slash);
    let s = s.concat(sys.engine_version.as_str());
    let s = s.concat(space);
    s.concat(sys.locale.as_str())
}

/// Seconds after which a delivery request is abandoned.
pub const HTTP_REQUEST_TIMEOUT_SECS: u64 = 10;

/// The shape of every delivery request, as plain values for the transport.
#[derive(Debug)]
pub struct RequestShape {
    /// The HTTP method.
    pub method: String,
    /// Where the request goes.
    pub url: String,
    /// Headers sent with every request, in order.
    pub headers: Vec<(String, String)>,
    /// The `User-Agent` header, when there is one to send.
    pub user_agent: Option<String>,
    /// Seconds after which the request is abandoned.
    pub timeout_secs: u64,
}

/// Whether `h` is the header `name` with the value `value`.
pub open spec fn header_is(h: (String, String), name: Seq<char>, value: Seq<char>) -> bool {
    h.0@ == name && h.1@ == value
}

impl View for EventDispatcher {
    type V = Seq<JsonValue>;

    open spec fn view(&self) -> Seq<JsonValue> {
        self.queue@
    }
}

impl EventDispatcher {
    /// A dispatcher with an empty queue for the configured endpoint.
    pub fn new(config: &Config, sys: &SystemProperties) -> (r: EventDispatcher)
        ensures
            r.url@ == config.ingest_api_url@,
            r.app_key@ == config.app_key@,
            r.user_agent@ == user_agent_of(*sys),
            r@ == Seq::<JsonValue>::empty(),
    {
        EventDispatcher {
            url: config.ingest_api_url.clone(),
            app_key: config.app_key.clone(),
            user_agent: user_agent(sys),
            queue: VecDeque::new(),
        }
    }

    /// The request that carries each batch: a `POST` to the ingestion URL with the `App-Key` and
    /// `Content-Type: application/json` headers, the user agent when it is not empty, and a ten
    /// second timeout.
    pub fn request_shape(&self) -> (r: RequestShape)
        ensures
            r.method@ == "POST"@,
            r.url@ == self.url@,
            r.headers@.len() == 2,
            header_is(r.headers@[0], "App-Key"@, self.app_key@),
            header_is(r.headers@[1], "Content-Type"@, "application/json"@),
            r.user_agent == if self.user_agent@.len() == 0 {
                None::<String>
            } else {
                Some(self.user_agent)
            },
            r.timeout_secs == HTTP_REQUEST_TIMEOUT_SECS,
    {
        let mut headers: Vec<(String, String)> = Vec::new();
        headers.push((String::from_str("App-Key"), self.app_key.clone()));
        headers.push((String::from_str("Content-Type"), String::from_str("application/json")));
        let user_agent = if self.user_agent.as_str().is_empty() {
            None
        } else {
            Some(self.user_agent.clone())
        };
        RequestShape {
            method: String::from_str("POST"),
            url: self.url.clone(),
            headers,
            user_agent,
            timeout_secs: HTTP_REQUEST_TIMEOUT_SECS,
        }
    }

    /// Whether no event is waiting.
    pub fn is_empty(&self) -> (r: bool)
        ensures
            r == (self@.len() == 0),
    {
        self.queue.len() == 0
    }

    /// Appends an event to the queue.
    pub fn enqueue(&mut self, event: JsonValue)
        ensures
            final(self)@ == old(self)@.push(event),
            final(self).url == old(self).url,
            final(self).app_key == old(self).app_key,
            final(self).user_agent == old(self).user_agent,
    {
        self.queue.push_back(event);
    }

    /// Appends events to the queue, in order.
    pub fn enqueue_many(&mut self, events: Vec<JsonValue>)
        ensures
            final(self)@ == old(self)@ + events@,
            final(self).url == old(self).url,
            final(self).app_key == old(self).app_key,
            final(self).user_agent == old(self).user_agent,
    {
        let ghost start = self.queue@;
        let ghost given = events@;
        let mut events = events;
        let mut rest: Vec<JsonValue> = Vec::new();
        // Reverse into `rest`, then push back from its end, which restores the order.
        while events.len() > 0
            invariant
                self.queue@ == start,
                old(self).url == self.url,
                old(self).app_key == self.app_key,
                old(self).user_agent == self.user_agent,
                events@ + rest@.reverse() == given,
            decreases events@.len(),
        {
            let ghost before = events@;
            let e = events.pop().unwrap();
            rest.push(e);
            assert(events@ + rest@.reverse() =~= before + (rest@.drop_last()).reverse());
        }
        assert(rest@.reverse() =~= given);
        let ghost all = rest@.reverse();
        while rest.len() > 0
            invariant
                old(self).url == self.url,
                old(self).app_key == self.app_key,
                old(self).user_agent == self.user_agent,
                self.queue@ + rest@.reverse() == start + all,
            decreases rest@.len(),
        {
            let ghost before = rest@;
            let e = rest.pop().unwrap();
            self.queue.push_back(e);
            assert(before.reverse() =~= seq![e] + rest@.reverse());
        }
        assert(rest@.reverse() =~= Seq::<JsonValue>::empty());
        assert(self.queue@ =~= start + all);
    }

    /// The events waiting for delivery, oldest first.
    pub fn queued_events(&self) -> (r: &VecDeque<JsonValue>)
        ensures
            r@ == self@,
    {
        &self.queue
    }

    /// Takes up to `max` events from the front of the queue.
    fn dequeue_many(&mut self, max: usize) -> (batch: Vec<JsonValue>)
        ensures
            batch@ == old(self)@.take(
                if old(self)@.len() < max {
                    old(self)@.len() as int
                } else {
                    max as int
                },
            ),
            final(self)@ == old(self)@.skip(batch@.len() as int),
            final(self).url == old(self).url,
            final(self).app_key == old(self).app_key,
            final(self).user_agent == old(self).user_agent,
    {
        let mut batch: Vec<JsonValue> = Vec::new();
        if self.queue.len() == 0 {
            assert(old(self)@.skip(0) =~= old(self)@);
            return batch;
        }
        let n = if self.queue.len() < max {
            self.queue.len()
        } else {
            max
        };
        let mut i: usize = 0;
        while i < n
            invariant
                i <= n,
                n <= old(self)@.len(),
                old(self).url == self.url,
                old(self).app_key == self.app_key,
                old(self).user_agent == self.user_agent,
                batch@ == old(self)@.take(i as int),
                self.queue@ == old(self)@.skip(i as int),
            decreases n - i,
        {
            let e = self.queue.pop_front().unwrap();
            batch.push(e);
            assert(batch@ =~= old(self)@.take(i + 1));
            assert(self.queue@ =~= old(self)@.skip(i + 1));
            i = i + 1;
        }
        batch
    }

    /// Starts a flush: `None` when there is nothing to send, so no request is made.
    pub fn begin_flush(&self) -> (r: Option<FlushRun>)
        ensures
            r is None <==> self@.len() == 0,
            r matches Some(run) ==> run.failed@ == Seq::<JsonValue>::empty(),
    {
        if self.is_empty() {
            None
        } else {
            Some(FlushRun { failed: Vec::new() })
        }
    }

    /// The next batch to send: the oldest events, at most `MAX_BATCH_SIZE` of them, or `None` once
    /// the queue is empty.
    pub fn next_batch(&mut self) -> (r: Option<Vec<JsonValue>>)
        ensures
            match r {
                Some(batch) => {
                    &&& old(self)@.len() > 0
                    &&& batch@ == old(self)@.take(batch_size(old(self)@.len()) as int)
                    &&& final(self)@ == old(self)@.skip(batch_size(old(self)@.len()) as int)
                },
                None => old(self)@.len() == 0 && final(self)@ == old(self)@,
            },
            final(self).url == old(self).url,
            final(self).app_key == old(self).app_key,
            final(self).user_agent == old(self).user_agent,
    {
        let batch = self.dequeue_many(MAX_BATCH_SIZE);
        if batch.len() == 0 {
            None
        } else {
            Some(batch)
        }
    }

    /// Ends a flush: the batches kept for retry go back to the end of the queue.
    pub fn finish_flush(&mut self, run: FlushRun)
        ensures
            final(self)@ == old(self)@ + run.failed@,
            final(self).url == old(self).url,
            final(self).app_key == old(self).app_key,
            final(self).user_agent == old(self).user_agent,
    {
        self.enqueue_many(run.failed);
    }
}

impl FlushRun {
    /// Records how the service answered `batch`: a transport failure or a server error keeps the
    /// batch for retry; anything else drops it.
    pub fn record(&mut self, batch: Vec<JsonValue>, reply: Reply)
        ensures
            final(self).failed@ == old(self).failed@ + retained(batch@, reply),
    {
        let mut batch = batch;
        if should_retry(reply) {
            self.failed.append(&mut batch);
        } else {
            assert(old(self).failed@ + retained(batch@, reply) =~= old(self).failed@);
        }
    }
}

} // verus!
