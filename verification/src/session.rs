//! Session ids and the four-hour session lifecycle.
use rand::Rng;
use vstd::prelude::*;

use crate::text::{decimal, decimal_string, digits};

verus! {

/// Four hours, in nanoseconds: a session idle for longer than this is replaced.
pub const SESSION_TIMEOUT_NANOS: i128 = 14_400_000_000_000;

/// Nanoseconds per second.
pub const NANOS_PER_SECOND: i128 = 1_000_000_000;

/// The largest random part of a session id.
pub const MAX_SESSION_RANDOM: u64 = 99_999_999;

/// A tracking session: its id and when it was last used, in Unix nanoseconds.
#[derive(Debug)]
pub struct TrackingSession {
    pub id: String,
    pub last_touch_ts: i128,
}

/// Whole seconds since the Unix epoch at `unix_nanos`; a time before the epoch counts as the epoch.
pub open spec fn epoch_seconds(unix_nanos: int) -> nat {
    if unix_nanos < 0 {
        0
    } else {
        (unix_nanos / NANOS_PER_SECOND as int) as nat
    }
}

/// The session id made of the epoch seconds and a random part: `seconds * 10^8 + random`, in decimal.
pub open spec fn session_id_for(seconds: nat, random: nat) -> Seq<char> {
    decimal(seconds * 100_000_000 + random)
}

/// Whether `s` is an id that the generator can produce.
pub open spec fn is_generated_session_id(s: Seq<char>) -> bool {
    exists|seconds: nat, random: nat|
        random <= MAX_SESSION_RANDOM && s == #[trigger] session_id_for(seconds, random)
}

/// Whether a session last used at `last_touch` has timed out at `now`.
pub open spec fn session_expired(last_touch: int, now: int) -> bool {
    now - last_touch > SESSION_TIMEOUT_NANOS as int
}

/// Every decimal rendering is non-empty and made of digits only.
pub proof fn lemma_decimal_digits(n: nat)
    ensures
        decimal(n).len() >= 1,
        forall|i: int| 0 <= i < decimal(n).len() ==> digits().contains(#[trigger] decimal(n)[i]),
    decreases n,
{
    if n < 10 {
        assert(digits()[n as int] == decimal(n)[0]);
    } else {
        lemma_decimal_digits(n / 10);
        let d = (n % 10) as int;
        assert forall|i: int| 0 <= i < decimal(n).len() implies digits().contains(
            #[trigger] decimal(n)[i],
        ) by {
            if i < decimal(n / 10).len() {
                assert(decimal(n)[i] == decimal(n / 10)[i]);
            } else {
                assert(decimal(n)[i] == digits()[d]);
            }
        }
    }
}

/// A generated session id is non-empty and made of digits only.
pub proof fn lemma_generated_ids_are_digits(s: Seq<char>)
    requires
        is_generated_session_id(s),
    ensures
        s.len() >= 1,
        forall|i: int| 0 <= i < s.len() ==> digits().contains(#[trigger] s[i]),
{
    let (seconds, random) = choose|seconds: nat, random: nat|
        random <= MAX_SESSION_RANDOM && s == #[trigger] session_id_for(seconds, random);
    lemma_decimal_digits(seconds * 100_000_000 + random);
}

/// The session id for the clock reading `unix_nanos` and the random part `random`.
pub fn session_id_from(unix_nanos: i128, random: u64) -> (s: String)
    ensures
        s@ == session_id_for(epoch_seconds(unix_nanos as int), random as nat),
{
    let seconds: u128 = if unix_nanos < 0 {
        0
    } else {
        (unix_nanos / NANOS_PER_SECOND) as u128
    };
    proof {
        if unix_nanos >= 0 {
            let n = unix_nanos as int;
            assert((n / 1_000_000_000) * 1_000_000_000 <= n) by (nonlinear_arith)
                requires
                    n >= 0,
            ;
        }
    }
    let id: u128 = seconds * 100_000_000 + random as u128;
    decimal_string(id)
}

/// Reads the current time, in nanoseconds since the Unix epoch.
/// Calls `time::OffsetDateTime::now_utc` and converts it with `unix_timestamp_nanos`. Trusted:
/// nothing is claimed of the reading, which depends on the clock.
#[verifier::external_body]
pub(crate) fn now_unix_nanos() -> i128 {
    time::OffsetDateTime::now_utc().unix_timestamp_nanos()
}

/// Draws a number uniformly from `0..=max`.
/// Calls `rand::Rng::random_range` on the thread's generator `rand::rng()`. Trusted: the draw lies
/// in the range handed to the call, which is never empty. Not claimed: `rand::rng()` panics when the
/// operating system provides no entropy to seed the generator, which no argument can rule out.
#[verifier::external_body]
fn random_up_to(max: u64) -> (r: u64)
    ensures
        r <= max,
{
    rand::rng().random_range(0..=max)
}

/// Whether `s` is an id generated at `now` (Unix nanoseconds): the seconds of `now` followed by
/// eight random decimal digits' worth, `seconds * 10^8 + random`.
pub open spec fn is_session_id_at(s: Seq<char>, now: int) -> bool {
    exists|random: nat|
        random <= MAX_SESSION_RANDOM && s == #[trigger] session_id_for(epoch_seconds(now), random)
}

/// Generates a session id for the time `now` with a fresh random number.
pub fn session_id_at(now: i128) -> (s: String)
    ensures
        is_session_id_at(s@, now as int),
        is_generated_session_id(s@),
{
    let random = random_up_to(MAX_SESSION_RANDOM);
    let s = session_id_from(now, random);
    assert(s@ == session_id_for(epoch_seconds(now as int), random as nat));
    s
}

/// Generates a new session id from the current time and a random number.
pub fn new_session_id() -> (s: String)
    ensures
        is_generated_session_id(s@),
{
    let now = now_unix_nanos();
    session_id_at(now)
}

/// Whether `after` is `before` used at `now`, reporting `id`: an expired session is replaced by one
/// with a fresh id generated at `now`; a live one keeps its id. Either way it is stamped with `now`.
pub open spec fn session_used(before: TrackingSession, now: int, after: TrackingSession, id: Seq<char>) -> bool {
    &&& after.last_touch_ts == now
    &&& id == after.id@
    &&& if session_expired(before.last_touch_ts as int, now) {
        is_generated_session_id(after.id@) && is_session_id_at(after.id@, now)
    } else {
        after.id@ == before.id@
    }
}

/// Whether `after` is `before` seeded with the caller's `supplied` id: a non-empty id replaces the
/// current one; an absent or empty one leaves the session as it is.
pub open spec fn session_seeded(before: TrackingSession, supplied: Option<Seq<char>>, after: TrackingSession) -> bool {
    &&& after.last_touch_ts == before.last_touch_ts
    &&& match supplied {
        Some(id) => if id.len() > 0 {
            after.id@ == id
        } else {
            after.id@ == before.id@
        },
        None => after.id@ == before.id@,
    }
}

impl Clone for TrackingSession {
    fn clone(&self) -> (r: Self)
        ensures
            r == *self,
    {
        TrackingSession { id: self.id.clone(), last_touch_ts: self.last_touch_ts }
    }
}

impl TrackingSession {
    /// A new session with a generated id, stamped `now`.
    pub fn new_at(now: i128) -> (r: TrackingSession)
        ensures
            r.last_touch_ts == now,
            is_generated_session_id(r.id@),
            is_session_id_at(r.id@, now as int),
    {
        TrackingSession { id: session_id_at(now), last_touch_ts: now }
    }

    /// Uses the session at `now` and returns its id, replacing it first when it has expired.
    pub fn use_at(&mut self, now: i128) -> (id: String)
        ensures
            session_used(*old(self), now as int, *final(self), id@),
            old(self).id@.len() > 0 ==> final(self).id@.len() > 0,
    {
        let expired = match now.checked_sub(self.last_touch_ts) {
            Some(d) => d > SESSION_TIMEOUT_NANOS,
            None => now > self.last_touch_ts,
        };
        if expired {
            *self = TrackingSession::new_at(now);
            proof {
                lemma_generated_ids_are_digits(self.id@);
            }
        } else {
            self.last_touch_ts = now;
        }
        self.id.clone()
    }

    /// Replaces the id with `id` when it is present and non-empty.
    pub fn seed(&mut self, id: Option<String>)
        ensures
            session_seeded(
                *old(self),
                match id {
                    Some(s) => Some(s@),
                    None => None,
                },
                *final(self),
            ),
            old(self).id@.len() > 0 ==> final(self).id@.len() > 0,
    {
        match id {
            Some(s) => {
                if s.as_str().is_empty() {
                    return ;
                }
                self.id = s;
            },
            None => {},
        }
    }
}

} // verus!
