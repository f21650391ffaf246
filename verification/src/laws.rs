//! Properties of the library that span several calls.
use vstd::prelude::*;

use crate::builder::{built, supplied_id, Builder};
use crate::client::{event_tracked, rfc3339_text, AptabaseClient};
use crate::config::{ingest_endpoint, opt_view, parsed_url, trim_trailing_slashes};
use crate::event::props_rejected;
use crate::sys::PlatformInfo;
use std::time::Duration;
use crate::dispatcher::{batch_size, is_retried, retained, Reply, MAX_BATCH_SIZE};
use crate::event::{event_session_id, JsonValue};
use crate::session::{
    is_generated_session_id, lemma_generated_ids_are_digits, session_expired, session_seeded,
    session_used, TrackingSession,
};
use crate::text::digits;

use crate::config::{app_key_text, base_url, dash_free, ingest_url_text, key_region, lemma_key_fields, Region};
use crate::dispatcher::should_retry;
use crate::session::{epoch_seconds, is_session_id_at, session_id_for, MAX_SESSION_RANDOM};
use crate::text::{decimal, lemma_decimal_injective};
use vstd::string::*;

verus! {

/// What is left queued after a flush that starts from `queue`, has kept `failed` for retry so far,
/// and gets `replies` for its batches in turn, when nothing is enqueued meanwhile: each batch is the
/// front of the queue (`next_batch`), its reply decides what is kept (`FlushRun::record`), and once
/// the queue is empty the kept events go back to it (`finish_flush`).
pub open spec fn flush_leftover(queue: Seq<JsonValue>, failed: Seq<JsonValue>, replies: Seq<Reply>) -> Seq<JsonValue>
    decreases queue.len(),
{
    if queue.len() == 0 || replies.len() == 0 {
        queue + failed
    } else {
        let k = batch_size(queue.len()) as int;
        flush_leftover(queue.skip(k), failed + retained(queue.take(k), replies[0]), replies.drop_first())
    }
}

/// The number of requests a flush of `n` queued events makes.
pub open spec fn request_count(n: nat) -> nat
    decreases n,
{
    if n == 0 {
        0
    } else {
        1 + request_count((n - batch_size(n)) as nat)
    }
}

/// One step of a flush, as `next_batch` and `FlushRun::record` describe it, moves the flush
/// towards the same final queue.
pub proof fn law_flush_step(
    queue: Seq<JsonValue>,
    failed: Seq<JsonValue>,
    batch: Seq<JsonValue>,
    rest: Seq<JsonValue>,
    reply: Reply,
    replies: Seq<Reply>,
)
    requires
        queue.len() > 0,
        batch == queue.take(batch_size(queue.len()) as int),
        rest == queue.skip(batch_size(queue.len()) as int),
    ensures
        flush_leftover(queue, failed, seq![reply] + replies) == flush_leftover(
            rest,
            failed + retained(batch, reply),
            replies,
        ),
{
    assert((seq![reply] + replies)[0] == reply);
    assert((seq![reply] + replies).drop_first() =~= replies);
}

/// When every batch of a flush fails in a way that is retried (a transport failure or a 5xx
/// status), no event is lost: the queue ends as it started, in the same order.
pub proof fn law_failed_flush_keeps_every_event(queue: Seq<JsonValue>, replies: Seq<Reply>)
    requires
        replies.len() >= request_count(queue.len()),
        forall|i: int| 0 <= i < replies.len() ==> is_retried(#[trigger] replies[i]),
    ensures
        flush_leftover(queue, Seq::empty(), replies) == queue,
{
    lemma_all_retried(queue, Seq::empty(), replies);
    assert(Seq::<JsonValue>::empty() + queue =~= queue);
}

proof fn lemma_all_retried(queue: Seq<JsonValue>, failed: Seq<JsonValue>, replies: Seq<Reply>)
    requires
        replies.len() >= request_count(queue.len()),
        forall|i: int| 0 <= i < replies.len() ==> is_retried(#[trigger] replies[i]),
    ensures
        flush_leftover(queue, failed, replies) == failed + queue,
    decreases queue.len(),
{
    if queue.len() == 0 {
        assert(queue + failed =~= failed + queue);
    } else {
        let k = batch_size(queue.len()) as int;
        assert(is_retried(replies[0]));
        let rest = replies.drop_first();
        assert forall|i: int| 0 <= i < rest.len() implies is_retried(#[trigger] rest[i]) by {
            assert(rest[i] == replies[i + 1]);
        }
        lemma_all_retried(queue.skip(k), failed + queue.take(k), rest);
        assert(failed + queue.take(k) + queue.skip(k) =~= failed + queue);
    }
}

/// When no batch of a flush is retried (every reply is a success or a non-5xx error status), the
/// queue ends empty.
pub proof fn law_answered_flush_empties_queue(queue: Seq<JsonValue>, replies: Seq<Reply>)
    requires
        replies.len() >= request_count(queue.len()),
        forall|i: int| 0 <= i < replies.len() ==> !is_retried(#[trigger] replies[i]),
    ensures
        flush_leftover(queue, Seq::empty(), replies) == Seq::<JsonValue>::empty(),
{
    lemma_none_retried(queue, Seq::empty(), replies);
}

proof fn lemma_none_retried(queue: Seq<JsonValue>, failed: Seq<JsonValue>, replies: Seq<Reply>)
    requires
        replies.len() >= request_count(queue.len()),
        forall|i: int| 0 <= i < replies.len() ==> !is_retried(#[trigger] replies[i]),
    ensures
        flush_leftover(queue, failed, replies) == failed,
    decreases queue.len(),
{
    if queue.len() == 0 {
        assert(queue + failed =~= failed);
    } else {
        let k = batch_size(queue.len()) as int;
        assert(!is_retried(replies[0]));
        let rest = replies.drop_first();
        assert forall|i: int| 0 <= i < rest.len() implies !is_retried(#[trigger] rest[i]) by {
            assert(rest[i] == replies[i + 1]);
        }
        assert(failed + retained(queue.take(k), replies[0]) =~= failed);
        lemma_none_retried(queue.skip(k), failed, rest);
    }
}

/// A flush of `n` events makes `ceil(n / 25)` requests, none of them with more than 25 events.
pub proof fn law_request_count(n: nat)
    ensures
        request_count(n) == (n + 24) / 25,
        n > 0 ==> 1 <= batch_size(n) <= MAX_BATCH_SIZE,
    decreases n,
{
    if n > 0 {
        law_request_count((n - batch_size(n)) as nat);
    }
}

/// Events tracked less than four hours apart share their session id, and each use refreshes the
/// session's activity time.
pub proof fn law_session_reused_within_timeout(
    s0: TrackingSession,
    t1: int,
    s1: TrackingSession,
    id1: Seq<char>,
    t2: int,
    s2: TrackingSession,
    id2: Seq<char>,
)
    requires
        session_used(s0, t1, s1, id1),
        session_used(s1, t2, s2, id2),
        !session_expired(t1, t2),
    ensures
        id2 == id1,
        s2.last_touch_ts == t2,
{
}

/// A session used more than four hours after its last activity gets a new id, made of digits
/// only; so it differs from any previous id that holds another character.
pub proof fn law_expired_session_rotates(
    s0: TrackingSession,
    now: int,
    s1: TrackingSession,
    id: Seq<char>,
    k: int,
)
    requires
        session_used(s0, now, s1, id),
        session_expired(s0.last_touch_ts as int, now),
        0 <= k < s0.id@.len(),
        !digits().contains(s0.id@[k]),
    ensures
        is_generated_session_id(id),
        id != s0.id@,
        s1.last_touch_ts == now,
{
    lemma_generated_ids_are_digits(id);
    if id == s0.id@ {
        assert(digits().contains(id[k]));
    }
}

/// A non-empty caller-supplied session id is the id reported at any use within four hours of the
/// session's last activity.
pub proof fn law_supplied_session_id_reported(
    s0: TrackingSession,
    supplied: Seq<char>,
    s1: TrackingSession,
    now: int,
    s2: TrackingSession,
    reported: Seq<char>,
)
    requires
        supplied.len() > 0,
        session_seeded(s0, Some(supplied), s1),
        session_used(s1, now, s2, reported),
        !session_expired(s1.last_touch_ts as int, now),
    ensures
        reported == supplied,
{
}

/// An empty caller-supplied session id is treated as absent: the session keeps its id.
pub proof fn law_empty_session_id_ignored(s0: TrackingSession, s1: TrackingSession)
    requires
        session_seeded(s0, Some(Seq::<char>::empty()), s1),
    ensures
        s1.id@ == s0.id@,
{
}

/// A disabled client never queues an event, so it never makes a request.
pub proof fn law_disabled_client_queues_nothing(
    before: AptabaseClient,
    name: Seq<char>,
    props: Option<JsonValue>,
    now: int,
    after: AptabaseClient,
    r: Result<(), String>,
)
    requires
        !before.is_enabled,
        event_tracked(before, name, props, now, after, r),
    ensures
        r is Ok,
        after.dispatcher@ == before.dispatcher@,
        !after.is_enabled,
{
}

/// Tracking never loses or reorders queued events: the queue before is a prefix of the queue
/// after, which is at most one event longer.
pub proof fn law_tracking_keeps_queue(
    before: AptabaseClient,
    name: Seq<char>,
    props: Option<JsonValue>,
    now: int,
    after: AptabaseClient,
    r: Result<(), String>,
)
    requires
        event_tracked(before, name, props, now, after, r),
    ensures
        before.dispatcher@.len() <= after.dispatcher@.len() <= before.dispatcher@.len() + 1,
        after.dispatcher@.take(before.dispatcher@.len() as int) == before.dispatcher@,
        r is Err ==> after == before,
{
    if after.dispatcher@.len() == before.dispatcher@.len() + 1 {
        assert(after.dispatcher@.take(before.dispatcher@.len() as int)
            =~= after.dispatcher@.drop_last());
    } else {
        assert(after.dispatcher@.take(before.dispatcher@.len() as int) =~= after.dispatcher@);
    }
}

/// The batches a flush of `queue` sends, in order, when nothing is enqueued meanwhile.
pub open spec fn flush_batches(queue: Seq<JsonValue>) -> Seq<Seq<JsonValue>>
    decreases queue.len(),
{
    if queue.len() == 0 {
        Seq::empty()
    } else {
        let k = batch_size(queue.len()) as int;
        seq![queue.take(k)] + flush_batches(queue.skip(k))
    }
}

/// The concatenation of `batches`.
pub open spec fn concat(batches: Seq<Seq<JsonValue>>) -> Seq<JsonValue>
    decreases batches.len(),
{
    if batches.len() == 0 {
        Seq::empty()
    } else {
        batches[0] + concat(batches.drop_first())
    }
}

/// What the batches keep for retry, given their replies in turn, concatenated in order.
pub open spec fn retained_batches(batches: Seq<Seq<JsonValue>>, replies: Seq<Reply>) -> Seq<JsonValue>
    decreases batches.len(),
{
    if batches.len() == 0 || replies.len() == 0 {
        Seq::empty()
    } else {
        retained(batches[0], replies[0]) + retained_batches(batches.drop_first(), replies.drop_first())
    }
}

/// A flush of `n` events sends `ceil(n / 25)` batches, each of 1 to 25 events; in order they are
/// exactly the queue, so every queued event is sent once.
pub proof fn law_flush_batches_partition_queue(queue: Seq<JsonValue>)
    ensures
        flush_batches(queue).len() == request_count(queue.len()),
        flush_batches(queue).len() == (queue.len() + 24) / 25,
        concat(flush_batches(queue)) == queue,
        forall|j: int|
            0 <= j < flush_batches(queue).len() ==> 1 <= #[trigger] flush_batches(queue)[j].len()
                <= MAX_BATCH_SIZE,
        forall|j: int|
            0 <= j < flush_batches(queue).len() ==> #[trigger] flush_batches(queue)[j]
                == queue.subrange(
                25 * j,
                if 25 * j + 25 < queue.len() {
                    25 * j + 25
                } else {
                    queue.len() as int
                },
            ),
    decreases queue.len(),
{
    law_request_count(queue.len());
    if queue.len() > 0 {
        let k = batch_size(queue.len()) as int;
        let rest = queue.skip(k);
        law_flush_batches_partition_queue(rest);
        let bs = flush_batches(queue);
        assert(bs.drop_first() =~= flush_batches(rest));
        assert(bs[0] == queue.take(k));
        assert(queue.take(k) + rest =~= queue);
        assert forall|j: int| 0 <= j < bs.len() implies 1 <= #[trigger] bs[j].len() <= MAX_BATCH_SIZE by {
            if j > 0 {
                assert(bs[j] == flush_batches(rest)[j - 1]);
            }
        }
        assert forall|j: int| 0 <= j < bs.len() implies #[trigger] bs[j] == queue.subrange(
            25 * j,
            if 25 * j + 25 < queue.len() {
                25 * j + 25
            } else {
                queue.len() as int
            },
        ) by {
            if j == 0 {
                assert(queue.take(k) =~= queue.subrange(0, k));
            } else {
                assert(bs[j] == flush_batches(rest)[j - 1]);
                assert(k == 25);
                assert(rest.subrange(
                    25 * (j - 1),
                    if 25 * (j - 1) + 25 < rest.len() {
                        25 * (j - 1) + 25
                    } else {
                        rest.len() as int
                    },
                ) =~= queue.subrange(
                    25 * j,
                    if 25 * j + 25 < queue.len() {
                        25 * j + 25
                    } else {
                        queue.len() as int
                    },
                ));
            }
        }
    }
}

/// A whole flush, with `replies` answering its batches in turn and nothing enqueued meanwhile,
/// leaves queued exactly the batches whose reply is a transport failure or a 5xx status, in order;
/// batches answered with a success or any other status are gone.
pub proof fn law_flush_leftover_is_retried_batches(queue: Seq<JsonValue>, replies: Seq<Reply>)
    requires
        replies.len() >= request_count(queue.len()),
    ensures
        flush_leftover(queue, Seq::empty(), replies) == retained_batches(
            flush_batches(queue),
            replies,
        ),
{
    lemma_leftover(queue, Seq::empty(), replies);
    assert(Seq::<JsonValue>::empty() + retained_batches(flush_batches(queue), replies) =~= retained_batches(
        flush_batches(queue),
        replies,
    ));
}

proof fn lemma_leftover(queue: Seq<JsonValue>, failed: Seq<JsonValue>, replies: Seq<Reply>)
    requires
        replies.len() >= request_count(queue.len()),
    ensures
        flush_leftover(queue, failed, replies) == failed + retained_batches(
            flush_batches(queue),
            replies,
        ),
    decreases queue.len(),
{
    if queue.len() == 0 {
        assert(queue + failed =~= failed + Seq::<JsonValue>::empty());
    } else {
        let k = batch_size(queue.len()) as int;
        let bs = flush_batches(queue);
        assert(bs.drop_first() =~= flush_batches(queue.skip(k)));
        lemma_leftover(
            queue.skip(k),
            failed + retained(queue.take(k), replies[0]),
            replies.drop_first(),
        );
        assert(failed + retained(queue.take(k), replies[0]) + retained_batches(
            flush_batches(queue.skip(k)),
            replies.drop_first(),
        ) =~= failed + retained_batches(bs, replies));
    }
}

/// Once `next_batch` finds the queue empty, `finish_flush` leaves exactly what the flush kept: the
/// end of the flush that `law_flush_step` leads to.
pub proof fn law_flush_finish(failed: Seq<JsonValue>, replies: Seq<Reply>)
    ensures
        flush_leftover(Seq::empty(), failed, replies) == Seq::<JsonValue>::empty() + failed,
{
}

/// Each batch that `next_batch` takes shrinks the queue and uses up one of the flush's requests: a
/// flush during which nothing is enqueued ends after exactly `request_count(n)` batches, whatever
/// the replies, since kept batches return to the queue only at `finish_flush`.
pub proof fn law_next_batch_uses_one_request(queue: Seq<JsonValue>)
    requires
        queue.len() > 0,
    ensures
        queue.skip(batch_size(queue.len()) as int).len() < queue.len(),
        request_count(queue.skip(batch_size(queue.len()) as int).len()) + 1 == request_count(
            queue.len(),
        ),
{
}

/// Trailing `/` characters of a self-hosted host make no difference to the endpoint.
pub proof fn law_host_trailing_slash_ignored(key: Seq<char>, host: Seq<char>)
    ensures
        ingest_endpoint(key, Some(host.push('/'))) == ingest_endpoint(key, Some(host)),
{
    assert(host.push('/').drop_last() =~= host);
    assert(trim_trailing_slashes(host.push('/')) == trim_trailing_slashes(host));
}

/// A client built at `t0` with a non-empty caller-supplied session id reports that id on the first
/// use within four hours: the session id it returns is the supplied one.
pub proof fn law_built_session_id_evaluated(
    c: AptabaseClient,
    b: Builder,
    platform: PlatformInfo,
    default_flush_interval: Duration,
    t0: int,
    id: Seq<char>,
    now: int,
    after: TrackingSession,
    reported: Seq<char>,
)
    requires
        built(c, b, platform, default_flush_interval, t0),
        supplied_id(opt_view(b.session_id)) == Some(id),
        session_used(c.session, now, after, reported),
        !session_expired(t0, now),
    ensures
        reported == id,
{
}

/// A client built at `t0` with a non-empty caller-supplied session id, tracking an event within
/// four hours, queues the event with the supplied id as its session id.
pub proof fn law_built_session_id_reported(
    c: AptabaseClient,
    b: Builder,
    platform: PlatformInfo,
    default_flush_interval: Duration,
    t0: int,
    id: Seq<char>,
    name: Seq<char>,
    props: Option<JsonValue>,
    now: int,
    after: AptabaseClient,
    r: Result<(), String>,
)
    requires
        built(c, b, platform, default_flush_interval, t0),
        supplied_id(opt_view(b.session_id)) == Some(id),
        c.is_enabled,
        !props_rejected(props),
        rfc3339_text(now) is Some,
        event_tracked(c, name, props, now, after, r),
        !session_expired(t0, now),
    ensures
        r is Ok,
        after.dispatcher@.len() == c.dispatcher@.len() + 1,
        event_session_id(after.dispatcher@.last()) == id,
{
}

/// A session used more than four hours after its last activity reports an id generated at the time
/// of use: the seconds of `now` times 10^8 plus a random part of at most 99,999,999, in decimal. What
/// the old session's id was plays no part.
pub proof fn law_expired_session_id_is_drawn_at_use(
    s0: TrackingSession,
    now: int,
    s1: TrackingSession,
    id: Seq<char>,
)
    requires
        session_used(s0, now, s1, id),
        now - s0.last_touch_ts > 14_400_000_000_000,
    ensures
        exists|random: nat|
            random <= 99_999_999 && id == #[trigger] decimal(
                epoch_seconds(now) * 100_000_000 + random,
            ),
        s1.last_touch_ts == now,
{
    assert(is_session_id_at(id, now));
    let random = choose|random: nat|
        random <= MAX_SESSION_RANDOM && id == #[trigger] session_id_for(epoch_seconds(now), random);
    assert(id == decimal(epoch_seconds(now) * 100_000_000 + random));
}

/// A session used more than four hours after its last activity gets a different id from the one it
/// had, whatever that id was, unless the old id happened to be drawn in the same second as the use:
/// an id of another second, or one that is no decimal numeral, never survives expiry.
pub proof fn law_expired_session_id_changes(
    s0: TrackingSession,
    now: int,
    s1: TrackingSession,
    id: Seq<char>,
)
    requires
        session_used(s0, now, s1, id),
        now - s0.last_touch_ts > 14_400_000_000_000,
        forall|n: nat| #[trigger] decimal(n) == s0.id@ ==> n / 100_000_000 != epoch_seconds(now),
    ensures
        id != s0.id@,
{
    law_expired_session_id_is_drawn_at_use(s0, now, s1, id);
    let random = choose|random: nat|
        random <= 99_999_999 && id == #[trigger] decimal(epoch_seconds(now) * 100_000_000 + random);
    let n = epoch_seconds(now) * 100_000_000 + random;
    assert(n / 100_000_000 == epoch_seconds(now)) by (nonlinear_arith)
        requires
            n == epoch_seconds(now) * 100_000_000 + random,
            random <= 99_999_999,
    ;
    if id == s0.id@ {
        assert(decimal(n) == s0.id@);
    }
}

/// Two sessions that expire at the same moment are replaced alike, whatever their old ids: both get
/// ids generated at that moment, so the new id does not depend on the old one.
pub proof fn law_rotation_ignores_old_id(
    a0: TrackingSession,
    a1: TrackingSession,
    ida: Seq<char>,
    b0: TrackingSession,
    b1: TrackingSession,
    idb: Seq<char>,
    now: int,
)
    requires
        session_used(a0, now, a1, ida),
        session_used(b0, now, b1, idb),
        now - a0.last_touch_ts > 14_400_000_000_000,
        now - b0.last_touch_ts > 14_400_000_000_000,
    ensures
        decimal_prefix_seconds(ida) == Some(epoch_seconds(now)),
        decimal_prefix_seconds(idb) == Some(epoch_seconds(now)),
{
    law_expired_session_id_is_drawn_at_use(a0, now, a1, ida);
    law_expired_session_id_is_drawn_at_use(b0, now, b1, idb);
    lemma_seconds_of_drawn_id(ida, now);
    lemma_seconds_of_drawn_id(idb, now);
}

/// The seconds that a decimal session id encodes: its number divided by 10^8.
pub open spec fn decimal_prefix_seconds(id: Seq<char>) -> Option<nat> {
    if exists|n: nat| #[trigger] decimal(n) == id {
        Some((choose|n: nat| #[trigger] decimal(n) == id) / 100_000_000)
    } else {
        None
    }
}

proof fn lemma_seconds_of_drawn_id(id: Seq<char>, now: int)
    requires
        exists|random: nat|
            random <= 99_999_999 && id == #[trigger] decimal(
                epoch_seconds(now) * 100_000_000 + random,
            ),
    ensures
        decimal_prefix_seconds(id) == Some(epoch_seconds(now)),
{
    let random = choose|random: nat|
        random <= 99_999_999 && id == #[trigger] decimal(epoch_seconds(now) * 100_000_000 + random);
    let n = epoch_seconds(now) * 100_000_000 + random;
    assert(decimal(n) == id);
    let m = choose|m: nat| #[trigger] decimal(m) == id;
    lemma_decimal_injective(m, n);
    assert(n / 100_000_000 == epoch_seconds(now)) by (nonlinear_arith)
        requires
            n == epoch_seconds(now) * 100_000_000 + random,
            random <= 99_999_999,
    ;
}

/// A reply keeps its batch for retry exactly when it is a transport failure or a status from 500 to
/// 599; every other status drops the batch.
pub proof fn law_retry_policy(reply: Reply, batch: Seq<JsonValue>)
    ensures
        is_retried(reply) <==> match reply {
            Reply::TransportFailure => true,
            Reply::Status(code) => 500 <= code && code <= 599,
        },
        retained(batch, reply) == match reply {
            Reply::TransportFailure => batch,
            Reply::Status(code) => if 500 <= code && code <= 599 {
                batch
            } else {
                Seq::<JsonValue>::empty()
            },
        },
{
}

/// `should_retry` answers yes for every 5xx status and for a transport failure, and no for any
/// other status.
pub proof fn law_should_retry_matches_status_classes(code: u16)
    ensures
        (500 <= code && code <= 599) <==> is_retried(Reply::Status(code)),
        is_retried(Reply::TransportFailure),
{
}

/// Properties are refused exactly when present and not a JSON object, whatever the object holds.
pub proof fn law_props_rejection(props: Option<JsonValue>)
    ensures
        props_rejected(props) <==> (props is Some && !(props->0 is Object)),
{
}

/// An enabled client accepts any JSON object as properties, of any size: tracking succeeds and
/// queues exactly one event carrying them, when the clock reading has a timestamp.
pub proof fn law_object_props_are_tracked(
    before: AptabaseClient,
    name: Seq<char>,
    members: Vec<(String, JsonValue)>,
    now: int,
    after: AptabaseClient,
    r: Result<(), String>,
)
    requires
        before.is_enabled,
        rfc3339_text(now) is Some,
        event_tracked(before, name, Some(JsonValue::Object(members)), now, after, r),
    ensures
        r is Ok,
        after.dispatcher@.len() == before.dispatcher@.len() + 1,
{
}

/// Whether a supplied session id is used depends only on it being non-empty, never on its
/// characters.
pub proof fn law_supplied_id_nonempty(id: Seq<char>)
    ensures
        id.len() > 0 ==> supplied_id(Some(id)) == Some(id),
        id.len() == 0 ==> supplied_id(Some(id)) is None,
        supplied_id(None) is None,
{
}

/// A client built with any non-empty session id has exactly that id; built with an empty or no id,
/// it has a generated one.
pub proof fn law_built_client_has_supplied_id(
    c: AptabaseClient,
    b: Builder,
    platform: PlatformInfo,
    default_flush_interval: Duration,
    now: int,
)
    requires
        built(c, b, platform, default_flush_interval, now),
    ensures
        b.session_id is Some && b.session_id->0@.len() > 0 ==> c.session.id@ == b.session_id->0@,
        !(b.session_id is Some && b.session_id->0@.len() > 0) ==> is_generated_session_id(
            c.session.id@,
        ),
        c.session.last_touch_ts == now,
{
}

/// Every key `A-<region>-<id>` with a non-empty id free of `-` is valid, whatever the id's length,
/// and names its region's endpoint: US and EU name their hosted services, DEV the local one, and SH
/// the configured host without trailing slashes.
pub proof fn law_region_keys_are_valid(id: Seq<char>, host: Option<Seq<char>>)
    requires
        id.len() > 0,
        dash_free(id),
    ensures
        key_region(app_key_text(seq!['U', 'S'], id)) == Some(Region::Us),
        key_region(app_key_text(seq!['E', 'U'], id)) == Some(Region::Eu),
        key_region(app_key_text(seq!['D', 'E', 'V'], id)) == Some(Region::Dev),
        key_region(app_key_text(seq!['S', 'H'], id)) == Some(Region::SelfHosted),
        ingest_endpoint(app_key_text(seq!['U', 'S'], id), host) == parsed_url(
            "https://us.aptabase.com/api/v0/events"@,
        ),
        ingest_endpoint(app_key_text(seq!['E', 'U'], id), host) == parsed_url(
            "https://eu.aptabase.com/api/v0/events"@,
        ),
        ingest_endpoint(app_key_text(seq!['D', 'E', 'V'], id), host) == parsed_url(
            "http://localhost:3000/api/v0/events"@,
        ),
        ingest_endpoint(app_key_text(seq!['S', 'H'], id), host) == match host {
            Some(h) => parsed_url(trim_trailing_slashes(h) + "/api/v0/events"@),
            None => None,
        },
{
    let us = seq!['U', 'S'];
    let eu = seq!['E', 'U'];
    let dev = seq!['D', 'E', 'V'];
    let sh = seq!['S', 'H'];
    assert(dash_free(us));
    assert(dash_free(eu));
    assert(dash_free(dev));
    assert(dash_free(sh));
    lemma_key_fields(us, id);
    lemma_key_fields(eu, id);
    lemma_key_fields(dev, id);
    lemma_key_fields(sh, id);
    reveal_strlit("https://us.aptabase.com");
    reveal_strlit("https://eu.aptabase.com");
    reveal_strlit("http://localhost:3000");
    reveal_strlit("/api/v0/events");
    reveal_strlit("https://us.aptabase.com/api/v0/events");
    reveal_strlit("https://eu.aptabase.com/api/v0/events");
    reveal_strlit("http://localhost:3000/api/v0/events");
    assert(ingest_url_text("https://us.aptabase.com"@) =~= "https://us.aptabase.com/api/v0/events"@);
    assert(ingest_url_text("https://eu.aptabase.com"@) =~= "https://eu.aptabase.com/api/v0/events"@);
    assert(ingest_url_text("http://localhost:3000"@) =~= "http://localhost:3000/api/v0/events"@);
}

} // verus!
