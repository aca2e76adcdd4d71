//! The deduplicating event writer: decides, for one poll outcome, whether a
//! new event is inserted and how the connection's poll state advances. The
//! decisions are pure; the surrounding binary performs the row operations.

use vstd::prelude::*;

verus! {

use crate::model::{Connection, FetchResult, EventRecord, EventSummary, PollStateUpdate, PollPlan,
    PollStatus};
use crate::json::JsonValue;
use crate::jsontext::{spec_json_text, json_to_string};
use crate::hashing::{sha256_of, spec_hex_lower, spec_u128_be_bytes, u128_be_bytes, sha256_digest,
    hex_encode};
use crate::schedule::{spec_next_error_backoff, spec_next_same_song_backoff, spec_schedule_after,
    next_error_backoff_seconds, next_same_song_backoff_seconds, schedule_after_seconds};
use crate::hashing::spec_jitter;
use crate::strutil::{spec_trim, str_chars, trim_chars};

/// The content-addressed hash of a payload for one connection: SHA-256 over
/// the station and connection identifier bytes followed by the serialized
/// payload, rendered as lower-case hex.
pub open spec fn spec_payload_hash(station_id: u128, connection_id: u128, payload: JsonValue) -> Seq<
    char,
> {
    spec_hex_lower(
        sha256_of(
            spec_u128_be_bytes(station_id) + spec_u128_be_bytes(connection_id),
            spec_json_text(payload),
        ),
    )
}

/// Hashes a serialized payload for one connection.
pub fn calculate_hash(station_id: u128, connection_id: u128, payload_text: &str) -> (r: String)
    ensures
        r@ == spec_hex_lower(
            sha256_of(
                spec_u128_be_bytes(station_id) + spec_u128_be_bytes(connection_id),
                payload_text@,
            ),
        ),
{
    let mut head = u128_be_bytes(station_id);
    let mut tail = u128_be_bytes(connection_id);
    head.append(&mut tail);
    proof {
        assert(head@ =~= spec_u128_be_bytes(station_id) + spec_u128_be_bytes(connection_id));
    }
    let digest = sha256_digest(&head, payload_text);
    hex_encode(&digest)
}

/// Whether an artist name is usable: present and not whitespace-only.
pub open spec fn spec_artist_present(artist: Option<Seq<char>>) -> bool {
    match artist {
        Some(s) => spec_trim(s).len() > 0,
        None => false,
    }
}

/// Tests the artist gate on a fetched artist name.
pub fn artist_present(artist: &Option<String>) -> (r: bool)
    ensures
        r == spec_artist_present(artist.deep_view()),
{
    match artist {
        Some(s) => {
            let cs = str_chars(s.as_str());
            let t = trim_chars(&cs);
            t.len() > 0
        }
        None => false,
    }
}

/// Whether the new payload hashes to the same value as the last stored
/// event.
pub open spec fn spec_is_payload_dup(last: Option<EventSummary>, hash: Seq<char>) -> bool {
    match last {
        Some(e) => e.payload_hash@ == hash,
        None => false,
    }
}

/// Whether the new observation repeats the last stored event's artist and
/// title (absent fields compare equal to absent fields).
pub open spec fn spec_is_content_dup(
    last: Option<EventSummary>,
    artist: Option<Seq<char>>,
    title: Option<Seq<char>>,
) -> bool {
    match last {
        Some(e) => e.reported_artist.deep_view() == artist && e.reported_title.deep_view()
            == title,
        None => false,
    }
}

/// Whether one observation is a duplicate of the last stored event, by
/// payload hash or by content.
pub open spec fn spec_is_duplicate(
    conn: Connection,
    fetch: FetchResult,
    last: Option<EventSummary>,
) -> bool {
    spec_is_payload_dup(last, spec_payload_hash(conn.station_id, conn.id, fetch.raw_payload))
        || spec_is_content_dup(
        last,
        fetch.reported_artist.deep_view(),
        fetch.reported_title.deep_view(),
    )
}

/// Whether one poll outcome inserts a new event: the artist gate passes and
/// the observation is no duplicate.
pub open spec fn spec_plan_inserts(
    conn: Connection,
    fetch: FetchResult,
    last: Option<EventSummary>,
) -> bool {
    spec_artist_present(fetch.reported_artist.deep_view()) && !spec_is_duplicate(conn, fetch, last)
}

/// The next-poll instant and same-song backoff after a successful write:
/// escalated backoff on a duplicate; a duration-derived delay when duration
/// polling applies; else the steady interval.
pub open spec fn spec_success_schedule(
    conn: Connection,
    fetch: FetchResult,
    dup: bool,
    now: i64,
) -> (i64, int) {
    if dup {
        let b = spec_next_same_song_backoff(conn.same_song_backoff_seconds as int, conn.id, now);
        (spec_schedule_after(conn.id, now, b, 5), b)
    } else if conn.use_duration_polling && fetch.reported_at is Some
        && fetch.reported_duration_seconds is Some {
        let ends_at = fetch.reported_at->0 + fetch.reported_duration_seconds->0;
        let remaining = ends_at - now;
        let base = if remaining > 0 {
            if remaining + 2 > 5 {
                remaining + 2
            } else {
                5
            }
        } else {
            10 + spec_jitter(conn.id, now, 20)
        };
        (spec_schedule_after(conn.id, now, base, 5), 0)
    } else {
        (spec_schedule_after(conn.id, now, conn.poll_interval_seconds as int, 5), 0)
    }
}

/// The poll state after a failed fetch or a rejected observation: the error
/// backoff advances and schedules the retry.
pub open spec fn spec_failure_update(conn: Connection, now: i64) -> (i64, int) {
    let b = spec_next_error_backoff(conn.error_backoff_seconds as int);
    (spec_schedule_after(conn.id, now, b, 5), b)
}

/// Plans the reaction to a failed fetch: no event, `FETCH_ERROR` with the
/// error text, the error backoff advanced, the same-song backoff reset.
pub fn plan_fetch_failure(conn: &Connection, error_text: String, now: i64) -> (u: PollStateUpdate)
    requires
        conn.wf(),
    ensures
        u.wf(),
        u.last_polled_at == now,
        u.last_status == PollStatus::FetchError,
        u.last_error == Some(error_text),
        u.error_backoff_seconds == spec_next_error_backoff(conn.error_backoff_seconds as int),
        u.same_song_backoff_seconds == 0,
        u.next_poll_at == spec_failure_update(*conn, now).0,
        now < i64::MAX ==> u.next_poll_at > now,
{
    let backoff = next_error_backoff_seconds(conn.error_backoff_seconds);
    let next_poll_at = schedule_after_seconds(conn.id, now, backoff as i64, 5);
    PollStateUpdate {
        last_polled_at: now,
        last_status: PollStatus::FetchError,
        last_error: Some(error_text),
        next_poll_at,
        error_backoff_seconds: backoff,
        same_song_backoff_seconds: 0,
    }
}

/// Plans the reaction to one completed fetch: the artist gate first, then
/// deduplication against the last stored event, then the adaptive schedule.
pub fn plan_fetch_result(
    conn: &Connection,
    fetch: FetchResult,
    last_event: Option<&EventSummary>,
    now: i64,
    new_event_id: u128,
) -> (p: PollPlan)
    requires
        conn.wf(),
    ensures
        p.update.wf(),
        p.update.last_polled_at == now,
        now < i64::MAX ==> p.update.next_poll_at > now,
        ({
            let last = match last_event {
                Some(e) => Some(*e),
                None => None::<EventSummary>,
            };
            let artist_ok = spec_artist_present(fetch.reported_artist.deep_view());
            let dup = spec_is_duplicate(*conn, fetch, last);
            &&& (p.event is Some) <==> spec_plan_inserts(*conn, fetch, last)
            &&& !artist_ok ==> {
                &&& p.update.last_status == PollStatus::InvalidEvent
                &&& p.update.last_error.deep_view() == Some("Missing artist"@)
                &&& p.update.error_backoff_seconds == spec_next_error_backoff(
                    conn.error_backoff_seconds as int,
                )
                &&& p.update.same_song_backoff_seconds == 0
                &&& p.update.next_poll_at == spec_failure_update(*conn, now).0
            }
            &&& artist_ok ==> {
                &&& p.update.last_status == PollStatus::Okay
                &&& p.update.last_error is None
                &&& p.update.error_backoff_seconds == 0
                &&& p.update.next_poll_at == spec_success_schedule(*conn, fetch, dup, now).0
                &&& p.update.same_song_backoff_seconds == spec_success_schedule(
                    *conn,
                    fetch,
                    dup,
                    now,
                ).1
            }
            &&& p.event matches Some(e) ==> {
                &&& e.id == new_event_id
                &&& e.station_id == conn.station_id
                &&& e.connection_id == conn.id
                &&& e.observed_at == now
                &&& e.reported_at == fetch.reported_at
                &&& e.reported_artist == fetch.reported_artist
                &&& e.reported_title == fetch.reported_title
                &&& e.reported_album == fetch.reported_album
                &&& e.raw_payload == fetch.raw_payload
                &&& e.payload_hash@ == spec_payload_hash(
                    conn.station_id,
                    conn.id,
                    fetch.raw_payload,
                )
                &&& e.http_status == Some(fetch.status)
                &&& e.content_type == fetch.content_type
                &&& e.created_at == now
            }
        }),
{
    if !artist_present(&fetch.reported_artist) {
        let backoff = next_error_backoff_seconds(conn.error_backoff_seconds);
        let next_poll_at = schedule_after_seconds(conn.id, now, backoff as i64, 5);
        return PollPlan {
            event: None,
            update: PollStateUpdate {
                last_polled_at: now,
                last_status: PollStatus::InvalidEvent,
                last_error: Some(String::from_str("Missing artist")),
                next_poll_at,
                error_backoff_seconds: backoff,
                same_song_backoff_seconds: 0,
            },
        };
    }
    let payload_text = json_to_string(&fetch.raw_payload);
    let payload_hash = calculate_hash(conn.station_id, conn.id, payload_text.as_str());
    let is_payload_dup = match last_event {
        Some(e) => crate::strutil::str_eq(e.payload_hash.as_str(), payload_hash.as_str()),
        None => false,
    };
    let is_content_dup = match last_event {
        Some(e) => opt_string_eq(&e.reported_artist, &fetch.reported_artist) && opt_string_eq(
            &e.reported_title,
            &fetch.reported_title,
        ),
        None => false,
    };
    let is_dup = is_payload_dup || is_content_dup;
    let (next_poll_at, same_song): (i64, i32) = if is_dup {
        let b = next_same_song_backoff_seconds(conn.same_song_backoff_seconds, conn.id, now);
        (schedule_after_seconds(conn.id, now, b as i64, 5), b)
    } else if conn.use_duration_polling && fetch.reported_at.is_some()
        && fetch.reported_duration_seconds.is_some() {
        let start: i64 = match fetch.reported_at {
            Some(t) => t,
            None => 0,
        };
        let dur: i64 = match fetch.reported_duration_seconds {
            Some(d) => d,
            None => 0,
        };
        let remaining: i128 = (start as i128) + (dur as i128) - (now as i128);
        if remaining > 0 {
            let base: i128 = if remaining + 2 > 5 {
                remaining + 2
            } else {
                5
            };
            (schedule_after_wide(conn.id, now, base), 0)
        } else {
            let j = crate::hashing::jitter_seconds(conn.id, now, 20);
            (schedule_after_seconds(conn.id, now, 10 + j, 5), 0)
        }
    } else {
        (schedule_after_seconds(conn.id, now, conn.poll_interval_seconds as i64, 5), 0)
    };
    let event = if !is_dup {
        Some(
            EventRecord {
                id: new_event_id,
                station_id: conn.station_id,
                connection_id: conn.id,
                observed_at: now,
                reported_at: fetch.reported_at,
                reported_artist: fetch.reported_artist,
                reported_title: fetch.reported_title,
                reported_album: fetch.reported_album,
                raw_payload: fetch.raw_payload,
                payload_hash,
                http_status: Some(fetch.status),
                content_type: fetch.content_type,
                created_at: now,
            },
        )
    } else {
        None
    };
    PollPlan {
        event,
        update: PollStateUpdate {
            last_polled_at: now,
            last_status: PollStatus::Okay,
            last_error: None,
            next_poll_at,
            error_backoff_seconds: 0,
            same_song_backoff_seconds: same_song,
        },
    }
}

/// The next-poll computation for a base delay that may exceed `i64`.
fn schedule_after_wide(conn_id: u128, now: i64, base: i128) -> (r: i64)
    requires
        -0x7fff_ffff_ffff_ffff <= base <= 0x7fff_ffff_ffff_ffff_ffff,
    ensures
        r == spec_schedule_after(conn_id, now, base as int, 5),
        now < i64::MAX ==> r > now,
{
    let j = crate::hashing::jitter_seconds(conn_id, now, 5);
    let d: i128 = base + (j as i128);
    let d1: i128 = if d < 1 {
        1
    } else {
        d
    };
    let nx: i128 = (now as i128) + d1;
    if nx > (i64::MAX as i128) {
        i64::MAX
    } else if nx < (i64::MIN as i128) {
        i64::MIN
    } else {
        nx as i64
    }
}

/// Equality of optional strings by their characters.
fn opt_string_eq(a: &Option<String>, b: &Option<String>) -> (r: bool)
    ensures
        r == (a.deep_view() == b.deep_view()),
{
    match (a, b) {
        (Some(x), Some(y)) => {
            let eq = crate::strutil::str_eq(x.as_str(), y.as_str());
            proof {
                if x@ == y@ {
                    assert(a.deep_view() =~= b.deep_view());
                }
            }
            eq
        }
        (None, None) => true,
        _ => false,
    }
}

/// One payload written twice in a row yields one event: a second write whose
/// raw payload bytes equal those of the event just stored is a payload
/// duplicate, so nothing is inserted.
pub proof fn lemma_payload_dedup(
    conn: Connection,
    fetch: FetchResult,
    e: EventRecord,
    now: i64,
)
    requires
        e.payload_hash@ == spec_payload_hash(conn.station_id, conn.id, e.raw_payload),
        fetch.raw_payload == e.raw_payload,
    ensures
        !spec_plan_inserts(conn, fetch, Some(crate::model::spec_summary(e))),
{
}

/// A repeated artist and title yields no new event even when the raw
/// payload differs: such a write is a content duplicate.
pub proof fn lemma_content_dedup(
    conn: Connection,
    fetch: FetchResult,
    e: EventRecord,
)
    requires
        e.reported_artist.deep_view() == fetch.reported_artist.deep_view(),
        e.reported_title.deep_view() == fetch.reported_title.deep_view(),
    ensures
        !spec_plan_inserts(conn, fetch, Some(crate::model::spec_summary(e))),
{
}

} // verus!
