//! The engine's data model: connections, fetch results, observed events and
//! the poll-state updates the writer produces. Identifiers are 128-bit
//! values (the UUIDs of the store), timestamps are epoch second counts.

use vstd::prelude::*;

verus! {

use crate::json::JsonValue;

/// The symbolic status tags the engine writes on a connection.
#[derive(Clone, Copy, Debug, PartialEq, Eq, Structural)]
pub enum PollStatus {
    Okay,
    FetchError,
    InvalidEvent,
    Disabled,
    WsConnectError,
    WsConnected,
    WsClosed,
    WsError,
    WsDisconnected,
}

impl PollStatus {
    /// The short tag stored for this status.
    pub open spec fn spec_code(self) -> Seq<char> {
        match self {
            PollStatus::Okay => "OK"@,
            PollStatus::FetchError => "FETCH_ERROR"@,
            PollStatus::InvalidEvent => "INVALID_EVENT"@,
            PollStatus::Disabled => "DISABLED"@,
            PollStatus::WsConnectError => "WS_CONNECT_ERROR"@,
            PollStatus::WsConnected => "WS_CONNECTED"@,
            PollStatus::WsClosed => "WS_CLOSED"@,
            PollStatus::WsError => "WS_ERROR"@,
            PollStatus::WsDisconnected => "WS_DISCONNECTED"@,
        }
    }

    /// Renders the stored tag.
    pub fn code(&self) -> (r: String)
        ensures
            r@ == self.spec_code(),
    {
        match self {
            PollStatus::Okay => String::from_str("OK"),
            PollStatus::FetchError => String::from_str("FETCH_ERROR"),
            PollStatus::InvalidEvent => String::from_str("INVALID_EVENT"),
            PollStatus::Disabled => String::from_str("DISABLED"),
            PollStatus::WsConnectError => String::from_str("WS_CONNECT_ERROR"),
            PollStatus::WsConnected => String::from_str("WS_CONNECTED"),
            PollStatus::WsClosed => String::from_str("WS_CLOSED"),
            PollStatus::WsError => String::from_str("WS_ERROR"),
            PollStatus::WsDisconnected => String::from_str("WS_DISCONNECTED"),
        }
    }
}

/// One observable source attached to a station.
pub struct Connection {
    pub id: u128,
    pub station_id: u128,
    pub payload_mapping_id: Option<u128>,
    pub name: String,
    pub connection_type: String,
    pub url: String,
    pub poll_interval_seconds: i32,
    pub headers_json: Option<JsonValue>,
    pub enabled: bool,
    pub use_duration_polling: bool,
    pub last_polled_at: Option<i64>,
    pub next_poll_at: Option<i64>,
    pub same_song_backoff_seconds: i32,
    pub error_backoff_seconds: i32,
    pub last_status: Option<PollStatus>,
    pub last_error: Option<String>,
}

impl Connection {
    /// The stored invariants of a connection: a positive poll interval and
    /// non-negative backoff counters.
    pub open spec fn wf(self) -> bool {
        &&& self.poll_interval_seconds >= 1
        &&& self.same_song_backoff_seconds >= 0
        &&& self.error_backoff_seconds >= 0
    }
}

/// What one fetch yielded: the HTTP response's status and content type, the
/// decoded payload, and the extracted fields.
pub struct FetchResult {
    pub status: i32,
    pub content_type: Option<String>,
    pub raw_payload: JsonValue,
    pub reported_artist: Option<String>,
    pub reported_title: Option<String>,
    pub reported_album: Option<String>,
    pub reported_at: Option<i64>,
    pub reported_duration_seconds: Option<i64>,
}

/// One append-only observation record.
pub struct EventRecord {
    pub id: u128,
    pub station_id: u128,
    pub connection_id: u128,
    pub observed_at: i64,
    pub reported_at: Option<i64>,
    pub reported_artist: Option<String>,
    pub reported_title: Option<String>,
    pub reported_album: Option<String>,
    pub raw_payload: JsonValue,
    pub payload_hash: String,
    pub http_status: Option<i32>,
    pub content_type: Option<String>,
    pub created_at: i64,
}

/// What deduplication reads of the most recent stored event.
pub struct EventSummary {
    pub payload_hash: String,
    pub reported_artist: Option<String>,
    pub reported_title: Option<String>,
}

/// The summary the next write compares against, taken from a stored event.
pub open spec fn spec_summary(e: EventRecord) -> EventSummary {
    EventSummary {
        payload_hash: e.payload_hash,
        reported_artist: e.reported_artist,
        reported_title: e.reported_title,
    }
}

/// Reduces a stored event to what deduplication reads of it.
pub fn summarize_event(e: &EventRecord) -> (s: EventSummary)
    ensures
        s == spec_summary(*e),
{
    EventSummary {
        payload_hash: e.payload_hash.clone(),
        reported_artist: clone_opt_string(&e.reported_artist),
        reported_title: clone_opt_string(&e.reported_title),
    }
}

/// Clones an optional string.
pub fn clone_opt_string(s: &Option<String>) -> (r: Option<String>)
    ensures
        r == *s,
{
    match s {
        Some(v) => Some(v.clone()),
        None => None,
    }
}

/// The connection fields one poll outcome rewrites.
pub struct PollStateUpdate {
    pub last_polled_at: i64,
    pub last_status: PollStatus,
    pub last_error: Option<String>,
    pub next_poll_at: i64,
    pub error_backoff_seconds: i32,
    pub same_song_backoff_seconds: i32,
}

impl PollStateUpdate {
    /// Bounds the writer keeps: both backoff counters stay within
    /// `[0, 120]` seconds.
    pub open spec fn wf(self) -> bool {
        &&& 0 <= self.error_backoff_seconds <= 120
        &&& 0 <= self.same_song_backoff_seconds <= 120
    }
}

/// What the writer decides for one poll outcome: at most one event to
/// insert, and the connection's new poll state.
pub struct PollPlan {
    pub event: Option<EventRecord>,
    pub update: PollStateUpdate,
}

/// Applies a poll-state update to a connection, as the store's row update
/// does: the engine-owned fields are rewritten, everything else stays.
pub fn apply_poll_update(conn: &mut Connection, u: &PollStateUpdate)
    requires
        old(conn).wf(),
        u.wf(),
    ensures
        final(conn).wf(),
        final(conn).last_polled_at == Some(u.last_polled_at),
        final(conn).last_status == Some(u.last_status),
        final(conn).last_error == u.last_error,
        final(conn).next_poll_at == Some(u.next_poll_at),
        final(conn).error_backoff_seconds == u.error_backoff_seconds,
        final(conn).same_song_backoff_seconds == u.same_song_backoff_seconds,
        final(conn).id == old(conn).id,
        final(conn).station_id == old(conn).station_id,
        final(conn).payload_mapping_id == old(conn).payload_mapping_id,
        final(conn).name == old(conn).name,
        final(conn).connection_type == old(conn).connection_type,
        final(conn).url == old(conn).url,
        final(conn).poll_interval_seconds == old(conn).poll_interval_seconds,
        final(conn).headers_json == old(conn).headers_json,
        final(conn).enabled == old(conn).enabled,
        final(conn).use_duration_polling == old(conn).use_duration_polling,
{
    conn.last_polled_at = Some(u.last_polled_at);
    conn.last_status = Some(u.last_status);
    conn.last_error = clone_opt_string(&u.last_error);
    conn.next_poll_at = Some(u.next_poll_at);
    conn.error_backoff_seconds = u.error_backoff_seconds;
    conn.same_song_backoff_seconds = u.same_song_backoff_seconds;
}

} // verus!
