//! Tests for the scheduler, the deduplicating writer, the WebSocket session
//! machine and the supervisor's tick decisions.

use nowplaying_ingest::hashing::jitter_seconds;
use nowplaying_ingest::json::{JsonNum, JsonValue};
use nowplaying_ingest::model::{
    apply_poll_update, summarize_event, Connection, FetchResult, PollStatus,
};
use nowplaying_ingest::pipeline::{parse_fetch_body, ws_text_fetch_result};
use nowplaying_ingest::schedule::{
    next_error_backoff_seconds, next_same_song_backoff_seconds, should_poll,
};
use nowplaying_ingest::supervisor::{tick_connection, ActiveWsSet, TickAction};
use nowplaying_ingest::writer::{calculate_hash, plan_fetch_failure, plan_fetch_result};
use nowplaying_ingest::ws::{
    build_ws_subscribe_message, ws_on_connect_outcome, ws_on_enablement, ws_on_stream_end,
    ws_session_start, ws_take_backoff, WsPhase, WsStreamEnd,
};

fn conn_of(kind: &str) -> Connection {
    Connection {
        id: 2,
        station_id: 1,
        payload_mapping_id: None,
        name: "test".to_string(),
        connection_type: kind.to_string(),
        url: "http://example.com".to_string(),
        poll_interval_seconds: 60,
        headers_json: None,
        enabled: true,
        use_duration_polling: false,
        last_polled_at: None,
        next_poll_at: None,
        same_song_backoff_seconds: 0,
        error_backoff_seconds: 0,
        last_status: None,
        last_error: None,
    }
}

fn obj_of(fields: Vec<(&str, JsonValue)>) -> JsonValue {
    JsonValue::Obj(
        fields
            .into_iter()
            .map(|(k, v)| (k.to_string(), v))
            .collect(),
    )
}

#[test]
fn next_poll_at_takes_precedence_over_last_polled_at() {
    let mut conn = conn_of("http_json");
    let now = chrono::Utc::now().fixed_offset();
    let now_s = now.timestamp();

    conn.last_polled_at = Some(now_s - 10_000);
    conn.next_poll_at = Some(now_s + 300);
    assert!(!should_poll(&conn, now_s));

    conn.next_poll_at = Some(now_s - 1);
    assert!(should_poll(&conn, now_s));
}

#[test]
fn jitter_is_bounded_and_deterministic() {
    let conn_id = uuid::Uuid::parse_str("00000000-0000-0000-0000-000000000001")
        .unwrap()
        .as_u128();
    let now = chrono::DateTime::parse_from_rfc3339("2026-01-08T21:43:00Z")
        .unwrap()
        .timestamp();

    let j1 = jitter_seconds(conn_id, now, 5);
    let j2 = jitter_seconds(conn_id, now, 5);
    assert_eq!(j1, j2);
    assert!((0..=5).contains(&j1));
}

#[test]
fn same_song_backoff_progresses_to_two_minutes() {
    let conn_id = uuid::Uuid::parse_str("00000000-0000-0000-0000-000000000002")
        .unwrap()
        .as_u128();
    let now = chrono::DateTime::parse_from_rfc3339("2026-01-08T21:43:00Z")
        .unwrap()
        .timestamp();

    let b1 = next_same_song_backoff_seconds(0, conn_id, now);
    assert!((10..=30).contains(&b1));

    let b2 = next_same_song_backoff_seconds(b1, conn_id, now);
    assert_eq!(b2, 30);

    let b3 = next_same_song_backoff_seconds(b2, conn_id, now);
    assert_eq!(b3, 60);

    let b4 = next_same_song_backoff_seconds(b3, conn_id, now);
    assert_eq!(b4, 120);

    let b5 = next_same_song_backoff_seconds(b4, conn_id, now);
    assert_eq!(b5, 120);
}

#[test]
fn error_backoff_doubles_and_caps() {
    assert_eq!(next_error_backoff_seconds(0), 30);
    assert_eq!(next_error_backoff_seconds(30), 60);
    assert_eq!(next_error_backoff_seconds(60), 120);
    assert_eq!(next_error_backoff_seconds(120), 120);
}

#[test]
fn payload_hash_matches_reference_digest() {
    let h = calculate_hash(1, 2, "{\"artist\":\"A\",\"title\":\"T\"}");
    assert_eq!(
        h,
        "7cb68dcc0da3630541473b085a22cc5a44fce4170c86069e6b17c54e664c026c"
    );
}

#[test]
fn http_json_happy_path_writes_once_then_dedups() {
    let conn = conn_of("http_json");
    let body = "{\"artist\":\"A\",\"title\":\"T\",\"album\":\"Al\"}";
    let now = 1_700_000_000;

    let fetch = parse_fetch_body(
        "http_json",
        200,
        Some("application/json".to_string()),
        body,
        None,
    );
    let plan = plan_fetch_result(&conn, fetch, None, now, 77);
    let event = plan.event.expect("first poll must insert an event");
    assert_eq!(event.reported_artist.as_deref(), Some("A"));
    assert_eq!(event.reported_title.as_deref(), Some("T"));
    assert_eq!(event.reported_album.as_deref(), Some("Al"));
    assert_eq!(event.http_status, Some(200));
    assert_eq!(event.payload_hash.len(), 64);
    assert_eq!(plan.update.last_status, PollStatus::Okay);
    assert_eq!(plan.update.error_backoff_seconds, 0);
    assert_eq!(plan.update.same_song_backoff_seconds, 0);

    // the second poll of an identical body writes nothing
    let last = summarize_event(&event);
    let fetch2 = parse_fetch_body(
        "http_json",
        200,
        Some("application/json".to_string()),
        body,
        None,
    );
    let plan2 = plan_fetch_result(&conn, fetch2, Some(&last), now + 30, 78);
    assert!(plan2.event.is_none());
    assert_eq!(plan2.update.last_status, PollStatus::Okay);
    assert!((10..=30).contains(&plan2.update.same_song_backoff_seconds));
}

#[test]
fn content_dedup_suppresses_differing_payloads() {
    let conn = conn_of("http_json");
    let now = 1_700_000_000;
    let fetch = parse_fetch_body("http_json", 200, None, "{\"artist\":\"A\",\"title\":\"T\"}", None);
    let plan = plan_fetch_result(&conn, fetch, None, now, 1);
    let last = summarize_event(&plan.event.unwrap());

    // same artist and title, different raw payload
    let fetch2 = parse_fetch_body(
        "http_json",
        200,
        None,
        "{\"artist\":\"A\",\"extra\":1,\"title\":\"T\"}",
        None,
    );
    let plan2 = plan_fetch_result(&conn, fetch2, Some(&last), now + 5, 2);
    assert!(plan2.event.is_none());
}

#[test]
fn missing_artist_rejects_and_backs_off() {
    let conn = conn_of("http_json");
    let now = 1_700_000_000;
    let fetch = parse_fetch_body("http_json", 200, None, "{\"title\":\"T\"}", None);
    let plan = plan_fetch_result(&conn, fetch, None, now, 3);
    assert!(plan.event.is_none());
    assert_eq!(plan.update.last_status, PollStatus::InvalidEvent);
    assert_eq!(plan.update.last_error.as_deref(), Some("Missing artist"));
    assert_eq!(plan.update.error_backoff_seconds, 30);
    let delay = plan.update.next_poll_at - now;
    assert!((30..=35).contains(&delay));
}

#[test]
fn duration_polling_schedules_after_track_end() {
    let mut conn = conn_of("http_json");
    conn.use_duration_polling = true;
    let now = 1_700_000_000;
    let fetch = FetchResult {
        status: 200,
        content_type: None,
        raw_payload: JsonValue::Null,
        reported_artist: Some("A".to_string()),
        reported_title: Some("T".to_string()),
        reported_album: None,
        reported_at: Some(now - 30),
        reported_duration_seconds: Some(180),
    };
    let plan = plan_fetch_result(&conn, fetch, None, now, 4);
    assert!(plan.event.is_some());
    let delay = plan.update.next_poll_at - now;
    // max(180 - 30 + 2, 5) plus up to five seconds of jitter
    assert!((152..=157).contains(&delay));
    assert_eq!(plan.update.same_song_backoff_seconds, 0);
}

#[test]
fn fetch_error_then_success_resets_backoff() {
    let mut conn = conn_of("http_json");
    let now = 1_700_000_000;
    let u = plan_fetch_failure(&conn, "connection refused".to_string(), now);
    assert_eq!(u.last_status, PollStatus::FetchError);
    assert_eq!(u.last_error.as_deref(), Some("connection refused"));
    assert_eq!(u.error_backoff_seconds, 30);
    assert_eq!(u.same_song_backoff_seconds, 0);
    apply_poll_update(&mut conn, &u);
    assert_eq!(conn.error_backoff_seconds, 30);

    // a second failure doubles the backoff
    let u2 = plan_fetch_failure(&conn, "still down".to_string(), now + 30);
    assert_eq!(u2.error_backoff_seconds, 60);

    // success writes one event and resets the error backoff
    let fetch = parse_fetch_body("http_json", 200, None, "{\"artist\":\"A\",\"title\":\"T\"}", None);
    let plan = plan_fetch_result(&conn, fetch, None, now + 60, 5);
    assert!(plan.event.is_some());
    assert_eq!(plan.update.error_backoff_seconds, 0);
    assert_eq!(plan.update.last_status, PollStatus::Okay);
}

#[test]
fn ws_subscribe_message_from_service_id() {
    let headers = obj_of(vec![("serviceId", JsonValue::Str("abc".to_string()))]);
    let msg = build_ws_subscribe_message(Some(&headers)).unwrap();
    assert_eq!(msg, "{\"action\":\"subscribe\",\"serviceId\":\"abc\"}");

    let headers2 = obj_of(vec![(
        "subscribe_payload",
        JsonValue::Str("hello".to_string()),
    )]);
    assert_eq!(build_ws_subscribe_message(Some(&headers2)).unwrap(), "hello");

    let headers3 = obj_of(vec![(
        "service_id",
        JsonValue::Num(JsonNum {
            value: 7,
            integral: true,
            text: "7".to_string(),
        }),
    )]);
    assert_eq!(
        build_ws_subscribe_message(Some(&headers3)).unwrap(),
        "{\"action\":\"subscribe\",\"serviceId\":7}"
    );

    let err = build_ws_subscribe_message(None).unwrap_err();
    assert_eq!(
        err,
        "Missing subscribe_payload or serviceId in headers_json for ws_json connection"
    );
}

#[test]
fn ws_listener_reconnects_with_doubling_backoff() {
    let mut s = ws_session_start();
    assert_eq!(s.backoff_seconds, 1);

    // enabled, connects, receives one track, then the server closes
    assert!(ws_on_enablement(&mut s, true).is_none());
    assert_eq!(s.phase, WsPhase::Connect);
    let note = ws_on_connect_outcome(&mut s, None);
    assert_eq!(note.status, PollStatus::WsConnected);

    let conn = conn_of("ws_json");
    let fetch = ws_text_fetch_result("{\"artist\":\"A\",\"title\":\"T\"}", None, "ws_json")
        .expect("JSON frame must decode");
    let plan = plan_fetch_result(&conn, fetch, None, 1_700_000_000, 6);
    assert!(plan.event.is_some());

    // frames that are not JSON are skipped
    assert!(ws_text_fetch_result("not json", None, "ws_json").is_none());

    let note = ws_on_stream_end(&mut s, WsStreamEnd::Closed);
    assert_eq!(note.status, PollStatus::WsClosed);
    assert_eq!(ws_take_backoff(&mut s), 1);
    assert_eq!(s.backoff_seconds, 2);

    // a stream that ends without a close frame records the disconnect
    ws_on_enablement(&mut s, true);
    ws_on_connect_outcome(&mut s, None);
    let note = ws_on_stream_end(&mut s, WsStreamEnd::Ended);
    assert_eq!(note.status, PollStatus::WsDisconnected);
    assert_eq!(ws_take_backoff(&mut s), 1);

    // repeated connect failures double the sleep up to a minute
    let mut sleeps = Vec::new();
    for _ in 0..7 {
        ws_on_enablement(&mut s, true);
        let note = ws_on_connect_outcome(&mut s, Some("refused".to_string()));
        assert_eq!(note.status, PollStatus::WsConnectError);
        assert_eq!(note.error.as_deref(), Some("refused"));
        sleeps.push(ws_take_backoff(&mut s));
    }
    assert_eq!(sleeps, vec![2, 4, 8, 16, 32, 60, 60]);

    // a disabled connection terminates the listener
    let note = ws_on_enablement(&mut s, false).unwrap();
    assert_eq!(note.status, PollStatus::Disabled);
    assert_eq!(s.phase, WsPhase::Done);
}

#[test]
fn supervisor_starts_one_listener_per_connection() {
    let mut active = ActiveWsSet::new();
    let ws_conn = conn_of("ws_json");
    let now = 1_700_000_000;

    assert_eq!(
        tick_connection(&ws_conn, &mut active, now),
        TickAction::StartWsListener
    );
    assert_eq!(tick_connection(&ws_conn, &mut active, now), TickAction::Skip);

    // after the listener ends, its slot frees up
    active.remove(ws_conn.id);
    assert_eq!(
        tick_connection(&ws_conn, &mut active, now),
        TickAction::StartWsListener
    );

    // HTTP connections dispatch when due and never touch the set
    let mut http_conn = conn_of("http_json");
    assert_eq!(
        tick_connection(&http_conn, &mut active, now),
        TickAction::DispatchPoll
    );
    http_conn.next_poll_at = Some(now + 100);
    assert_eq!(tick_connection(&http_conn, &mut active, now), TickAction::Skip);
}

#[test]
fn status_tags_render_their_codes() {
    assert_eq!(PollStatus::Okay.code(), "OK");
    assert_eq!(PollStatus::FetchError.code(), "FETCH_ERROR");
    assert_eq!(PollStatus::InvalidEvent.code(), "INVALID_EVENT");
    assert_eq!(PollStatus::WsClosed.code(), "WS_CLOSED");
}
