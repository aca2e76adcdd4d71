//! The WebSocket listener's decision core: the subscribe handshake message
//! and the reconnect state machine with exponential backoff. The surrounding
//! binary owns the socket; it feeds connection outcomes and stream events in
//! and performs the commanded actions.

use vstd::prelude::*;

verus! {

use crate::json::{JsonValue, obj_get};
use crate::jsontext::{spec_json_text, write_json, json_to_string};
use crate::mapping::spec_first_present;
use crate::model::PollStatus;
use crate::strutil::push_char;

/// The subscribe text for a header object, when one can be composed: a
/// `subscribe_payload` or `subscribe_message` member is sent as given (its
/// serialization when it is not a string); else a `serviceId` or
/// `service_id` member is wrapped in a subscribe action.
pub open spec fn spec_ws_subscribe(h: Option<JsonValue>) -> Option<Seq<char>> {
    match h {
        Some(JsonValue::Obj(f)) => {
            match spec_first_present(f@, seq!["subscribe_payload"@, "subscribe_message"@]) {
                Some(v) => Some(
                    match v {
                        JsonValue::Str(s) => s@,
                        _ => spec_json_text(v),
                    },
                ),
                None => match spec_first_present(f@, seq!["serviceId"@, "service_id"@]) {
                    Some(v) => Some(
                        "{\"action\":\"subscribe\",\"serviceId\":"@ + spec_json_text(v)
                            + seq!['}'],
                    ),
                    None => None,
                },
            }
        }
        _ => None,
    }
}

/// Composes the subscribe message for a WebSocket connection from its
/// stored headers, or reports that the configuration carries none.
pub fn build_ws_subscribe_message(headers_json: Option<&JsonValue>) -> (r: Result<String, String>)
    ensures
        match spec_ws_subscribe(
            match headers_json {
                Some(h) => Some(*h),
                None => None::<JsonValue>,
            },
        ) {
            Some(m) => r matches Ok(s) && s@ == m,
            None => r matches Err(e) && e@
                == "Missing subscribe_payload or serviceId in headers_json for ws_json connection"@,
        },
{
    proof {
        reveal_with_fuel(spec_first_present, 3);
        assert(seq!["subscribe_payload"@, "subscribe_message"@][0] == "subscribe_payload"@);
        assert(seq!["subscribe_payload"@, "subscribe_message"@].drop_first() =~= seq![
            "subscribe_message"@,
        ]);
        assert(seq!["subscribe_message"@][0] == "subscribe_message"@);
        assert(seq!["subscribe_message"@].drop_first() =~= Seq::<Seq<char>>::empty());
        assert(seq!["serviceId"@, "service_id"@][0] == "serviceId"@);
        assert(seq!["serviceId"@, "service_id"@].drop_first() =~= seq!["service_id"@]);
        assert(seq!["service_id"@][0] == "service_id"@);
        assert(seq!["service_id"@].drop_first() =~= Seq::<Seq<char>>::empty());
    }
    match headers_json {
        Some(h) => {
            match h {
                JsonValue::Obj(f) => {
                    let payload = match obj_get(f, "subscribe_payload") {
                        Some(v) => Some(v),
                        None => obj_get(f, "subscribe_message"),
                    };
                    match payload {
                        Some(v) => {
                            match v {
                                JsonValue::Str(s) => {
                                    return Ok(s.clone());
                                }
                                _ => {
                                    return Ok(json_to_string(v));
                                }
                            }
                        }
                        None => {}
                    }
                    let service = match obj_get(f, "serviceId") {
                        Some(v) => Some(v),
                        None => obj_get(f, "service_id"),
                    };
                    match service {
                        Some(v) => {
                            let mut out = String::from_str(
                                "{\"action\":\"subscribe\",\"serviceId\":",
                            );
                            write_json(v, &mut out);
                            push_char(&mut out, '}');
                            Ok(out)
                        }
                        None => Err(
                            String::from_str(
                                "Missing subscribe_payload or serviceId in headers_json for ws_json connection",
                            ),
                        ),
                    }
                }
                _ => Err(
                    String::from_str(
                        "Missing subscribe_payload or serviceId in headers_json for ws_json connection",
                    ),
                ),
            }
        }
        None => Err(
            String::from_str(
                "Missing subscribe_payload or serviceId in headers_json for ws_json connection",
            ),
        ),
    }
}

/// Where the listener stands in its reconnect loop.
#[derive(Clone, Copy, Debug, PartialEq, Eq, Structural)]
pub enum WsPhase {
    Gate,
    Connect,
    Streaming,
    Backoff,
    Done,
}

/// The listener's loop state: the phase and the current reconnect backoff.
pub struct WsSession {
    pub phase: WsPhase,
    pub backoff_seconds: u64,
}

impl WsSession {
    /// The backoff always stays between one second and the one-minute cap.
    pub open spec fn wf(self) -> bool {
        1 <= self.backoff_seconds <= 60
    }
}

/// How a streaming connection ended.
pub enum WsStreamEnd {
    Closed,
    Errored(String),
    Ended,
}

/// What the listener records after an event, if anything: a status tag and
/// an optional error text.
pub struct WsStatusNote {
    pub status: PollStatus,
    pub error: Option<String>,
}

/// Starts a listener session: enablement is checked first, with a one
/// second reconnect backoff at rest.
pub fn ws_session_start() -> (s: WsSession)
    ensures
        s.wf(),
        s.phase == WsPhase::Gate,
        s.backoff_seconds == 1,
{
    WsSession { phase: WsPhase::Gate, backoff_seconds: 1 }
}

/// Feeds an enablement check into the session. A disabled connection ends
/// the listener with a `DISABLED` status. An enabled one moves on: at the
/// gate it goes to the connect step, during a health tick it keeps
/// streaming.
pub fn ws_on_enablement(s: &mut WsSession, enabled: bool) -> (note: Option<WsStatusNote>)
    requires
        old(s).wf(),
        old(s).phase == WsPhase::Gate || old(s).phase == WsPhase::Streaming,
    ensures
        final(s).wf(),
        final(s).backoff_seconds == old(s).backoff_seconds,
        !enabled ==> {
            &&& final(s).phase == WsPhase::Done
            &&& note matches Some(n) && n.status == PollStatus::Disabled && n.error is None
        },
        enabled && old(s).phase == WsPhase::Gate ==> final(s).phase == WsPhase::Connect && note
            is None,
        enabled && old(s).phase == WsPhase::Streaming ==> final(s).phase == WsPhase::Streaming
            && note is None,
{
    if !enabled {
        s.phase = WsPhase::Done;
        Some(WsStatusNote { status: PollStatus::Disabled, error: None })
    } else {
        if matches!(s.phase, WsPhase::Gate) {
            s.phase = WsPhase::Connect;
        }
        None
    }
}

/// Feeds a connect attempt's outcome into the session: success records
/// `WS_CONNECTED` and resets the backoff to one second; failure records
/// `WS_CONNECT_ERROR` with the error and moves to the backoff sleep.
pub fn ws_on_connect_outcome(s: &mut WsSession, error: Option<String>) -> (note: WsStatusNote)
    requires
        old(s).wf(),
        old(s).phase == WsPhase::Connect,
    ensures
        final(s).wf(),
        error is None ==> {
            &&& final(s).phase == WsPhase::Streaming
            &&& final(s).backoff_seconds == 1
            &&& note.status == PollStatus::WsConnected
            &&& note.error is None
        },
        error matches Some(e) ==> {
            &&& final(s).phase == WsPhase::Backoff
            &&& final(s).backoff_seconds == old(s).backoff_seconds
            &&& note.status == PollStatus::WsConnectError
            &&& note.error == Some(e)
        },
{
    match error {
        None => {
            s.phase = WsPhase::Streaming;
            s.backoff_seconds = 1;
            WsStatusNote { status: PollStatus::WsConnected, error: None }
        }
        Some(e) => {
            s.phase = WsPhase::Backoff;
            WsStatusNote { status: PollStatus::WsConnectError, error: Some(e) }
        }
    }
}

/// Feeds the end of a stream into the session: the close reason is
/// recorded (`WS_CLOSED`, `WS_ERROR` or `WS_DISCONNECTED`) and the listener
/// moves to the backoff sleep before reconnecting.
pub fn ws_on_stream_end(s: &mut WsSession, reason: WsStreamEnd) -> (note: WsStatusNote)
    requires
        old(s).wf(),
        old(s).phase == WsPhase::Streaming,
    ensures
        final(s).wf(),
        final(s).phase == WsPhase::Backoff,
        final(s).backoff_seconds == old(s).backoff_seconds,
        reason matches WsStreamEnd::Closed ==> note.status == PollStatus::WsClosed && note.error
            is None,
        reason matches WsStreamEnd::Errored(e) ==> note.status == PollStatus::WsError
            && note.error == Some(e),
        reason matches WsStreamEnd::Ended ==> note.status == PollStatus::WsDisconnected
            && note.error is None,
{
    s.phase = WsPhase::Backoff;
    match reason {
        WsStreamEnd::Closed => WsStatusNote { status: PollStatus::WsClosed, error: None },
        WsStreamEnd::Errored(e) => WsStatusNote { status: PollStatus::WsError, error: Some(e) },
        WsStreamEnd::Ended => WsStatusNote { status: PollStatus::WsDisconnected, error: None },
    }
}

/// The backoff after one more failed cycle: doubled, capped at one minute.
pub open spec fn spec_next_ws_backoff(b: int) -> int {
    if 2 * b > 60 {
        60
    } else {
        2 * b
    }
}

/// Takes the backoff sleep: hands back how long to sleep, doubles the
/// backoff up to the one-minute cap, and returns to the enablement gate.
pub fn ws_take_backoff(s: &mut WsSession) -> (sleep_seconds: u64)
    requires
        old(s).wf(),
        old(s).phase == WsPhase::Backoff,
    ensures
        final(s).wf(),
        final(s).phase == WsPhase::Gate,
        sleep_seconds == old(s).backoff_seconds,
        final(s).backoff_seconds == spec_next_ws_backoff(old(s).backoff_seconds as int),
{
    let sleep_seconds = s.backoff_seconds;
    s.backoff_seconds = if s.backoff_seconds >= 30 {
        60
    } else {
        s.backoff_seconds * 2
    };
    s.phase = WsPhase::Gate;
    sleep_seconds
}

/// The backoff after `n` consecutive failed cycles, starting from one
/// second.
pub open spec fn spec_ws_backoff_iter(n: nat) -> int
    decreases n,
{
    if n == 0 {
        1
    } else {
        spec_next_ws_backoff(spec_ws_backoff_iter((n - 1) as nat))
    }
}

/// Consecutive failed cycles double the reconnect backoff from one second
/// until it rests at the one-minute cap.
pub proof fn lemma_ws_backoff_progression(n: nat)
    ensures
        spec_ws_backoff_iter(n) == if n == 0 {
            1int
        } else if n == 1 {
            2int
        } else if n == 2 {
            4int
        } else if n == 3 {
            8int
        } else if n == 4 {
            16int
        } else if n == 5 {
            32int
        } else {
            60int
        },
    decreases n,
{
    if n > 0 {
        lemma_ws_backoff_progression((n - 1) as nat);
    }
}

} // verus!
