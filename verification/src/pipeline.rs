//! The decode half of the fetch-and-parse pipeline: turns a response body
//! into a payload value (JSON, normalized XML text, or the raw text) and
//! assembles the fetch result the writer consumes. The HTTP request itself
//! is the surrounding binary's work.

use vstd::prelude::*;

verus! {

use crate::json::{JsonValue, spec_json_parse, spec_xml_json_parse, parse_json, parse_xml_as_json};
use crate::model::FetchResult;
use crate::mapping::{ExtractedFields, extract_fields, fields_view, spec_extract_fields};
use crate::xml::{spec_normalize_storage, spec_normalize_for_parse, normalize_xml_storage,
    normalize_xml_for_parse};
use crate::transport::spec_is_xml_type;
use crate::strutil::{spec_trim_start, str_chars, trim_start_chars};
use crate::times::MAX_TIMESTAMP_SECS;

/// Whether a body looks like XML: its first non-whitespace character is
/// `<`.
pub open spec fn spec_looks_like_xml(body: Seq<char>) -> bool {
    spec_trim_start(body).len() > 0 && spec_trim_start(body)[0] == '<'
}

/// What the body decodes to, stated of the decoded value `r`:
/// XML transports store the normalized text; other bodies are parsed as
/// JSON, sniffed as XML when they start with `<`, and kept as raw text
/// otherwise.
pub open spec fn spec_decoded_body(r: JsonValue, ct: Seq<char>, body: Seq<char>) -> bool {
    if spec_is_xml_type(ct) {
        r matches JsonValue::Str(s) && s@ == spec_normalize_storage(body)
    } else {
        match spec_json_parse(body) {
            Some(v) => r == v,
            None => {
                if spec_looks_like_xml(body) {
                    match spec_xml_json_parse(
                        spec_normalize_for_parse(spec_normalize_storage(body)),
                    ) {
                        Some(v) => r == v,
                        None => r matches JsonValue::Str(s) && s@ == spec_normalize_storage(body),
                    }
                } else {
                    r matches JsonValue::Str(s) && s@ == body
                }
            }
        }
    }
}

/// Decodes a response body into a payload value: XML transports store the
/// normalized text; other bodies try JSON, then XML sniffing, then fall back
/// to the raw text.
pub fn decode_body(connection_type: &str, body: &str) -> (r: JsonValue)
    ensures
        spec_decoded_body(r, connection_type@, body@),
{
    if crate::transport::is_xml_connection_type(connection_type) {
        return JsonValue::Str(normalize_xml_storage(body));
    }
    match parse_json(body) {
        Some(v) => v,
        None => {
            let cs = str_chars(body);
            let t = trim_start_chars(&cs);
            if t.len() > 0 && t[0] == '<' {
                let normalized = normalize_xml_storage(body);
                let for_parse = normalize_xml_for_parse(normalized.as_str());
                match parse_xml_as_json(for_parse.as_str()) {
                    Some(v) => v,
                    None => JsonValue::Str(normalized),
                }
            } else {
                JsonValue::Str(String::from_str(body))
            }
        }
    }
}

/// Assembles the fetch result for one HTTP response: the decoded payload
/// and the fields the mapping engine extracts from it.
pub fn parse_fetch_body(
    connection_type: &str,
    status: i32,
    content_type: Option<String>,
    body: &str,
    mapping: Option<&JsonValue>,
) -> (r: FetchResult)
    ensures
        r.status == status,
        r.content_type == content_type,
        spec_decoded_body(r.raw_payload, connection_type@, body@),
        (
            r.reported_artist.deep_view(),
            r.reported_title.deep_view(),
            r.reported_album.deep_view(),
            r.reported_at,
            r.reported_duration_seconds,
        ) == spec_extract_fields(
            r.raw_payload,
            match mapping {
                Some(m) => Some(*m),
                None => None::<JsonValue>,
            },
            connection_type@,
        ),
        r.reported_at matches Some(t) ==> -MAX_TIMESTAMP_SECS <= t <= MAX_TIMESTAMP_SECS,
{
    let raw_payload = decode_body(connection_type, body);
    let f = extract_fields(&raw_payload, mapping, connection_type);
    FetchResult {
        status,
        content_type,
        raw_payload,
        reported_artist: f.artist,
        reported_title: f.title,
        reported_album: f.album,
        reported_at: f.reported_at,
        reported_duration_seconds: f.duration_seconds,
    }
}

/// Assembles the synthetic fetch result for one pushed WebSocket payload:
/// HTTP status 200 and a JSON content type, with the fields extracted from
/// the payload.
pub fn ws_fetch_result(
    payload: JsonValue,
    mapping: Option<&JsonValue>,
    connection_type: &str,
) -> (r: FetchResult)
    ensures
        r.status == 200,
        r.content_type.deep_view() == Some("application/json"@),
        r.raw_payload == payload,
        (
            r.reported_artist.deep_view(),
            r.reported_title.deep_view(),
            r.reported_album.deep_view(),
            r.reported_at,
            r.reported_duration_seconds,
        ) == spec_extract_fields(
            payload,
            match mapping {
                Some(m) => Some(*m),
                None => None::<JsonValue>,
            },
            connection_type@,
        ),
{
    let f = extract_fields(&payload, mapping, connection_type);
    FetchResult {
        status: 200,
        content_type: Some(String::from_str("application/json")),
        raw_payload: payload,
        reported_artist: f.artist,
        reported_title: f.title,
        reported_album: f.album,
        reported_at: f.reported_at,
        reported_duration_seconds: f.duration_seconds,
    }
}

/// Decodes one WebSocket text frame into a fetch result: frames that do not
/// parse as JSON are skipped.
pub fn ws_text_fetch_result(
    text: &str,
    mapping: Option<&JsonValue>,
    connection_type: &str,
) -> (r: Option<FetchResult>)
    ensures
        (r is Some) <==> (spec_json_parse(text@) is Some),
        r matches Some(f) ==> {
            &&& f.status == 200
            &&& f.content_type.deep_view() == Some("application/json"@)
            &&& Some(f.raw_payload) == spec_json_parse(text@)
            &&& (
                f.reported_artist.deep_view(),
                f.reported_title.deep_view(),
                f.reported_album.deep_view(),
                f.reported_at,
                f.reported_duration_seconds,
            ) == spec_extract_fields(
                f.raw_payload,
                match mapping {
                    Some(m) => Some(*m),
                    None => None::<JsonValue>,
                },
                connection_type@,
            )
        },
{
    match parse_json(text) {
        Some(payload) => Some(ws_fetch_result(payload, mapping, connection_type)),
        None => None,
    }
}

} // verus!
