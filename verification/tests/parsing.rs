//! Tests for payload decoding, the mapping engine, time and duration
//! parsing, and the header resolver.

use nowplaying_ingest::headers::{
    browser_headers_value, default_headers_value, headers_value_to_map, is_default_port,
    normalize_headers_for_storage, origin_for_url, should_default_headers,
};
use nowplaying_ingest::json::{JsonNum, JsonValue};
use nowplaying_ingest::mapping::extract_fields;
use nowplaying_ingest::pipeline::{decode_body, parse_fetch_body};
use nowplaying_ingest::times::{
    parse_duration_seconds_str, parse_duration_seconds_value, parse_reported_at,
};
use nowplaying_ingest::transport::{is_ws_connection_type, is_xml_connection_type};
use nowplaying_ingest::xml::{extract_xml_values, normalize_xml_for_parse, normalize_xml_storage};

fn jstr(s: &str) -> JsonValue {
    JsonValue::Str(s.to_string())
}

fn jint(n: i64) -> JsonValue {
    JsonValue::Num(JsonNum {
        value: n,
        integral: true,
        text: n.to_string(),
    })
}

fn jobj(fields: Vec<(&str, JsonValue)>) -> JsonValue {
    JsonValue::Obj(
        fields
            .into_iter()
            .map(|(k, v)| (k.to_string(), v))
            .collect(),
    )
}

#[test]
fn parses_duration_seconds_from_strings_and_numbers() {
    assert_eq!(parse_duration_seconds_str("180"), Some(180));
    assert_eq!(parse_duration_seconds_str("180000"), Some(180));
    assert_eq!(parse_duration_seconds_str("180000000000"), Some(180));
    assert_eq!(parse_duration_seconds_str("PT3M30S"), Some(210));
    assert_eq!(parse_duration_seconds_str("PT1H2M"), Some(3720));
    assert_eq!(parse_duration_seconds_str("0"), None);

    assert_eq!(parse_duration_seconds_value(&jint(180)), Some(180));
    assert_eq!(parse_duration_seconds_value(&jint(180000)), Some(180));
    assert_eq!(parse_duration_seconds_value(&jstr("PT180S")), Some(180));
}

#[test]
fn parses_reported_at_from_epoch_seconds_and_millis() {
    let s = parse_reported_at("1700000000").unwrap();
    let ms = parse_reported_at("1700000000000").unwrap();
    assert_eq!(s, ms);
}

#[test]
fn parses_reported_at_from_rfc3339() {
    assert_eq!(parse_reported_at("2026-01-08T21:43:00Z"), Some(1767908580));
    assert_eq!(parse_reported_at("not a time"), None);
}

#[test]
fn unwrap_heuristic_reaches_wrapped_fields() {
    let payload = jobj(vec![(
        "data",
        jobj(vec![("artist", jstr("A")), ("title", jstr("T"))]),
    )]);
    let mapping = jobj(vec![
        ("artist_path", jstr("artist")),
        ("title_path", jstr("title")),
    ]);
    let f = extract_fields(&payload, Some(&mapping), "http_json");
    assert_eq!(f.artist.as_deref(), Some("A"));
    assert_eq!(f.title.as_deref(), Some("T"));
}

#[test]
fn best_effort_probes_known_keys() {
    let payload = jobj(vec![
        ("artistName", jstr("X")),
        ("trackName", jstr("Y")),
        ("collectionName", jstr("Z")),
        ("durationSeconds", jint(200000)),
    ]);
    let f = extract_fields(&payload, None, "http_json");
    assert_eq!(f.artist.as_deref(), Some("X"));
    assert_eq!(f.title.as_deref(), Some("Y"));
    assert_eq!(f.album.as_deref(), Some("Z"));
    assert_eq!(f.duration_seconds, Some(200));
    assert_eq!(f.reported_at, None);
}

#[test]
fn list_path_targets_first_element() {
    let payload = jobj(vec![(
        "items",
        JsonValue::Arr(vec![
            jobj(vec![("artist", jstr("First")), ("title", jstr("One"))]),
            jobj(vec![("artist", jstr("Second")), ("title", jstr("Two"))]),
        ]),
    )]);
    let mapping = jobj(vec![
        ("list_path", jstr("items")),
        ("artist_path", jstr("artist")),
        ("title_path", jstr("title")),
    ]);
    let f = extract_fields(&payload, Some(&mapping), "http_json");
    assert_eq!(f.artist.as_deref(), Some("First"));
    assert_eq!(f.title.as_deref(), Some("One"));
}

#[test]
fn xml_extraction_resolves_element_paths() {
    let body = "<?xml version=\"1.0\"?>\n<nowplaying><song><artist>A</artist><title>T</title></song></nowplaying>";
    let mapping = jobj(vec![
        ("list_path", jstr("nowplaying.song")),
        ("artist_path", jstr("artist")),
        ("title_path", jstr("title")),
    ]);
    let r = parse_fetch_body("http_xml", 200, None, body, Some(&mapping));
    assert_eq!(r.reported_artist.as_deref(), Some("A"));
    assert_eq!(r.reported_title.as_deref(), Some("T"));
    match &r.raw_payload {
        JsonValue::Str(stored) => {
            // newline stripped for storage, prolog retained
            assert_eq!(
                stored.as_str(),
                "<?xml version=\"1.0\"?><nowplaying><song><artist>A</artist><title>T</title></song></nowplaying>"
            );
        }
        _ => panic!("XML body must be stored as a string"),
    }
}

#[test]
fn xml_values_keep_first_content_per_path() {
    let xml = "<r><a>one</a><a>two</a><b><c>deep</c></b></r>";
    let values = extract_xml_values(xml);
    assert_eq!(values[0], ("r.a".to_string(), "one".to_string()));
    assert!(values.contains(&("r.b.c".to_string(), "deep".to_string())));
    assert_eq!(values.len(), 2);
}

#[test]
fn xml_normalization_strips_breaks_and_prolog() {
    assert_eq!(normalize_xml_storage("a\n\tb\rc"), "abc");
    assert_eq!(
        normalize_xml_for_parse("<?xml version=\"1.0\"?>\n<r>x</r>"),
        "<r>x</r>"
    );
    assert_eq!(normalize_xml_for_parse("<r>y</r>"), "<r>y</r>");
}

#[test]
fn json_bodies_decode_and_sniffed_xml_parses() {
    match decode_body("http_json", "{\"title\":\"T\"}") {
        JsonValue::Obj(fields) => {
            assert_eq!(fields.len(), 1);
            assert_eq!(fields[0].0, "title");
        }
        _ => panic!("JSON body must decode to an object"),
    }
    // a non-JSON body starting with '<' goes through the XML deserializer
    match decode_body("http_json", "<a><b>x</b></a>") {
        JsonValue::Str(_) => panic!("sniffed XML must not fall back to raw text"),
        _ => {}
    }
    // anything else is kept verbatim
    match decode_body("http_json", "just text") {
        JsonValue::Str(s) => assert_eq!(s, "just text"),
        _ => panic!("plain text body must be kept as a string"),
    }
}

#[test]
fn transport_tags_are_case_insensitive() {
    assert!(is_ws_connection_type("WS_JSON"));
    assert!(!is_ws_connection_type("http_json"));
    assert!(is_xml_connection_type("http_xml"));
    assert!(is_xml_connection_type("RSS"));
    assert!(!is_xml_connection_type("http_text"));
}

#[test]
fn default_headers_follow_the_transport() {
    assert!(should_default_headers("http_json"));
    assert!(!should_default_headers("ws_json"));
    let pairs = headers_value_to_map(&default_headers_value("rss"));
    assert_eq!(
        pairs[0],
        (
            "Accept".to_string(),
            "application/rss+xml, application/xml;q=0.9, */*;q=0.8".to_string()
        )
    );
    assert_eq!(
        pairs[1],
        ("Cache-Control".to_string(), "no-cache".to_string())
    );
    assert_eq!(pairs[2], ("Pragma".to_string(), "no-cache".to_string()));
}

#[test]
fn browser_headers_carry_origin_and_referer() {
    let v = browser_headers_value("http_json", "https://radio.example:8443/stream");
    let pairs = headers_value_to_map(&v);
    assert!(pairs.contains(&(
        "Origin".to_string(),
        "https://radio.example:8443".to_string()
    )));
    assert!(pairs.contains(&(
        "Referer".to_string(),
        "https://radio.example:8443/".to_string()
    )));
    assert!(pairs.contains(&(
        "Accept-Language".to_string(),
        "en-US,en;q=0.9".to_string()
    )));

    // the default port is left out of the origin
    let v2 = browser_headers_value("http_json", "https://radio.example:443/stream");
    let pairs2 = headers_value_to_map(&v2);
    assert!(pairs2.contains(&("Origin".to_string(), "https://radio.example".to_string())));
}

#[test]
fn origin_handles_ports_and_bad_urls() {
    assert_eq!(is_default_port("http", 80), true);
    assert_eq!(is_default_port("https", 443), true);
    assert_eq!(is_default_port("http", 8080), false);
    assert_eq!(
        origin_for_url("http://example.com/x").as_deref(),
        Some("http://example.com")
    );
    assert_eq!(origin_for_url("not a url"), None);
}

#[test]
fn storage_normalization_substitutes_defaults() {
    let normalized = normalize_headers_for_storage("http_text", None);
    let pairs = headers_value_to_map(&normalized.unwrap());
    assert_eq!(
        pairs[0],
        ("Accept".to_string(), "text/plain, */*;q=0.8".to_string())
    );
    // WebSocket connections store user input verbatim
    assert!(normalize_headers_for_storage("ws_json", None).is_none());
    // numbers and booleans stringify in the request map
    let supplied = jobj(vec![("X-Retry", jint(3)), ("X-Flag", JsonValue::Bool(true))]);
    let pairs2 = headers_value_to_map(&supplied);
    assert_eq!(pairs2[0], ("X-Retry".to_string(), "3".to_string()));
    assert_eq!(pairs2[1], ("X-Flag".to_string(), "true".to_string()));
}

#[test]
fn float_durations_round_to_seconds() {
    let f = extract_fields(
        &decode_body("http_json", "{\"artist\":\"A\",\"duration\":180.4}"),
        None,
        "http_json",
    );
    assert_eq!(f.duration_seconds, Some(180));
}

#[test]
fn subscribe_serialization_matches_serde() {
    let raw = "{\"serviceId\":{\"a\":[1,2.5,true,null,\"x\\n\"],\"b\":\"t\"}}";
    let payload = decode_body("ws_json", raw);
    let msg = nowplaying_ingest::ws::build_ws_subscribe_message(Some(&payload)).unwrap();

    let sv: serde_json::Value = serde_json::from_str(raw).unwrap();
    let expected = format!(
        "{{\"action\":\"subscribe\",\"serviceId\":{}}}",
        serde_json::to_string(sv.get("serviceId").unwrap()).unwrap()
    );
    assert_eq!(msg, expected);
}

#[test]
fn day_month_form_needs_an_offset() {
    // chrono's DateTime parser rejects this format without a zone offset,
    // so such a text falls through to the epoch branch and is rejected there
    assert_eq!(parse_reported_at("08 Jan 2026 21:43:00"), None);
    assert_eq!(parse_reported_at(" 1700000000 "), Some(1700000000));
}
