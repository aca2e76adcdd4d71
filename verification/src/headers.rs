//! The request-header resolver: per-transport default headers, the
//! browser-fallback variant used on retry, and normalization of
//! user-supplied headers for storage. URL parsing for the `Origin` header
//! comes from the url crate behind a trusted wrapper.

use vstd::prelude::*;

verus! {

use crate::json::JsonValue;
use crate::transport::spec_is_ws_type;
use crate::strutil::{push_char, spec_dec_u32, append_dec_u32};

/// Whether a transport gets synthesized default headers: every transport
/// but the WebSocket one.
pub fn should_default_headers(connection_type: &str) -> (r: bool)
    ensures
        r == !spec_is_ws_type(connection_type@),
{
    !crate::transport::is_ws_connection_type(connection_type)
}

/// The `Accept` value synthesized for a transport.
pub open spec fn spec_default_accept(ct: Seq<char>) -> Seq<char> {
    if crate::transport::spec_is_xml_type(ct) {
        if crate::strutil::spec_ascii_ieq(ct, seq!['r', 's', 's']) {
            "application/rss+xml, application/xml;q=0.9, */*;q=0.8"@
        } else {
            "application/xml, text/xml;q=0.9, */*;q=0.8"@
        }
    } else if crate::strutil::spec_ascii_ieq(
        ct,
        seq!['h', 't', 't', 'p', '_', 't', 'e', 'x', 't'],
    ) {
        "text/plain, */*;q=0.8"@
    } else {
        "application/json, text/javascript, */*; q=0.01"@
    }
}

/// Whether an object member holds exactly this string.
pub open spec fn spec_member_is(p: (String, JsonValue), key: Seq<char>, val: Seq<char>) -> bool {
    &&& p.0@ == key
    &&& p.1 matches JsonValue::Str(s) && s@ == val
}

/// The default header object for a transport: its `Accept` value together
/// with the no-cache pair, in stored order.
pub open spec fn spec_is_default_headers(r: JsonValue, ct: Seq<char>) -> bool {
    &&& r matches JsonValue::Obj(f)
    &&& f@.len() == 3
    &&& spec_member_is(f@[0], "Accept"@, spec_default_accept(ct))
    &&& spec_member_is(f@[1], "Cache-Control"@, "no-cache"@)
    &&& spec_member_is(f@[2], "Pragma"@, "no-cache"@)
}

/// The `Accept` value synthesized for a transport.
fn default_accept_string(connection_type: &str) -> (r: String)
    ensures
        r@ == spec_default_accept(connection_type@),
{
    if crate::transport::is_xml_connection_type(connection_type) {
        if crate::strutil::str_ieq_ascii(connection_type, "rss") {
            proof {
                reveal_strlit("rss");
                assert("rss"@ =~= seq!['r', 's', 's']);
            }
            String::from_str("application/rss+xml, application/xml;q=0.9, */*;q=0.8")
        } else {
            proof {
                reveal_strlit("rss");
                assert("rss"@ =~= seq!['r', 's', 's']);
            }
            String::from_str("application/xml, text/xml;q=0.9, */*;q=0.8")
        }
    } else if crate::strutil::str_ieq_ascii(connection_type, "http_text") {
        proof {
            reveal_strlit("http_text");
            assert("http_text"@ =~= seq!['h', 't', 't', 'p', '_', 't', 'e', 'x', 't']);
        }
        String::from_str("text/plain, */*;q=0.8")
    } else {
        proof {
            reveal_strlit("http_text");
            assert("http_text"@ =~= seq!['h', 't', 't', 'p', '_', 't', 'e', 'x', 't']);
        }
        String::from_str("application/json, text/javascript, */*; q=0.01")
    }
}

/// Synthesizes the default headers for a transport: an `Accept` for its
/// payload kind, plus `Cache-Control: no-cache` and `Pragma: no-cache`.
pub fn default_headers_value(connection_type: &str) -> (r: JsonValue)
    ensures
        spec_is_default_headers(r, connection_type@),
{
    let accept = default_accept_string(connection_type);
    let mut fields: Vec<(String, JsonValue)> = Vec::new();
    fields.push((String::from_str("Accept"), JsonValue::Str(accept)));
    fields.push((String::from_str("Cache-Control"), JsonValue::Str(String::from_str("no-cache"))));
    fields.push((String::from_str("Pragma"), JsonValue::Str(String::from_str("no-cache"))));
    JsonValue::Obj(fields)
}

/// The pairs a header object turns into for the HTTP request: strings kept
/// as they are, numbers by their canonical rendering, booleans as `true` or
/// `false`; anything else is dropped. Non-objects give no headers.
pub open spec fn spec_headers_map(v: JsonValue) -> Seq<(Seq<char>, Seq<char>)> {
    match v {
        JsonValue::Obj(fields) => spec_headers_entries(fields@),
        _ => Seq::empty(),
    }
}

/// The request pairs of the members, in stored order.
pub open spec fn spec_headers_entries(fields: Seq<(String, JsonValue)>) -> Seq<
    (Seq<char>, Seq<char>),
>
    decreases fields.len(),
{
    if fields.len() == 0 {
        Seq::empty()
    } else {
        let rest = spec_headers_entries(fields.drop_first());
        match fields[0].1 {
            JsonValue::Str(s) => seq![(fields[0].0@, s@)] + rest,
            JsonValue::Num(n) => seq![(fields[0].0@, n.text@)] + rest,
            JsonValue::Bool(b) => seq![
                (fields[0].0@, if b { "true"@ } else { "false"@ }),
            ] + rest,
            _ => rest,
        }
    }
}

/// Turns a header object into request pairs: string values as they are,
/// numbers and booleans rendered.
pub fn headers_value_to_map(headers: &JsonValue) -> (r: Vec<(String, String)>)
    ensures
        crate::xml::pairs_view(r@) == spec_headers_map(*headers),
{
    let mut out: Vec<(String, String)> = Vec::new();
    match headers {
        JsonValue::Obj(fields) => {
            let mut i: usize = 0;
            proof {
                assert(fields@.skip(0) =~= fields@);
                assert(crate::xml::pairs_view(out@) =~= Seq::<(Seq<char>, Seq<char>)>::empty());
            }
            while i < fields.len()
                invariant
                    i <= fields@.len(),
                    spec_headers_entries(fields@) =~= crate::xml::pairs_view(out@)
                        + spec_headers_entries(fields@.skip(i as int)),
                decreases fields@.len() - i,
            {
                proof {
                    assert(fields@.skip(i as int)[0] == fields@[i as int]);
                    assert(fields@.skip(i as int).drop_first() =~= fields@.skip(i as int + 1));
                }
                let ghost pre = crate::xml::pairs_view(out@);
                match &fields[i].1 {
                    JsonValue::Str(s) => {
                        out.push((fields[i].0.clone(), s.clone()));
                        proof {
                            assert(crate::xml::pairs_view(out@) =~= pre.push(
                                crate::xml::pair_view(out@.last()),
                            ));
                            assert(pre + spec_headers_entries(fields@.skip(i as int)) =~= crate::xml::pairs_view(
                                out@,
                            ) + spec_headers_entries(fields@.skip(i as int + 1)));
                        }
                    }
                    JsonValue::Num(n) => {
                        out.push((fields[i].0.clone(), n.text.clone()));
                        proof {
                            assert(crate::xml::pairs_view(out@) =~= pre.push(
                                crate::xml::pair_view(out@.last()),
                            ));
                            assert(pre + spec_headers_entries(fields@.skip(i as int)) =~= crate::xml::pairs_view(
                                out@,
                            ) + spec_headers_entries(fields@.skip(i as int + 1)));
                        }
                    }
                    JsonValue::Bool(b) => {
                        let text = if *b {
                            String::from_str("true")
                        } else {
                            String::from_str("false")
                        };
                        out.push((fields[i].0.clone(), text));
                        proof {
                            assert(crate::xml::pairs_view(out@) =~= pre.push(
                                crate::xml::pair_view(out@.last()),
                            ));
                            assert(pre + spec_headers_entries(fields@.skip(i as int)) =~= crate::xml::pairs_view(
                                out@,
                            ) + spec_headers_entries(fields@.skip(i as int + 1)));
                        }
                    }
                    _ => {}
                }
                i = i + 1;
            }
            proof {
                assert(fields@.skip(fields@.len() as int) =~= Seq::<(String, JsonValue)>::empty());
                assert(crate::xml::pairs_view(out@) + Seq::<(Seq<char>, Seq<char>)>::empty()
                    =~= crate::xml::pairs_view(out@));
            }
        }
        _ => {}
    }
    out
}

/// What `url::Url::parse` reads of an absolute URL: its scheme, its host,
/// and its port where one is written and is not the scheme's default (as
/// `Url::port` reports it); `None` where the text does not parse or has no
/// host.
pub uninterp spec fn spec_url_parts(s: Seq<char>) -> Option<(Seq<char>, Seq<char>, Option<u16>)>;

/// Relies on `url::Url::parse` (the parser reqwest re-exports) and its
/// `scheme`, `host_str` and `port` accessors.
#[verifier::external_body]
fn parse_url_parts(u: &str) -> (r: Option<(String, String, Option<u16>)>)
    ensures
        match r {
            Some(p) => spec_url_parts(u@) == Some((p.0@, p.1@, p.2)),
            None => spec_url_parts(u@) is None,
        },
{
    match url::Url::parse(u) {
        Ok(p) => match p.host_str() {
            Some(h) => Some((p.scheme().to_string(), h.to_string(), p.port())),
            None => None,
        },
        Err(_) => None,
    }
}

/// Whether a port is the scheme's default and is left out of an origin.
pub open spec fn spec_is_default_port(scheme: Seq<char>, port: u16) -> bool {
    (scheme == seq!['h', 't', 't', 'p'] && port == 80) || (scheme == seq![
        'h',
        't',
        't',
        'p',
        's',
    ] && port == 443)
}

/// Whether a port is the default for its scheme (80 for http, 443 for
/// https).
pub fn is_default_port(scheme: &str, port: u16) -> (r: bool)
    ensures
        r == spec_is_default_port(scheme@, port),
{
    proof {
        reveal_strlit("http");
        reveal_strlit("https");
        assert("http"@ =~= seq!['h', 't', 't', 'p']);
        assert("https"@ =~= seq!['h', 't', 't', 'p', 's']);
    }
    (crate::strutil::str_eq(scheme, "http") && port == 80) || (crate::strutil::str_eq(
        scheme,
        "https",
    ) && port == 443)
}

/// The origin of a URL: `scheme://host`, with the port kept only when it is
/// explicit and not the scheme's default.
pub open spec fn spec_origin(s: Seq<char>) -> Option<Seq<char>> {
    match spec_url_parts(s) {
        Some((scheme, host, port)) => Some(
            scheme + seq![':', '/', '/'] + host + (match port {
                Some(p) => if !spec_is_default_port(scheme, p) {
                    seq![':'] + spec_dec_u32(p as int)
                } else {
                    Seq::empty()
                },
                None => Seq::empty(),
            }),
        ),
        None => None,
    }
}

/// The origin of a URL, for the browser-fallback `Origin` and `Referer`
/// headers.
pub fn origin_for_url(u: &str) -> (r: Option<String>)
    ensures
        match r {
            Some(o) => spec_origin(u@) == Some(o@),
            None => spec_origin(u@) is None,
        },
{
    match parse_url_parts(u) {
        Some(parts) => {
            let (scheme, host, port) = parts;
            let mut out = String::new();
            out.append(scheme.as_str());
            push_char(&mut out, ':');
            push_char(&mut out, '/');
            push_char(&mut out, '/');
            out.append(host.as_str());
            proof {
                assert(out@ =~= scheme@ + seq![':', '/', '/'] + host@);
            }
            match port {
                Some(p) => {
                    if !is_default_port(scheme.as_str(), p) {
                        push_char(&mut out, ':');
                        append_dec_u32(&mut out, p as u32);
                        proof {
                            assert(out@ =~= scheme@ + seq![':', '/', '/'] + host@ + (seq![':']
                                + spec_dec_u32(p as int)));
                        }
                    } else {
                        proof {
                            assert(out@ =~= scheme@ + seq![':', '/', '/'] + host@
                                + Seq::<char>::empty());
                        }
                    }
                }
                None => {
                    proof {
                        assert(out@ =~= scheme@ + seq![':', '/', '/'] + host@
                            + Seq::<char>::empty());
                    }
                }
            }
            Some(out)
        }
        None => None,
    }
}

/// The browser-fallback header object used on retry: the defaults plus an
/// `Accept-Language`, and, when the URL parses, `Origin` and `Referer`.
pub open spec fn spec_is_browser_headers(r: JsonValue, ct: Seq<char>, url: Seq<char>) -> bool {
    match spec_origin(url) {
        Some(o) => {
            &&& r matches JsonValue::Obj(f)
            &&& f@.len() == 6
            &&& spec_member_is(f@[0], "Accept"@, spec_default_accept(ct))
            &&& spec_member_is(f@[1], "Accept-Language"@, "en-US,en;q=0.9"@)
            &&& spec_member_is(f@[2], "Cache-Control"@, "no-cache"@)
            &&& spec_member_is(f@[3], "Origin"@, o)
            &&& spec_member_is(f@[4], "Pragma"@, "no-cache"@)
            &&& spec_member_is(f@[5], "Referer"@, o + seq!['/'])
        }
        None => {
            &&& r matches JsonValue::Obj(f)
            &&& f@.len() == 4
            &&& spec_member_is(f@[0], "Accept"@, spec_default_accept(ct))
            &&& spec_member_is(f@[1], "Accept-Language"@, "en-US,en;q=0.9"@)
            &&& spec_member_is(f@[2], "Cache-Control"@, "no-cache"@)
            &&& spec_member_is(f@[3], "Pragma"@, "no-cache"@)
        }
    }
}

/// Synthesizes the browser-fallback headers for a retry: the transport's
/// defaults, an `Accept-Language`, and `Origin` and `Referer` when the URL
/// yields an origin.
pub fn browser_headers_value(connection_type: &str, url: &str) -> (r: JsonValue)
    ensures
        spec_is_browser_headers(r, connection_type@, url@),
{
    let accept = default_accept_string(connection_type);
    let mut fields: Vec<(String, JsonValue)> = Vec::new();
    fields.push((String::from_str("Accept"), JsonValue::Str(accept)));
    fields.push(
        (String::from_str("Accept-Language"), JsonValue::Str(String::from_str("en-US,en;q=0.9"))),
    );
    fields.push((String::from_str("Cache-Control"), JsonValue::Str(String::from_str("no-cache"))));
    match origin_for_url(url) {
        Some(origin) => {
            let mut referer = String::new();
            referer.append(origin.as_str());
            push_char(&mut referer, '/');
            proof {
                assert(referer@ =~= origin@ + seq!['/']);
            }
            fields.push((String::from_str("Origin"), JsonValue::Str(origin)));
            fields.push(
                (String::from_str("Pragma"), JsonValue::Str(String::from_str("no-cache"))),
            );
            fields.push((String::from_str("Referer"), JsonValue::Str(referer)));
        }
        None => {
            fields.push(
                (String::from_str("Pragma"), JsonValue::Str(String::from_str("no-cache"))),
            );
        }
    }
    JsonValue::Obj(fields)
}

/// Whether supplied headers count as empty: absent, or an object with no
/// members. Non-object values are not empty.
pub open spec fn spec_is_empty_headers(h: Option<JsonValue>) -> bool {
    match h {
        None => true,
        Some(v) => v matches JsonValue::Obj(f) && f@.len() == 0,
    }
}

/// Tests whether supplied headers count as empty.
pub fn is_empty_headers(headers: &Option<JsonValue>) -> (r: bool)
    ensures
        r == spec_is_empty_headers(*headers),
{
    match headers {
        None => true,
        Some(v) => match v {
            JsonValue::Obj(f) => f.len() == 0,
            _ => false,
        },
    }
}

/// Normalizes user-supplied headers for storage: transports that want
/// defaults get the default table in place of an empty or absent object;
/// everything else is stored as supplied.
pub fn normalize_headers_for_storage(
    connection_type: &str,
    headers_json: Option<JsonValue>,
) -> (r: Option<JsonValue>)
    ensures
        !spec_is_ws_type(connection_type@) && spec_is_empty_headers(headers_json) ==> (r
            matches Some(h) && spec_is_default_headers(h, connection_type@)),
        !(!spec_is_ws_type(connection_type@) && spec_is_empty_headers(headers_json)) ==> r
            == headers_json,
{
    if should_default_headers(connection_type) && is_empty_headers(&headers_json) {
        Some(default_headers_value(connection_type))
    } else {
        headers_json
    }
}

/// Whether a request for this connection falls back to the synthesized
/// defaults: a non-WebSocket transport whose supplied headers are not a
/// non-empty object.
pub open spec fn spec_used_default_headers(c: crate::model::Connection) -> bool {
    !spec_is_ws_type(c.connection_type@) && !(c.headers_json matches Some(h) && h matches
        JsonValue::Obj(f) && f@.len() > 0)
}

/// The request pairs resolved for a connection: the supplied headers where
/// they are usable, else the synthesized defaults.
pub open spec fn spec_resolved_headers(c: crate::model::Connection) -> Seq<
    (Seq<char>, Seq<char>),
> {
    if !spec_used_default_headers(c) {
        match c.headers_json {
            Some(h) => spec_headers_map(h),
            None => Seq::empty(),
        }
    } else {
        seq![
            ("Accept"@, spec_default_accept(c.connection_type@)),
            ("Cache-Control"@, "no-cache"@),
            ("Pragma"@, "no-cache"@),
        ]
    }
}

/// Resolves the headers for one HTTP request: caller-supplied headers when
/// present and non-empty, else the per-transport defaults; the flag says
/// whether the defaults were used, which permits the browser-fallback
/// retry.
pub fn resolve_headers_for_request(conn: &crate::model::Connection) -> (r: (
    Vec<(String, String)>,
    bool,
))
    ensures
        r.1 == spec_used_default_headers(*conn),
        crate::xml::pairs_view(r.0@) == spec_resolved_headers(*conn),
{
    if !should_default_headers(conn.connection_type.as_str()) {
        match &conn.headers_json {
            Some(h) => {
                return (headers_value_to_map(h), false);
            }
            None => {
                let empty: Vec<(String, String)> = Vec::new();
                proof {
                    assert(crate::xml::pairs_view(empty@) =~= Seq::<(Seq<char>, Seq<char>)>::empty());
                }
                return (empty, false);
            }
        }
    }
    match &conn.headers_json {
        Some(h) => {
            let nonempty = match h {
                JsonValue::Obj(f) => f.len() > 0,
                _ => false,
            };
            if nonempty {
                return (headers_value_to_map(h), false);
            }
        }
        None => {}
    }
    let defaults = default_headers_value(conn.connection_type.as_str());
    let map = headers_value_to_map(&defaults);
    proof {
        reveal_with_fuel(spec_headers_entries, 5);
        match defaults {
            JsonValue::Obj(f) => {
                assert(f@.drop_first() =~= f@.skip(1));
                assert(f@.skip(1).drop_first() =~= f@.skip(2));
                assert(f@.skip(2).drop_first() =~= f@.skip(3));
                assert(f@.skip(3) =~= Seq::<(String, JsonValue)>::empty());
                assert(f@.skip(1)[0] == f@[1] && f@.skip(2)[0] == f@[2]);
                assert(spec_headers_entries(f@) =~= spec_resolved_headers(*conn));
            }
            _ => {
                assert(false);
            }
        }
    }
    (map, true)
}

} // verus!
