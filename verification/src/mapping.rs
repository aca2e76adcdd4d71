//! The mapping engine: a pure function from a decoded payload, an optional
//! declarative mapping and the transport family to the extracted track
//! fields (artist, title, album, reported-at, duration).

use vstd::prelude::*;

verus! {

use crate::json::{JsonValue, spec_obj_get, spec_as_str, spec_get_path, obj_get, get_path};
use crate::times::{spec_parse_reported_at, spec_parse_duration_str, spec_parse_duration_value,
    parse_reported_at, parse_duration_seconds_str, parse_duration_seconds_value,
    MAX_TIMESTAMP_SECS};
use crate::transport::spec_is_xml_type;
use crate::xml::{spec_xml_values, spec_xml_lookup, extract_xml_values, xml_lookup, pairs_view};

/// The fields extracted from one payload, each optional.
pub struct ExtractedFields {
    pub artist: Option<String>,
    pub title: Option<String>,
    pub album: Option<String>,
    pub reported_at: Option<i64>,
    pub duration_seconds: Option<i64>,
}

/// The view of extracted fields: texts and plain values.
pub open spec fn fields_view(f: ExtractedFields) -> (
    Option<Seq<char>>,
    Option<Seq<char>>,
    Option<Seq<char>>,
    Option<i64>,
    Option<i64>,
) {
    (f.artist.deep_view(), f.title.deep_view(), f.album.deep_view(), f.reported_at,
    f.duration_seconds)
}

/// The empty extraction.
pub open spec fn spec_no_fields() -> (
    Option<Seq<char>>,
    Option<Seq<char>>,
    Option<Seq<char>>,
    Option<i64>,
    Option<i64>,
) {
    (None, None, None, None, None)
}

/// Whether an extraction found anything at all.
pub open spec fn spec_has_any(
    t: (Option<Seq<char>>, Option<Seq<char>>, Option<Seq<char>>, Option<i64>, Option<i64>),
) -> bool {
    t.0 is Some || t.1 is Some || t.2 is Some || t.3 is Some || t.4 is Some
}

/// The string under `key` in the mapping object; `None` where the mapping is
/// not an object, the key is absent, or its value is not a string.
pub open spec fn spec_mapping_key(m: JsonValue, key: Seq<char>) -> Option<Seq<char>> {
    match m {
        JsonValue::Obj(fields) => match spec_obj_get(fields@, key) {
            Some(v) => spec_as_str(v),
            None => None,
        },
        _ => None,
    }
}

/// The extraction base: the first element of the list `list_path` names when
/// it names a non-empty array, else the payload itself.
pub open spec fn spec_candidate_target(base: JsonValue, m: JsonValue) -> JsonValue {
    match spec_mapping_key(m, "list_path"@) {
        Some(lp) => match spec_get_path(base, lp) {
            Some(JsonValue::Arr(a)) => if a@.len() > 0 {
                a@[0]
            } else {
                base
            },
            _ => base,
        },
        None => base,
    }
}

/// The string leaf a mapping path names inside the target.
pub open spec fn spec_path_str(target: JsonValue, m: JsonValue, key: Seq<char>) -> Option<
    Seq<char>,
> {
    match spec_mapping_key(m, key) {
        Some(p) => match spec_get_path(target, p) {
            Some(v) => spec_as_str(v),
            None => None,
        },
        None => None,
    }
}

/// One extraction attempt against a mapping: resolve the list target, then
/// each configured path.
pub open spec fn spec_try_candidate(base: JsonValue, m: JsonValue) -> (
    Option<Seq<char>>,
    Option<Seq<char>>,
    Option<Seq<char>>,
    Option<i64>,
    Option<i64>,
) {
    let target = spec_candidate_target(base, m);
    (
        spec_path_str(target, m, "artist_path"@),
        spec_path_str(target, m, "title_path"@),
        spec_path_str(target, m, "album_path"@),
        match spec_path_str(target, m, "reported_at_path"@) {
            Some(s) => spec_parse_reported_at(s),
            None => None,
        },
        match spec_mapping_key(m, "duration_path"@) {
            Some(p) => match spec_get_path(target, p) {
                Some(v) => spec_parse_duration_value(v),
                None => None,
            },
            None => None,
        },
    )
}

/// Extraction from an XML payload: mapping paths resolved against the flat
/// path map of the document.
pub open spec fn spec_xml_extract(xml: Seq<char>, m: JsonValue) -> (
    Option<Seq<char>>,
    Option<Seq<char>>,
    Option<Seq<char>>,
    Option<i64>,
    Option<i64>,
) {
    let values = spec_xml_values(xml);
    let lp = spec_mapping_key(m, "list_path"@);
    (
        match spec_mapping_key(m, "artist_path"@) {
            Some(p) => spec_xml_lookup(values, lp, p),
            None => None,
        },
        match spec_mapping_key(m, "title_path"@) {
            Some(p) => spec_xml_lookup(values, lp, p),
            None => None,
        },
        match spec_mapping_key(m, "album_path"@) {
            Some(p) => spec_xml_lookup(values, lp, p),
            None => None,
        },
        match spec_mapping_key(m, "reported_at_path"@) {
            Some(p) => match spec_xml_lookup(values, lp, p) {
                Some(s) => spec_parse_reported_at(s),
                None => None,
            },
            None => None,
        },
        match spec_mapping_key(m, "duration_path"@) {
            Some(p) => match spec_xml_lookup(values, lp, p) {
                Some(s) => spec_parse_duration_str(s),
                None => None,
            },
            None => None,
        },
    )
}

/// The value under the first present key of the list.
pub open spec fn spec_first_present(
    fields: Seq<(String, JsonValue)>,
    keys: Seq<Seq<char>>,
) -> Option<JsonValue>
    decreases keys.len(),
{
    if keys.len() == 0 {
        None
    } else {
        match spec_obj_get(fields, keys[0]) {
            Some(v) => Some(v),
            None => spec_first_present(fields, keys.drop_first()),
        }
    }
}

/// The string content of an optional value.
pub open spec fn spec_as_str_opt(v: Option<JsonValue>) -> Option<Seq<char>> {
    match v {
        Some(v) => spec_as_str(v),
        None => None,
    }
}

/// Best-effort extraction without a mapping: probe well-known keys at the
/// root, or recurse on the first element of an array.
pub open spec fn spec_best_effort(p: JsonValue) -> (
    Option<Seq<char>>,
    Option<Seq<char>>,
    Option<Seq<char>>,
    Option<i64>,
    Option<i64>,
)
    decreases p,
{
    match p {
        JsonValue::Obj(fields) => (
            spec_as_str_opt(spec_first_present(fields@, seq!["artist"@, "artistName"@])),
            spec_as_str_opt(spec_first_present(fields@, seq!["title"@, "song"@, "trackName"@])),
            spec_as_str_opt(spec_first_present(fields@, seq!["album"@, "collectionName"@])),
            None,
            match spec_first_present(
                fields@,
                seq!["duration"@, "durationSeconds"@, "duration_seconds"@],
            ) {
                Some(v) => spec_parse_duration_value(v),
                None => None,
            },
        ),
        JsonValue::Arr(a) => if a@.len() > 0 {
            spec_best_effort(a@[0])
        } else {
            spec_no_fields()
        },
        _ => spec_no_fields(),
    }
}

/// What the mapping engine yields on a payload: the XML path for XML
/// transports with a string payload, one or two mapping attempts (the second
/// after unwrapping a single-keyed envelope), or the best-effort probe when
/// no mapping is configured.
pub open spec fn spec_extract_fields(
    payload: JsonValue,
    mapping: Option<JsonValue>,
    ct: Seq<char>,
) -> (Option<Seq<char>>, Option<Seq<char>>, Option<Seq<char>>, Option<i64>, Option<i64>) {
    match mapping {
        Some(m) => {
            if spec_is_xml_type(ct) && payload matches JsonValue::Str(_) {
                spec_xml_extract(payload->Str_0@, m)
            } else {
                let first = spec_try_candidate(payload, m);
                if spec_has_any(first) {
                    first
                } else {
                    match payload {
                        JsonValue::Obj(fields) => if fields@.len() == 1 {
                            let second = spec_try_candidate(fields@[0].1, m);
                            if spec_has_any(second) {
                                second
                            } else {
                                spec_no_fields()
                            }
                        } else {
                            spec_no_fields()
                        },
                        _ => spec_no_fields(),
                    }
                }
            }
        }
        None => spec_best_effort(payload),
    }
}

/// Reads the string under `key` in the mapping object.
fn mapping_key<'a>(m: &'a JsonValue, key: &str) -> (r: Option<&'a String>)
    ensures
        match r {
            Some(s) => spec_mapping_key(*m, key@) == Some(s@),
            None => spec_mapping_key(*m, key@) is None,
        },
{
    match m {
        JsonValue::Obj(fields) => match obj_get(fields, key) {
            Some(v) => match v {
                JsonValue::Str(s) => Some(s),
                _ => None,
            },
            None => None,
        },
        _ => None,
    }
}

/// Resolves the extraction base for one candidate payload.
fn candidate_target<'a>(base: &'a JsonValue, m: &JsonValue) -> (t: &'a JsonValue)
    ensures
        *t == spec_candidate_target(*base, *m),
{
    match mapping_key(m, "list_path") {
        Some(lp) => match get_path(base, lp.as_str()) {
            Some(v) => match v {
                JsonValue::Arr(a) => {
                    if a.len() > 0 {
                        &a[0]
                    } else {
                        base
                    }
                }
                _ => base,
            },
            None => base,
        },
        None => base,
    }
}

/// Reads the string leaf a mapping path names inside the target.
fn path_str<'a>(target: &'a JsonValue, m: &JsonValue, key: &str) -> (r: Option<&'a String>)
    ensures
        match r {
            Some(s) => spec_path_str(*target, *m, key@) == Some(s@),
            None => spec_path_str(*target, *m, key@) is None,
        },
{
    match mapping_key(m, key) {
        Some(p) => match get_path(target, p.as_str()) {
            Some(v) => match v {
                JsonValue::Str(s) => Some(s),
                _ => None,
            },
            None => None,
        },
        None => None,
    }
}

/// One extraction attempt against a mapping.
fn try_candidate(base: &JsonValue, m: &JsonValue) -> (f: ExtractedFields)
    ensures
        fields_view(f) == spec_try_candidate(*base, *m),
        f.reported_at matches Some(t) ==> -MAX_TIMESTAMP_SECS <= t <= MAX_TIMESTAMP_SECS,
{
    let target = candidate_target(base, m);
    let artist = match path_str(target, m, "artist_path") {
        Some(s) => Some(s.clone()),
        None => None,
    };
    let title = match path_str(target, m, "title_path") {
        Some(s) => Some(s.clone()),
        None => None,
    };
    let album = match path_str(target, m, "album_path") {
        Some(s) => Some(s.clone()),
        None => None,
    };
    let reported_at = match path_str(target, m, "reported_at_path") {
        Some(s) => parse_reported_at(s.as_str()),
        None => None,
    };
    let duration_seconds = match mapping_key(m, "duration_path") {
        Some(p) => match get_path(target, p.as_str()) {
            Some(v) => parse_duration_seconds_value(v),
            None => None,
        },
        None => None,
    };
    ExtractedFields { artist, title, album, reported_at, duration_seconds }
}

/// Whether any field was found.
fn has_any(f: &ExtractedFields) -> (r: bool)
    ensures
        r == spec_has_any(fields_view(*f)),
{
    f.artist.is_some() || f.title.is_some() || f.album.is_some() || f.reported_at.is_some()
        || f.duration_seconds.is_some()
}

/// Extraction from an XML payload.
fn xml_extract(xml: &str, m: &JsonValue) -> (f: ExtractedFields)
    ensures
        fields_view(f) == spec_xml_extract(xml@, *m),
        f.reported_at matches Some(t) ==> -MAX_TIMESTAMP_SECS <= t <= MAX_TIMESTAMP_SECS,
{
    let values = extract_xml_values(xml);
    proof {
        assert(pairs_view(values@) == spec_xml_values(xml@));
    }
    let lp = mapping_key(m, "list_path");
    let lp_str: Option<&str> = match lp {
        Some(s) => Some(s.as_str()),
        None => None,
    };
    let artist = match mapping_key(m, "artist_path") {
        Some(p) => xml_lookup(&values, lp_str, p.as_str()),
        None => None,
    };
    let title = match mapping_key(m, "title_path") {
        Some(p) => xml_lookup(&values, lp_str, p.as_str()),
        None => None,
    };
    let album = match mapping_key(m, "album_path") {
        Some(p) => xml_lookup(&values, lp_str, p.as_str()),
        None => None,
    };
    let reported_at = match mapping_key(m, "reported_at_path") {
        Some(p) => match xml_lookup(&values, lp_str, p.as_str()) {
            Some(s) => parse_reported_at(s.as_str()),
            None => None,
        },
        None => None,
    };
    let duration_seconds = match mapping_key(m, "duration_path") {
        Some(p) => match xml_lookup(&values, lp_str, p.as_str()) {
            Some(s) => parse_duration_seconds_str(s.as_str()),
            None => None,
        },
        None => None,
    };
    ExtractedFields { artist, title, album, reported_at, duration_seconds }
}

/// The value under the first present of two keys.
fn first_present2<'a>(fields: &'a Vec<(String, JsonValue)>, k1: &str, k2: &str) -> (r: Option<
    &'a JsonValue,
>)
    ensures
        match r {
            Some(v) => spec_first_present(fields@, seq![k1@, k2@]) == Some(*v),
            None => spec_first_present(fields@, seq![k1@, k2@]) is None,
        },
{
    proof {
        reveal_with_fuel(spec_first_present, 3);
        assert(seq![k1@, k2@][0] == k1@);
        assert(seq![k1@, k2@].drop_first() =~= seq![k2@]);
        assert(seq![k2@][0] == k2@);
        assert(seq![k2@].drop_first() =~= Seq::<Seq<char>>::empty());
    }
    match obj_get(fields, k1) {
        Some(v) => Some(v),
        None => obj_get(fields, k2),
    }
}

/// The value under the first present of three keys.
fn first_present3<'a>(fields: &'a Vec<(String, JsonValue)>, k1: &str, k2: &str, k3: &str) -> (r:
    Option<&'a JsonValue>)
    ensures
        match r {
            Some(v) => spec_first_present(fields@, seq![k1@, k2@, k3@]) == Some(*v),
            None => spec_first_present(fields@, seq![k1@, k2@, k3@]) is None,
        },
{
    proof {
        reveal_with_fuel(spec_first_present, 4);
        assert(seq![k1@, k2@, k3@][0] == k1@);
        assert(seq![k1@, k2@, k3@].drop_first() =~= seq![k2@, k3@]);
        assert(seq![k2@, k3@][0] == k2@);
        assert(seq![k2@, k3@].drop_first() =~= seq![k3@]);
        assert(seq![k3@][0] == k3@);
        assert(seq![k3@].drop_first() =~= Seq::<Seq<char>>::empty());
    }
    match obj_get(fields, k1) {
        Some(v) => Some(v),
        None => match obj_get(fields, k2) {
            Some(v) => Some(v),
            None => obj_get(fields, k3),
        },
    }
}

/// Clones the string content of an optional value.
fn as_str_clone(v: Option<&JsonValue>) -> (r: Option<String>)
    ensures
        r.deep_view() == spec_as_str_opt(
            match v {
                Some(w) => Some(*w),
                None => None,
            },
        ),
{
    match v {
        Some(w) => match w {
            JsonValue::Str(s) => Some(s.clone()),
            _ => None,
        },
        None => None,
    }
}

/// Best-effort extraction without a mapping.
fn best_effort(p: &JsonValue) -> (f: ExtractedFields)
    ensures
        fields_view(f) == spec_best_effort(*p),
        f.reported_at is None,
    decreases *p,
{
    match p {
        JsonValue::Obj(fields) => {
            let artist = as_str_clone(first_present2(fields, "artist", "artistName"));
            let title = as_str_clone(first_present3(fields, "title", "song", "trackName"));
            let album = as_str_clone(first_present2(fields, "album", "collectionName"));
            let duration_seconds = match first_present3(
                fields,
                "duration",
                "durationSeconds",
                "duration_seconds",
            ) {
                Some(v) => parse_duration_seconds_value(v),
                None => None,
            };
            ExtractedFields { artist, title, album, reported_at: None, duration_seconds }
        }
        JsonValue::Arr(a) => {
            if a.len() > 0 {
                let f = best_effort(&a[0]);
                f
            } else {
                ExtractedFields {
                    artist: None,
                    title: None,
                    album: None,
                    reported_at: None,
                    duration_seconds: None,
                }
            }
        }
        _ => ExtractedFields {
            artist: None,
            title: None,
            album: None,
            reported_at: None,
            duration_seconds: None,
        },
    }
}

/// Extracts track fields from a decoded payload: with a mapping, XML paths
/// for XML transports, else one or two JSON attempts (the second after
/// unwrapping a single-keyed envelope); without one, the best-effort probe.
pub fn extract_fields(
    payload: &JsonValue,
    mapping: Option<&JsonValue>,
    connection_type: &str,
) -> (f: ExtractedFields)
    ensures
        fields_view(f) == spec_extract_fields(
            *payload,
            match mapping {
                Some(m) => Some(*m),
                None => None,
            },
            connection_type@,
        ),
        f.reported_at matches Some(t) ==> -MAX_TIMESTAMP_SECS <= t <= MAX_TIMESTAMP_SECS,
{
    match mapping {
        Some(m) => {
            let is_xml = crate::transport::is_xml_connection_type(connection_type);
            if is_xml {
                match payload {
                    JsonValue::Str(xml) => {
                        return xml_extract(xml.as_str(), m);
                    }
                    _ => {}
                }
            }
            let first = try_candidate(payload, m);
            if has_any(&first) {
                return first;
            }
            match payload {
                JsonValue::Obj(fields) => {
                    if fields.len() == 1 {
                        let second = try_candidate(&fields[0].1, m);
                        if has_any(&second) {
                            return second;
                        }
                    }
                }
                _ => {}
            }
            ExtractedFields {
                artist: None,
                title: None,
                album: None,
                reported_at: None,
                duration_seconds: None,
            }
        }
        None => best_effort(payload),
    }
}

} // verus!
