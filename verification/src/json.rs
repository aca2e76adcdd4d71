//! The crate's own JSON model: payloads, mappings and header objects are held
//! as `JsonValue` trees of plain values, so that the extraction logic over
//! them can be verified. Parsing text into the model goes through serde_json
//! behind trusted wrappers.

use vstd::prelude::*;
use serde_json::Value;

verus! {

/// A JSON number, reduced to what the engine reads of it: the integer value
/// (the integral reading, or the float reading rounded half away from zero),
/// whether the number was integral, and its canonical decimal rendering.
pub struct JsonNum {
    pub value: i64,
    pub integral: bool,
    pub text: String,
}

/// A JSON document as a tree of plain values. Object members keep their
/// stored order; member lookup takes the first match.
pub enum JsonValue {
    Null,
    Bool(bool),
    Num(JsonNum),
    Str(String),
    Arr(Vec<JsonValue>),
    Obj(Vec<(String, JsonValue)>),
}

/// The first member of `fields` named `key`, if any.
pub open spec fn spec_obj_get(fields: Seq<(String, JsonValue)>, key: Seq<char>) -> Option<
    JsonValue,
>
    decreases fields.len(),
{
    if fields.len() == 0 {
        None
    } else if fields[0].0@ == key {
        Some(fields[0].1)
    } else {
        spec_obj_get(fields.drop_first(), key)
    }
}

/// Looks a key up among object members, first match wins.
pub fn obj_get<'a>(fields: &'a Vec<(String, JsonValue)>, key: &str) -> (r: Option<&'a JsonValue>)
    ensures
        match r {
            Some(v) => spec_obj_get(fields@, key@) == Some(*v),
            None => spec_obj_get(fields@, key@) is None,
        },
{
    let mut i: usize = 0;
    assert(fields@.skip(0) =~= fields@);
    while i < fields.len()
        invariant
            i <= fields@.len(),
            spec_obj_get(fields@, key@) == spec_obj_get(fields@.skip(i as int), key@),
        decreases fields@.len() - i,
    {
        proof {
            assert(fields@.skip(i as int)[0] == fields@[i as int]);
            assert(fields@.skip(i as int).drop_first() =~= fields@.skip(i as int + 1));
        }
        if crate::strutil::str_eq(fields[i].0.as_str(), key) {
            return Some(&fields[i].1);
        }
        i = i + 1;
    }
    None
}

/// The member of an object value named `key`; `None` for non-objects.
pub open spec fn spec_value_get(v: JsonValue, key: Seq<char>) -> Option<JsonValue> {
    match v {
        JsonValue::Obj(fields) => spec_obj_get(fields@, key),
        _ => None,
    }
}

/// A dotted path split at every dot; empty segments are kept, as
/// `str::split('.')` keeps them.
pub open spec fn spec_split_dots(s: Seq<char>) -> Seq<Seq<char>>
    decreases s.len(),
{
    if s.len() == 0 {
        seq![Seq::<char>::empty()]
    } else if s[0] == '.' {
        seq![Seq::<char>::empty()] + spec_split_dots(s.drop_first())
    } else {
        let rest = spec_split_dots(s.drop_first());
        seq![seq![s[0]] + rest[0]] + rest.drop_first()
    }
}

pub proof fn lemma_split_dots_len(s: Seq<char>)
    ensures
        spec_split_dots(s).len() >= 1,
    decreases s.len(),
{
    if s.len() > 0 {
        lemma_split_dots_len(s.drop_first());
    }
}

/// Prepending dot-free characters extends the first segment.
pub proof fn lemma_split_dots_prepend(p: Seq<char>, rest: Seq<char>)
    requires
        forall|i: int| 0 <= i < p.len() ==> p[i] != '.',
    ensures
        spec_split_dots(p + rest) == seq![p + spec_split_dots(rest)[0]] + spec_split_dots(
            rest,
        ).drop_first(),
    decreases p.len(),
{
    lemma_split_dots_len(rest);
    if p.len() == 0 {
        assert(p + rest =~= rest);
        assert(p + spec_split_dots(rest)[0] =~= spec_split_dots(rest)[0]);
        assert(seq![spec_split_dots(rest)[0]] + spec_split_dots(rest).drop_first()
            =~= spec_split_dots(rest));
    } else {
        let s = p + rest;
        assert(s[0] == p[0] && p[0] != '.');
        assert(s.drop_first() =~= p.drop_first() + rest);
        lemma_split_dots_prepend(p.drop_first(), rest);
        let r = spec_split_dots(p.drop_first() + rest);
        assert(spec_split_dots(s) == seq![seq![s[0]] + r[0]] + r.drop_first());
        assert(seq![s[0]] + (p.drop_first() + spec_split_dots(rest)[0]) =~= p + spec_split_dots(
            rest,
        )[0]);
        assert(r.drop_first() =~= spec_split_dots(rest).drop_first());
        assert(spec_split_dots(s) =~= seq![p + spec_split_dots(rest)[0]] + spec_split_dots(
            rest,
        ).drop_first());
    }
}

/// Splits a dotted path into its segments.
pub fn split_path(path: &str) -> (segs: Vec<String>)
    ensures
        segs@.map_values(|s: String| s@) == spec_split_dots(path@),
{
    let v = crate::strutil::str_chars(path);
    let mut segs: Vec<String> = Vec::new();
    let mut cur = String::new();
    let mut i: usize = 0;
    assert(cur@ + v@.skip(0) =~= path@);
    assert(segs@.map_values(|s: String| s@) =~= Seq::<Seq<char>>::empty());
    while i < v.len()
        invariant
            v@ == path@,
            i <= v@.len(),
            forall|j: int| 0 <= j < cur@.len() ==> cur@[j] != '.',
            spec_split_dots(path@) =~= segs@.map_values(|s: String| s@) + spec_split_dots(
                cur@ + v@.skip(i as int),
            ),
        decreases v@.len() - i,
    {
        let ghost rest = v@.skip(i as int);
        proof {
            assert(rest[0] == v@[i as int]);
            assert(rest.drop_first() =~= v@.skip(i as int + 1));
        }
        let c = v[i];
        if c == '.' {
            proof {
                lemma_split_dots_prepend(cur@, rest);
                lemma_split_dots_len(rest.drop_first());
                assert(spec_split_dots(rest) == seq![Seq::<char>::empty()] + spec_split_dots(
                    rest.drop_first(),
                ));
                assert(spec_split_dots(rest)[0] =~= Seq::<char>::empty());
                assert(cur@ + spec_split_dots(rest)[0] =~= cur@);
                assert(Seq::<char>::empty() + rest.drop_first() =~= rest.drop_first());
                assert(spec_split_dots(cur@ + rest) =~= seq![cur@] + spec_split_dots(
                    rest.drop_first(),
                ));
            }
            let done = cur;
            segs.push(done);
            cur = String::new();
            proof {
                assert(segs@.map_values(|s: String| s@) =~= segs@.drop_last().map_values(
                    |s: String| s@,
                ).push(segs@.last()@));
                assert(cur@ + v@.skip(i as int + 1) =~= v@.skip(i as int + 1));
            }
        } else {
            proof {
                assert((cur@ + rest) =~= (cur@.push(c) + rest.drop_first()));
            }
            crate::strutil::push_char(&mut cur, c);
        }
        i = i + 1;
    }
    proof {
        assert(cur@ + v@.skip(i as int) =~= cur@);
        lemma_split_dots_prepend(cur@, Seq::<char>::empty());
        assert(spec_split_dots(Seq::<char>::empty()) == seq![Seq::<char>::empty()]);
        assert(cur@ + Seq::<char>::empty() =~= cur@);
        assert(spec_split_dots(cur@) =~= seq![cur@]);
    }
    segs.push(cur);
    proof {
        assert(segs@.map_values(|s: String| s@) =~= segs@.drop_last().map_values(
            |s: String| s@,
        ).push(segs@.last()@));
    }
    segs
}

/// Descends through object members along path segments, skipping empty
/// segments; a non-object met by a non-empty segment yields `None`.
pub open spec fn spec_resolve_segs(v: JsonValue, segs: Seq<Seq<char>>) -> Option<JsonValue>
    decreases segs.len(),
{
    if segs.len() == 0 {
        Some(v)
    } else if segs[0].len() == 0 {
        spec_resolve_segs(v, segs.drop_first())
    } else {
        match spec_value_get(v, segs[0]) {
            Some(next) => spec_resolve_segs(next, segs.drop_first()),
            None => None,
        }
    }
}

/// What a dotted path names inside a JSON value.
pub open spec fn spec_get_path(v: JsonValue, path: Seq<char>) -> Option<JsonValue> {
    spec_resolve_segs(v, spec_split_dots(path))
}

/// Resolves a dotted path inside a JSON value: `a.b.c` descends through
/// nested object members; empty segments are skipped; arrays are not indexed.
pub fn get_path<'a>(v: &'a JsonValue, path: &str) -> (r: Option<&'a JsonValue>)
    ensures
        match r {
            Some(out) => spec_get_path(*v, path@) == Some(*out),
            None => spec_get_path(*v, path@) is None,
        },
{
    let segs = split_path(path);
    let ghost all = spec_split_dots(path@);
    let mut cur: &JsonValue = v;
    let mut i: usize = 0;
    assert(all.skip(0) =~= all);
    while i < segs.len()
        invariant
            all == spec_split_dots(path@),
            segs@.map_values(|s: String| s@) == all,
            i <= segs@.len(),
            spec_resolve_segs(*v, all) == spec_resolve_segs(*cur, all.skip(i as int)),
        decreases segs@.len() - i,
    {
        let ghost rest = all.skip(i as int);
        proof {
            assert(rest[0] == all[i as int] && all[i as int] == segs@[i as int]@);
            assert(rest.drop_first() =~= all.skip(i as int + 1));
        }
        let seg = &segs[i];
        if seg.as_str().is_empty() {
            i = i + 1;
            continue;
        }
        match cur {
            JsonValue::Obj(fields) => {
                match obj_get(fields, seg.as_str()) {
                    Some(next) => {
                        proof {
                            assert(spec_value_get(*cur, rest[0]) == Some(*next));
                            assert(spec_resolve_segs(*cur, rest) == spec_resolve_segs(
                                *next,
                                rest.drop_first(),
                            ));
                        }
                        cur = next;
                        i = i + 1;
                    }
                    None => {
                        assert(seg@.len() != 0);
                        assert(rest[0] == seg@);
                        assert(spec_value_get(*cur, rest[0]) is None);
                        assert(spec_resolve_segs(*cur, rest) is None);
                        return None;
                    }
                }
            }
            _ => {
                assert(seg@.len() != 0);
                assert(rest[0] == seg@);
                assert(spec_value_get(*cur, rest[0]) is None);
                assert(spec_resolve_segs(*cur, rest) is None);
                return None;
            }
        }
    }
    proof {
        assert(all.skip(i as int) =~= Seq::<Seq<char>>::empty());
    }
    Some(cur)
}

/// The string content of a JSON string value.
pub open spec fn spec_as_str(v: JsonValue) -> Option<Seq<char>> {
    match v {
        JsonValue::Str(s) => Some(s@),
        _ => None,
    }
}

#[verifier::external_type_specification]
#[verifier::external_body]
pub struct ExSerdeValue(serde_json::Value);

/// What `serde_json::from_str::<serde_json::Value>` yields on a text, carried
/// into the crate's JSON model: `None` where the text is not valid JSON.
pub uninterp spec fn spec_json_parse(s: Seq<char>) -> Option<JsonValue>;

/// Relies on `serde_json::from_str::<serde_json::Value>`: parses a JSON text,
/// converted into the crate's model by `json_of_serde`.
#[verifier::external_body]
pub fn parse_json(s: &str) -> (r: Option<JsonValue>)
    ensures
        r == spec_json_parse(s@),
{
    serde_json::from_str::<serde_json::Value>(s).ok().map(|v| json_of_serde(&v))
}

/// What `serde_xml_rs::from_str::<serde_json::Value>` yields on an XML text,
/// carried into the crate's JSON model: `None` where it does not deserialize.
pub uninterp spec fn spec_xml_json_parse(s: Seq<char>) -> Option<JsonValue>;

/// Relies on `serde_xml_rs::from_str::<serde_json::Value>`: deserializes an
/// XML document into a JSON value, converted into the crate's model.
#[verifier::external_body]
pub fn parse_xml_as_json(s: &str) -> (r: Option<JsonValue>)
    ensures
        r == spec_xml_json_parse(s@),
{
    serde_xml_rs::from_str::<serde_json::Value>(s).ok().map(|v| json_of_serde(&v))
}

/// Relies on `serde_json::Value`'s accessors: converts each variant of the
/// serde tree into the crate's model, one arm per variant. A number keeps its
/// integral reading (or its float reading rounded, as `f64::round` rounds)
/// and its canonical rendering from `serde_json`'s `Display`.
#[verifier::external_body]
fn json_of_serde(v: &Value) -> JsonValue {
    match v {
        Value::Null => JsonValue::Null,
        Value::Bool(b) => JsonValue::Bool(*b),
        Value::Number(n) => JsonValue::Num(JsonNum {
            value: n.as_i64().unwrap_or_else(|| n.as_f64().map(|f| f.round() as i64).unwrap_or(0)),
            integral: n.as_i64().is_some(),
            text: n.to_string(),
        }),
        Value::String(s) => JsonValue::Str(s.clone()),
        Value::Array(a) => JsonValue::Arr(a.iter().map(json_of_serde_item).collect()),
        Value::Object(o) => JsonValue::Obj(o.iter().map(|(k, w)| (k.clone(), json_of_serde(w))).collect()),
    }
}

/// Relies on `serde_json::Value`: the by-reference form of `json_of_serde`
/// handed to the array conversion.
#[verifier::external_body]
fn json_of_serde_item(v: &Value) -> JsonValue {
    json_of_serde(v)
}

} // verus!
