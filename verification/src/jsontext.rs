//! Serialization of the crate's JSON model back to text, used to hash a
//! payload and to compose WebSocket subscribe messages. The rendering matches
//! what serde_json emits for the same tree: members in stored order, strings
//! escaped with the short escapes plus `\u00..` for other control characters,
//! numbers by their canonical rendering.

use vstd::prelude::*;

verus! {

use crate::json::JsonValue;
use crate::strutil::push_char;
use crate::hashing::{spec_hex_digit, hex_digit_char};

/// The escape of one character inside a JSON string literal.
pub open spec fn spec_esc_char(c: char) -> Seq<char> {
    let u = c as u32;
    if c == '"' {
        seq!['\\', '"']
    } else if c == '\\' {
        seq!['\\', '\\']
    } else if u == 0x08 {
        seq!['\\', 'b']
    } else if u == 0x09 {
        seq!['\\', 't']
    } else if u == 0x0A {
        seq!['\\', 'n']
    } else if u == 0x0C {
        seq!['\\', 'f']
    } else if u == 0x0D {
        seq!['\\', 'r']
    } else if u < 0x20 {
        seq!['\\', 'u', '0', '0', spec_hex_digit(u as int / 16), spec_hex_digit(u as int % 16)]
    } else {
        seq![c]
    }
}

/// A string escaped for a JSON string literal.
pub open spec fn spec_esc(s: Seq<char>) -> Seq<char>
    decreases s.len(),
{
    if s.len() == 0 {
        Seq::empty()
    } else {
        spec_esc_char(s[0]) + spec_esc(s.drop_first())
    }
}

/// Escaping distributes over concatenation.
pub proof fn lemma_esc_concat(a: Seq<char>, b: Seq<char>)
    ensures
        spec_esc(a + b) == spec_esc(a) + spec_esc(b),
    decreases a.len(),
{
    if a.len() == 0 {
        assert(a + b =~= b);
        assert(spec_esc(a) + spec_esc(b) =~= spec_esc(b));
    } else {
        assert((a + b).drop_first() =~= a.drop_first() + b);
        lemma_esc_concat(a.drop_first(), b);
        assert(spec_esc(a + b) =~= spec_esc(a) + spec_esc(b));
    }
}

/// The text of a JSON value.
pub open spec fn spec_json_text(v: JsonValue) -> Seq<char>
    decreases v,
{
    match v {
        JsonValue::Null => seq!['n', 'u', 'l', 'l'],
        JsonValue::Bool(b) => if b {
            seq!['t', 'r', 'u', 'e']
        } else {
            seq!['f', 'a', 'l', 's', 'e']
        },
        JsonValue::Num(n) => n.text@,
        JsonValue::Str(s) => seq!['"'] + spec_esc(s@) + seq!['"'],
        JsonValue::Arr(a) => seq!['['] + spec_items(a@) + seq![']'],
        JsonValue::Obj(o) => seq!['{'] + spec_members(o@) + seq!['}'],
    }
}

/// The comma-separated texts of array items.
pub open spec fn spec_items(vs: Seq<JsonValue>) -> Seq<char>
    decreases vs,
{
    if vs.len() == 0 {
        Seq::empty()
    } else {
        spec_json_text(vs[0]) + spec_items_tail(vs.drop_first())
    }
}

/// The items after the first, each preceded by a comma.
pub open spec fn spec_items_tail(vs: Seq<JsonValue>) -> Seq<char>
    decreases vs,
{
    if vs.len() == 0 {
        Seq::empty()
    } else {
        seq![','] + spec_json_text(vs[0]) + spec_items_tail(vs.drop_first())
    }
}

/// The text of one object member: quoted escaped key, colon, value.
pub open spec fn spec_member(p: (String, JsonValue)) -> Seq<char>
    decreases p,
{
    seq!['"'] + spec_esc(p.0@) + seq!['"', ':'] + spec_json_text(p.1)
}

/// The comma-separated texts of object members.
pub open spec fn spec_members(ps: Seq<(String, JsonValue)>) -> Seq<char>
    decreases ps,
{
    if ps.len() == 0 {
        Seq::empty()
    } else {
        spec_member(ps[0]) + spec_members_tail(ps.drop_first())
    }
}

/// The members after the first, each preceded by a comma.
pub open spec fn spec_members_tail(ps: Seq<(String, JsonValue)>) -> Seq<char>
    decreases ps,
{
    if ps.len() == 0 {
        Seq::empty()
    } else {
        seq![','] + spec_member(ps[0]) + spec_members_tail(ps.drop_first())
    }
}

/// Appends the escaped form of `s` to `out`.
fn write_escaped(s: &str, out: &mut String)
    ensures
        final(out)@ == old(out)@ + spec_esc(s@),
{
    let cs = crate::strutil::str_chars(s);
    let mut i: usize = 0;
    proof {
        assert(s@.take(0) =~= Seq::<char>::empty());
        assert(old(out)@ + spec_esc(s@.take(0)) =~= old(out)@);
    }
    while i < cs.len()
        invariant
            cs@ == s@,
            i <= cs@.len(),
            out@ == old(out)@ + spec_esc(s@.take(i as int)),
        decreases cs@.len() - i,
    {
        let c = cs[i];
        let u = c as u32;
        if c == '"' {
            push_char(out, '\\');
            push_char(out, '"');
        } else if c == '\\' {
            push_char(out, '\\');
            push_char(out, '\\');
        } else if u == 0x08 {
            push_char(out, '\\');
            push_char(out, 'b');
        } else if u == 0x09 {
            push_char(out, '\\');
            push_char(out, 't');
        } else if u == 0x0A {
            push_char(out, '\\');
            push_char(out, 'n');
        } else if u == 0x0C {
            push_char(out, '\\');
            push_char(out, 'f');
        } else if u == 0x0D {
            push_char(out, '\\');
            push_char(out, 'r');
        } else if u < 0x20 {
            push_char(out, '\\');
            push_char(out, 'u');
            push_char(out, '0');
            push_char(out, '0');
            let hi = hex_digit_char(u / 16);
            push_char(out, hi);
            let lo = hex_digit_char(u % 16);
            push_char(out, lo);
        } else {
            push_char(out, c);
        }
        proof {
            assert(s@.take(i as int + 1) =~= s@.take(i as int) + seq![s@[i as int]]);
            lemma_esc_concat(s@.take(i as int), seq![s@[i as int]]);
            assert(seq![s@[i as int]].drop_first() =~= Seq::<char>::empty());
            assert(spec_esc_char(s@[i as int]) + Seq::<char>::empty() =~= spec_esc_char(
                s@[i as int],
            ));
            assert(seq![s@[i as int]].len() == 1 && seq![s@[i as int]][0] == s@[i as int]);
            assert(spec_esc(Seq::<char>::empty()) =~= Seq::<char>::empty());
            assert(spec_esc(seq![s@[i as int]]) == spec_esc_char(seq![s@[i as int]][0]) + spec_esc(
                seq![s@[i as int]].drop_first(),
            ));
            assert(spec_esc(seq![s@[i as int]]) =~= spec_esc_char(s@[i as int]));
            assert(out@ =~= old(out)@ + spec_esc(s@.take(i as int + 1)));
        }
        i = i + 1;
    }
    proof {
        assert(s@.take(cs@.len() as int) =~= s@);
    }
}

/// Appends the text of `v` to `out`.
#[verifier::loop_isolation(false)]
pub fn write_json(v: &JsonValue, out: &mut String)
    ensures
        final(out)@ == old(out)@ + spec_json_text(*v),
    decreases *v,
{
    match v {
        JsonValue::Null => {
            push_char(out, 'n');
            push_char(out, 'u');
            push_char(out, 'l');
            push_char(out, 'l');
            assert(out@ =~= old(out)@ + spec_json_text(*v));
        }
        JsonValue::Bool(b) => {
            if *b {
                push_char(out, 't');
                push_char(out, 'r');
                push_char(out, 'u');
                push_char(out, 'e');
            } else {
                push_char(out, 'f');
                push_char(out, 'a');
                push_char(out, 'l');
                push_char(out, 's');
                push_char(out, 'e');
            }
            assert(out@ =~= old(out)@ + spec_json_text(*v));
        }
        JsonValue::Num(n) => {
            out.append(n.text.as_str());
        }
        JsonValue::Str(s) => {
            push_char(out, '"');
            write_escaped(s.as_str(), out);
            push_char(out, '"');
            assert(out@ =~= old(out)@ + spec_json_text(*v));
        }
        JsonValue::Arr(a) => {
            push_char(out, '[');
            if a.len() > 0 {
                write_json(&a[0], out);
                proof {
                    assert(out@ + spec_items_tail(a@.skip(1)) =~= old(out)@ + seq!['[']
                        + spec_items(a@));
                }
                let mut i: usize = 1;
                while i < a.len()
                    invariant
                        1 <= i <= a@.len(),
                        out@ + spec_items_tail(a@.skip(i as int)) == old(out)@ + seq!['[']
                            + spec_items(a@),
                    decreases a@.len() - i,
                {
                    proof {
                        assert(a@.skip(i as int)[0] == a@[i as int]);
                        assert(a@.skip(i as int).drop_first() =~= a@.skip(i as int + 1));
                    }
                    push_char(out, ',');
                    write_json(&a[i], out);
                    proof {
                        assert(out@ + spec_items_tail(a@.skip(i as int + 1)) =~= old(out)@
                            + seq!['['] + spec_items(a@));
                    }
                    i = i + 1;
                }
                proof {
                    assert(a@.skip(a@.len() as int) =~= Seq::<JsonValue>::empty());
                    assert(out@ =~= old(out)@ + seq!['['] + spec_items(a@));
                }
            } else {
                assert(out@ =~= old(out)@ + seq!['['] + spec_items(a@));
            }
            push_char(out, ']');
            assert(out@ =~= old(out)@ + spec_json_text(*v));
        }
        JsonValue::Obj(o) => {
            push_char(out, '{');
            if o.len() > 0 {
                write_member(&o[0], out);
                proof {
                    assert(out@ + spec_members_tail(o@.skip(1)) =~= old(out)@ + seq!['{']
                        + spec_members(o@));
                }
                let mut i: usize = 1;
                while i < o.len()
                    invariant
                        1 <= i <= o@.len(),
                        out@ + spec_members_tail(o@.skip(i as int)) == old(out)@ + seq!['{']
                            + spec_members(o@),
                    decreases o@.len() - i,
                {
                    proof {
                        assert(o@.skip(i as int)[0] == o@[i as int]);
                        assert(o@.skip(i as int).drop_first() =~= o@.skip(i as int + 1));
                    }
                    push_char(out, ',');
                    write_member(&o[i], out);
                    proof {
                        assert(out@ + spec_members_tail(o@.skip(i as int + 1)) =~= old(out)@
                            + seq!['{'] + spec_members(o@));
                    }
                    i = i + 1;
                }
                proof {
                    assert(o@.skip(o@.len() as int) =~= Seq::<(String, JsonValue)>::empty());
                    assert(out@ =~= old(out)@ + seq!['{'] + spec_members(o@));
                }
            } else {
                assert(out@ =~= old(out)@ + seq!['{'] + spec_members(o@));
            }
            push_char(out, '}');
            assert(out@ =~= old(out)@ + spec_json_text(*v));
        }
    }
}

/// Appends the text of one object member to `out`.
fn write_member(p: &(String, JsonValue), out: &mut String)
    ensures
        final(out)@ == old(out)@ + spec_member(*p),
    decreases *p,
{
    push_char(out, '"');
    write_escaped(p.0.as_str(), out);
    push_char(out, '"');
    push_char(out, ':');
    write_json(&p.1, out);
    assert(out@ =~= old(out)@ + spec_member(*p));
}

/// Renders a JSON value to text.
pub fn json_to_string(v: &JsonValue) -> (s: String)
    ensures
        s@ == spec_json_text(*v),
{
    let mut s = String::new();
    write_json(v, &mut s);
    proof {
        assert(Seq::<char>::empty() + spec_json_text(*v) =~= spec_json_text(*v));
    }
    s
}

} // verus!
