//! XML payload handling: the streaming tag scan comes from quick-xml behind
//! a trusted wrapper; the verified part folds the event stream into a flat
//! map from dotted element paths to the first non-empty text seen at each
//! path, and resolves mapping paths against that map.

use vstd::prelude::*;
use quick_xml::events::Event;
use quick_xml::escape::unescape;

verus! {

use crate::strutil::{spec_trim_start, seq_starts_with, seq_ends_with, trim_start_chars,
    str_chars, chars_start_with, chars_end_with, chars_to_string, push_char, str_eq};

/// One event of the streaming XML scan: an opening tag with its name, a
/// closing tag, or a run of text or CDATA content.
pub enum XmlEvent {
    Open(String),
    Close,
    Content(String),
}

/// What quick-xml's streaming scan yields on a text: opening tags, closing
/// tags, and unescaped text and CDATA runs, in document order. Text that
/// fails to unescape is left out, as is surrounding whitespace.
pub uninterp spec fn spec_xml_events(s: Seq<char>) -> Seq<XmlEvent>;

/// Relies on quick-xml's `Reader` with `trim_text`: walks the document once
/// and hands back tag and content events in order.
#[verifier::external_body]
fn scan_xml_events(xml: &str) -> (r: Vec<XmlEvent>)
    ensures
        r@ == spec_xml_events(xml@),
{
    let mut rd = quick_xml::Reader::from_str(xml);
    rd.config_mut().trim_text(true);
    let mut out: Vec<XmlEvent> = Vec::new();
    loop {
        match rd.read_event() {
            Ok(Event::Start(e)) => out.push(XmlEvent::Open(e.name().as_ref().to_string())),
            Ok(Event::End(_)) => out.push(XmlEvent::Close),
            Ok(Event::Text(e)) => if let Ok(t) = unescape(e.as_ref()) { out.push(XmlEvent::Content(t.into_owned())) },
            Ok(Event::CData(e)) => out.push(XmlEvent::Content(e.as_ref().to_string())),
            Ok(Event::Eof) | Err(_) => return out,
            _ => {}
        }
    }
}

/// Whether a character survives normalization for storage.
pub open spec fn spec_stored_char(c: char) -> bool {
    c != '\n' && c != '\t' && c != '\r'
}

/// An XML text normalized for storage: line feeds, tabs and carriage returns
/// removed.
pub open spec fn spec_normalize_storage(s: Seq<char>) -> Seq<char>
    decreases s.len(),
{
    if s.len() == 0 {
        Seq::empty()
    } else if spec_stored_char(s[0]) {
        seq![s[0]] + spec_normalize_storage(s.drop_first())
    } else {
        spec_normalize_storage(s.drop_first())
    }
}

/// Storage normalization distributes over concatenation.
pub proof fn lemma_normalize_storage_concat(a: Seq<char>, b: Seq<char>)
    ensures
        spec_normalize_storage(a + b) == spec_normalize_storage(a) + spec_normalize_storage(b),
    decreases a.len(),
{
    if a.len() == 0 {
        assert(a + b =~= b);
        assert(spec_normalize_storage(a) + spec_normalize_storage(b) =~= spec_normalize_storage(
            b,
        ));
    } else {
        assert((a + b).drop_first() =~= a.drop_first() + b);
        lemma_normalize_storage_concat(a.drop_first(), b);
        assert(spec_normalize_storage(a + b) =~= spec_normalize_storage(a)
            + spec_normalize_storage(b));
    }
}

/// Removes line feeds, tabs and carriage returns, the form an XML body is
/// stored in.
pub fn normalize_xml_storage(input: &str) -> (r: String)
    ensures
        r@ == spec_normalize_storage(input@),
{
    let cs = str_chars(input);
    let mut out = String::new();
    let mut i: usize = 0;
    proof {
        assert(input@.take(0) =~= Seq::<char>::empty());
    }
    while i < cs.len()
        invariant
            cs@ == input@,
            i <= cs@.len(),
            out@ == spec_normalize_storage(input@.take(i as int)),
        decreases cs@.len() - i,
    {
        let c = cs[i];
        if !(c == '\n' || c == '\t' || c == '\r') {
            push_char(&mut out, c);
        }
        proof {
            assert(input@.take(i as int + 1) =~= input@.take(i as int) + seq![input@[i as int]]);
            lemma_normalize_storage_concat(input@.take(i as int), seq![input@[i as int]]);
            assert(seq![input@[i as int]].drop_first() =~= Seq::<char>::empty());
            assert(spec_normalize_storage(Seq::<char>::empty()) =~= Seq::<char>::empty());
            if spec_stored_char(input@[i as int]) {
                assert(spec_normalize_storage(seq![input@[i as int]]) =~= seq![input@[i as int]]);
            } else {
                assert(spec_normalize_storage(seq![input@[i as int]]) =~= Seq::<char>::empty());
            }
            assert(out@ =~= spec_normalize_storage(input@.take(i as int + 1)));
        }
        i = i + 1;
    }
    proof {
        assert(input@.take(cs@.len() as int) =~= input@);
    }
    out
}

/// The first position where `?>` stands in `s`.
pub open spec fn spec_find_prolog_end(s: Seq<char>) -> Option<int>
    decreases s.len(),
{
    if s.len() < 2 {
        None
    } else if s[0] == '?' && s[1] == '>' {
        Some(0)
    } else {
        match spec_find_prolog_end(s.drop_first()) {
            Some(i) => Some(i + 1),
            None => None,
        }
    }
}

/// An XML text normalized for parsing: storage normalization, then a leading
/// `<?xml ... ?>` prolog removed.
pub open spec fn spec_normalize_for_parse(s: Seq<char>) -> Seq<char> {
    let n = spec_normalize_storage(s);
    if seq_starts_with(spec_trim_start(n), seq!['<', '?', 'x', 'm', 'l']) {
        match spec_find_prolog_end(n) {
            Some(i) => n.skip(i + 2),
            None => n,
        }
    } else {
        n
    }
}

/// Prepares an XML body for parsing: strips stray line breaks and tabs and
/// drops a leading `<?xml ... ?>` prolog.
#[verifier::loop_isolation(false)]
pub fn normalize_xml_for_parse(input: &str) -> (r: String)
    ensures
        r@ == spec_normalize_for_parse(input@),
{
    let stored = normalize_xml_storage(input);
    let n = str_chars(stored.as_str());
    let t = trim_start_chars(&n);
    let prolog = str_chars("<?xml");
    proof {
        reveal_strlit("<?xml");
        assert(prolog@ =~= seq!['<', '?', 'x', 'm', 'l']);
    }
    if !chars_start_with(&t, &prolog) {
        return stored;
    }
    let mut i: usize = 0;
    proof {
        assert(n@.skip(0) =~= n@);
    }
    while i < n.len() && n.len() - i >= 2 && !(n[i] == '?' && n[i + 1] == '>')
        invariant
            n@ == stored@,
            i <= n@.len(),
            spec_find_prolog_end(n@) == match spec_find_prolog_end(n@.skip(i as int)) {
                Some(k) => Some(k + i),
                None => None::<int>,
            },
        decreases n@.len() - i,
    {
        proof {
            let rest = n@.skip(i as int);
            assert(rest.len() >= 2);
            assert(rest[0] == n@[i as int] && rest[1] == n@[i as int + 1]);
            assert(rest.drop_first() =~= n@.skip(i as int + 1));
        }
        i = i + 1;
    }
    if n.len() - i < 2 {
        proof {
            assert(spec_find_prolog_end(n@.skip(i as int)) is None);
        }
        return stored;
    }
    proof {
        let rest = n@.skip(i as int);
        assert(rest[0] == n@[i as int] && rest[1] == n@[i as int + 1]);
        assert(spec_find_prolog_end(rest) == Some(0int));
    }
    let mut outchars: Vec<char> = Vec::new();
    let mut j: usize = i + 2;
    while j < n.len()
        invariant
            n@ == stored@,
            i + 2 <= j <= n@.len(),
            outchars@ == n@.subrange(i as int + 2, j as int),
        decreases n@.len() - j,
    {
        outchars.push(n[j]);
        proof {
            assert(n@.subrange(i as int + 2, j as int).push(n@[j as int]) =~= n@.subrange(
                i as int + 2,
                j as int + 1,
            ));
        }
        j = j + 1;
    }
    proof {
        assert(n@.skip(i as int + 2) =~= n@.subrange(i as int + 2, n@.len() as int));
    }
    chars_to_string(&outchars)
}

/// The view of a stored path/value pair: its two texts.
pub open spec fn pair_view(p: (String, String)) -> (Seq<char>, Seq<char>) {
    (p.0@, p.1@)
}

/// The view of the stored pairs: the texts of each key and value.
pub open spec fn pairs_view(ps: Seq<(String, String)>) -> Seq<(Seq<char>, Seq<char>)> {
    ps.map_values(|p: (String, String)| pair_view(p))
}

/// The first value stored under `key`.
pub open spec fn spec_pairs_get(ps: Seq<(Seq<char>, Seq<char>)>, key: Seq<char>) -> Option<
    Seq<char>,
>
    decreases ps.len(),
{
    if ps.len() == 0 {
        None
    } else if ps[0].0 == key {
        Some(ps[0].1)
    } else {
        spec_pairs_get(ps.drop_first(), key)
    }
}

/// The dotted join of a tag stack.
pub open spec fn spec_join_dots(parts: Seq<Seq<char>>) -> Seq<char>
    decreases parts.len(),
{
    if parts.len() == 0 {
        Seq::empty()
    } else {
        parts[0] + spec_join_tail(parts.drop_first())
    }
}

/// The stack entries after the first, each preceded by a dot.
pub open spec fn spec_join_tail(parts: Seq<Seq<char>>) -> Seq<char>
    decreases parts.len(),
{
    if parts.len() == 0 {
        Seq::empty()
    } else {
        seq!['.'] + parts[0] + spec_join_tail(parts.drop_first())
    }
}

/// The view of a tag stack: the characters of each open tag.
pub open spec fn stack_view(parts: Seq<String>) -> Seq<Seq<char>> {
    parts.map_values(|s: String| s@)
}

/// Joins a tag stack with dots, as the scan stores element paths.
pub fn join_dots(parts: &Vec<String>) -> (r: String)
    ensures
        r@ == spec_join_dots(stack_view(parts@)),
{
    let ghost pv = stack_view(parts@);
    let mut out = String::new();
    if parts.len() == 0 {
        return out;
    }
    out.append(parts[0].as_str());
    proof {
        assert(pv[0] == parts@[0]@);
        assert(out@ + spec_join_tail(pv.skip(1)) =~= spec_join_dots(pv));
    }
    let mut i: usize = 1;
    while i < parts.len()
        invariant
            pv == stack_view(parts@),
            parts@.len() == pv.len(),
            1 <= i <= pv.len(),
            out@ + spec_join_tail(pv.skip(i as int)) == spec_join_dots(pv),
        decreases pv.len() - i,
    {
        proof {
            assert(pv.skip(i as int)[0] == pv[i as int] && pv[i as int] == parts@[i as int]@);
            assert(pv.skip(i as int).drop_first() =~= pv.skip(i as int + 1));
        }
        push_char(&mut out, '.');
        out.append(parts[i].as_str());
        proof {
            assert(out@ + spec_join_tail(pv.skip(i as int + 1)) =~= spec_join_dots(pv));
        }
        i = i + 1;
    }
    proof {
        assert(pv.skip(pv.len() as int) =~= Seq::<Seq<char>>::empty());
        assert(out@ + Seq::<char>::empty() =~= out@);
    }
    out
}

/// Folds the XML event stream into path/value pairs: tags push and pop a
/// stack, the first non-empty content at each dotted path is kept.
pub open spec fn spec_xml_fold(
    events: Seq<XmlEvent>,
    stack: Seq<Seq<char>>,
    acc: Seq<(Seq<char>, Seq<char>)>,
) -> Seq<(Seq<char>, Seq<char>)>
    decreases events.len(),
{
    if events.len() == 0 {
        acc
    } else {
        match events[0] {
            XmlEvent::Open(name) => spec_xml_fold(events.drop_first(), stack.push(name@), acc),
            XmlEvent::Close => spec_xml_fold(
                events.drop_first(),
                if stack.len() > 0 {
                    stack.drop_last()
                } else {
                    stack
                },
                acc,
            ),
            XmlEvent::Content(text) => {
                if text@.len() > 0 && stack.len() > 0 && spec_pairs_get(
                    acc,
                    spec_join_dots(stack),
                ) is None {
                    spec_xml_fold(
                        events.drop_first(),
                        stack,
                        acc.push((spec_join_dots(stack), text@)),
                    )
                } else {
                    spec_xml_fold(events.drop_first(), stack, acc)
                }
            }
        }
    }
}

/// The values a mapping sees in an XML document: the first non-empty text or
/// CDATA content at each dotted element path.
pub open spec fn spec_xml_values(s: Seq<char>) -> Seq<(Seq<char>, Seq<char>)> {
    spec_xml_fold(spec_xml_events(spec_normalize_for_parse(s)), Seq::empty(), Seq::empty())
}

/// Scans an XML text into the flat map from dotted element paths to the
/// first non-empty content seen at each path.
#[verifier::loop_isolation(false)]
pub fn extract_xml_values(xml: &str) -> (r: Vec<(String, String)>)
    ensures
        pairs_view(r@) == spec_xml_values(xml@),
{
    let parse_input = normalize_xml_for_parse(xml);
    let events = scan_xml_events(parse_input.as_str());
    let mut stack: Vec<String> = Vec::new();
    let mut acc: Vec<(String, String)> = Vec::new();
    let mut i: usize = 0;
    proof {
        assert(events@.skip(0) =~= events@);
        assert(stack_view(stack@) =~= Seq::<Seq<char>>::empty());
        assert(pairs_view(acc@) =~= Seq::<(Seq<char>, Seq<char>)>::empty());
    }
    while i < events.len()
        invariant
            events@ == spec_xml_events(spec_normalize_for_parse(xml@)),
            i <= events@.len(),
            spec_xml_values(xml@) == spec_xml_fold(
                events@.skip(i as int),
                stack_view(stack@),
                pairs_view(acc@),
            ),
        decreases events@.len() - i,
    {
        let ghost pre_stack = stack_view(stack@);
        let ghost pre_acc = pairs_view(acc@);
        proof {
            assert(events@.skip(i as int)[0] == events@[i as int]);
            assert(events@.skip(i as int).drop_first() =~= events@.skip(i as int + 1));
        }
        match &events[i] {
            XmlEvent::Open(name) => {
                stack.push(name.clone());
                proof {
                    assert(stack_view(stack@) =~= pre_stack.push(name@));
                    assert(spec_xml_fold(events@.skip(i as int), pre_stack, pre_acc)
                        == spec_xml_fold(
                        events@.skip(i as int + 1),
                        stack_view(stack@),
                        pairs_view(acc@),
                    ));
                }
            }
            XmlEvent::Close => {
                if stack.len() > 0 {
                    stack.pop();
                    proof {
                        assert(stack_view(stack@) =~= pre_stack.drop_last());
                    }
                }
                proof {
                    assert(spec_xml_fold(events@.skip(i as int), pre_stack, pre_acc)
                        == spec_xml_fold(
                        events@.skip(i as int + 1),
                        stack_view(stack@),
                        pairs_view(acc@),
                    ));
                }
            }
            XmlEvent::Content(text) => {
                if text.as_str().is_empty() || stack.len() == 0 {
                    proof {
                        assert(spec_xml_fold(events@.skip(i as int), pre_stack, pre_acc)
                            == spec_xml_fold(
                            events@.skip(i as int + 1),
                            stack_view(stack@),
                            pairs_view(acc@),
                        ));
                    }
                } else {
                    let path = join_dots(&stack);
                    if pairs_get_is_none(&acc, path.as_str()) {
                        acc.push((path, text.clone()));
                        proof {
                            assert(pairs_view(acc@) =~= pre_acc.push(
                                (spec_join_dots(pre_stack), text@),
                            ));
                            assert(spec_xml_fold(events@.skip(i as int), pre_stack, pre_acc)
                                == spec_xml_fold(
                                events@.skip(i as int + 1),
                                stack_view(stack@),
                                pairs_view(acc@),
                            ));
                        }
                    } else {
                        proof {
                            assert(spec_xml_fold(events@.skip(i as int), pre_stack, pre_acc)
                                == spec_xml_fold(
                                events@.skip(i as int + 1),
                                stack_view(stack@),
                                pairs_view(acc@),
                            ));
                        }
                    }
                }
            }
        }
        i = i + 1;
    }
    proof {
        assert(events@.skip(events@.len() as int) =~= Seq::<XmlEvent>::empty());
    }
    acc
}

/// Whether no stored pair carries `key`.
fn pairs_get_is_none(ps: &Vec<(String, String)>, key: &str) -> (r: bool)
    ensures
        r == (spec_pairs_get(pairs_view(ps@), key@) is None),
{
    let ghost pv = pairs_view(ps@);
    let mut i: usize = 0;
    proof {
        assert(pv.skip(0) =~= pv);
    }
    while i < ps.len()
        invariant
            pv == pairs_view(ps@),
            ps@.len() == pv.len(),
            i <= pv.len(),
            spec_pairs_get(pv, key@) is None <==> spec_pairs_get(pv.skip(i as int), key@) is None,
        decreases pv.len() - i,
    {
        proof {
            assert(pv.skip(i as int)[0] == pv[i as int] && pv[i as int] == pair_view(
                ps@[i as int],
            ));
            assert(pv.skip(i as int).drop_first() =~= pv.skip(i as int + 1));
        }
        if str_eq(ps[i].0.as_str(), key) {
            return false;
        }
        i = i + 1;
    }
    true
}

/// The first stored pair whose key is `field` or ends in `.field`.
pub open spec fn spec_pairs_find_suffix(
    ps: Seq<(Seq<char>, Seq<char>)>,
    field: Seq<char>,
) -> Option<Seq<char>>
    decreases ps.len(),
{
    if ps.len() == 0 {
        None
    } else if ps[0].0 == field || seq_ends_with(ps[0].0, seq!['.'] + field) {
        Some(ps[0].1)
    } else {
        spec_pairs_find_suffix(ps.drop_first(), field)
    }
}

/// What a mapping path finds among XML values: the combined
/// `list_path.field` key first, else the first key equal to the field or
/// ending in `.field`.
pub open spec fn spec_xml_lookup(
    values: Seq<(Seq<char>, Seq<char>)>,
    list_path: Option<Seq<char>>,
    field: Seq<char>,
) -> Option<Seq<char>> {
    let combined = match list_path {
        Some(base) => base + seq!['.'] + field,
        None => field,
    };
    match spec_pairs_get(values, combined) {
        Some(v) => Some(v),
        None => spec_pairs_find_suffix(values, field),
    }
}

/// Looks a mapping path up among the scanned XML values.
#[verifier::loop_isolation(false)]
pub fn xml_lookup(
    values: &Vec<(String, String)>,
    list_path: Option<&str>,
    field_path: &str,
) -> (r: Option<String>)
    ensures
        ({
            let lp = match list_path {
                Some(b) => Some(b@),
                None => None::<Seq<char>>,
            };
            match r {
                Some(v) => spec_xml_lookup(pairs_view(values@), lp, field_path@)
                    == Some(v@),
                None => spec_xml_lookup(pairs_view(values@), lp, field_path@) is None,
            }
        }),
{
    let ghost pv = pairs_view(values@);
    let mut combined = String::new();
    match list_path {
        Some(base) => {
            combined.append(base);
            push_char(&mut combined, '.');
            combined.append(field_path);
            proof {
                assert(combined@ =~= list_path->Some_0@ + seq!['.'] + field_path@);
            }
        }
        None => {
            combined.append(field_path);
            proof {
                assert(combined@ =~= field_path@);
            }
        }
    }
    let mut i: usize = 0;
    proof {
        assert(pv.skip(0) =~= pv);
    }
    while i < values.len()
        invariant
            pv == pairs_view(values@),
            values@.len() == pv.len(),
            i <= pv.len(),
            spec_pairs_get(pv, combined@) == spec_pairs_get(pv.skip(i as int), combined@),
        decreases pv.len() - i,
    {
        proof {
            assert(pv.skip(i as int)[0] == pv[i as int] && pv[i as int] == pair_view(
                values@[i as int],
            ));
            assert(pv.skip(i as int).drop_first() =~= pv.skip(i as int + 1));
        }
        if str_eq(values[i].0.as_str(), combined.as_str()) {
            return Some(values[i].1.clone());
        }
        i = i + 1;
    }
    let mut needle_chars: Vec<char> = Vec::new();
    needle_chars.push('.');
    let fc = str_chars(field_path);
    let mut k: usize = 0;
    proof {
        assert(needle_chars@ =~= seq!['.'] + field_path@.take(0));
    }
    while k < fc.len()
        invariant
            fc@ == field_path@,
            k <= fc@.len(),
            needle_chars@ == seq!['.'] + field_path@.take(k as int),
        decreases fc@.len() - k,
    {
        needle_chars.push(fc[k]);
        proof {
            assert((seq!['.'] + field_path@.take(k as int)).push(field_path@[k as int]) =~= seq![
                '.',
            ] + field_path@.take(k as int + 1));
        }
        k = k + 1;
    }
    proof {
        assert(field_path@.take(fc@.len() as int) =~= field_path@);
    }
    let mut j: usize = 0;
    proof {
        assert(pv.skip(0) =~= pv);
    }
    while j < values.len()
        invariant
            pv == pairs_view(values@),
            values@.len() == pv.len(),
            j <= pv.len(),
            needle_chars@ == seq!['.'] + field_path@,
            spec_pairs_find_suffix(pv, field_path@) == spec_pairs_find_suffix(
                pv.skip(j as int),
                field_path@,
            ),
        decreases pv.len() - j,
    {
        proof {
            assert(pv.skip(j as int)[0] == pv[j as int] && pv[j as int] == pair_view(
                values@[j as int],
            ));
            assert(pv.skip(j as int).drop_first() =~= pv.skip(j as int + 1));
        }
        let kc = str_chars(values[j].0.as_str());
        if str_eq(values[j].0.as_str(), field_path) || chars_end_with(&kc, &needle_chars) {
            return Some(values[j].1.clone());
        }
        j = j + 1;
    }
    None
}

} // verus!
