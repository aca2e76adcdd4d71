//! Character-level string utilities: conversions between `str`, `String` and
//! `Vec<char>`, whitespace trimming, case-insensitive comparison, prefix and
//! suffix tests, and decimal parsing and rendering.

use vstd::prelude::*;

verus! {

use vstd::std_specs::iter::IteratorSpec;

broadcast use vstd::string::group_string_axioms;

/// Relies on std's `String::push`: appends one character to the string.
#[verifier::external_body]
pub fn push_char(s: &mut String, c: char)
    ensures
        final(s)@ == old(s)@.push(c),
{
    s.push(c);
}

/// Collects the characters of a string slice into a vector.
pub fn str_chars(s: &str) -> (v: Vec<char>)
    ensures
        v@ == s@,
{
    let n = s.unicode_len();
    let mut v: Vec<char> = Vec::new();
    let mut i: usize = 0;
    while i < n
        invariant
            n == s@.len(),
            i <= n,
            v@ == s@.take(i as int),
        decreases n - i,
    {
        let c = s.get_char(i);
        v.push(c);
        assert(s@.take(i as int).push(s@[i as int]) =~= s@.take(i as int + 1));
        i = i + 1;
    }
    assert(s@.take(n as int) =~= s@);
    v
}

/// Rebuilds a `String` from a vector of characters.
pub fn chars_to_string(v: &Vec<char>) -> (s: String)
    ensures
        s@ == v@,
{
    let mut s = String::new();
    let mut i: usize = 0;
    while i < v.len()
        invariant
            i <= v@.len(),
            s@ == v@.take(i as int),
        decreases v@.len() - i,
    {
        push_char(&mut s, v[i]);
        assert(v@.take(i as int).push(v@[i as int]) =~= v@.take(i as int + 1));
        i = i + 1;
    }
    assert(v@.take(v@.len() as int) =~= v@);
    s
}

/// The characters Rust's `char::is_whitespace` accepts: the Unicode
/// `White_Space` set.
pub open spec fn is_ws_char(c: char) -> bool {
    let u = c as u32;
    u == 0x20 || (0x9 <= u && u <= 0xD) || u == 0x85 || u == 0xA0 || u == 0x1680
        || (0x2000 <= u && u <= 0x200A) || u == 0x2028 || u == 0x2029 || u == 0x202F
        || u == 0x205F || u == 0x3000
}

/// Whitespace test matching `char::is_whitespace`.
pub fn is_whitespace_char(c: char) -> (r: bool)
    ensures
        r == is_ws_char(c),
{
    let u = c as u32;
    u == 0x20 || (0x9 <= u && u <= 0xD) || u == 0x85 || u == 0xA0 || u == 0x1680
        || (0x2000 <= u && u <= 0x200A) || u == 0x2028 || u == 0x2029 || u == 0x202F
        || u == 0x205F || u == 0x3000
}

/// A sequence with its leading whitespace removed.
pub open spec fn spec_trim_start(s: Seq<char>) -> Seq<char>
    decreases s.len(),
{
    if s.len() > 0 && is_ws_char(s[0]) {
        spec_trim_start(s.drop_first())
    } else {
        s
    }
}

/// A sequence with its trailing whitespace removed.
pub open spec fn spec_trim_end(s: Seq<char>) -> Seq<char>
    decreases s.len(),
{
    if s.len() > 0 && is_ws_char(s[s.len() - 1]) {
        spec_trim_end(s.drop_last())
    } else {
        s
    }
}

/// A sequence with whitespace removed from both ends, as `str::trim` does.
pub open spec fn spec_trim(s: Seq<char>) -> Seq<char> {
    spec_trim_end(spec_trim_start(s))
}

/// Removes leading whitespace from a character vector.
pub fn trim_start_chars(v: &Vec<char>) -> (w: Vec<char>)
    ensures
        w@ == spec_trim_start(v@),
{
    let mut i: usize = 0;
    assert(v@.skip(0) =~= v@);
    while i < v.len() && is_whitespace_char(v[i])
        invariant
            i <= v@.len(),
            spec_trim_start(v@) == spec_trim_start(v@.skip(i as int)),
        decreases v@.len() - i,
    {
        assert(v@.skip(i as int).drop_first() =~= v@.skip(i as int + 1));
        i = i + 1;
    }
    let mut w: Vec<char> = Vec::new();
    let mut j: usize = i;
    while j < v.len()
        invariant
            i <= j <= v@.len(),
            w@ == v@.subrange(i as int, j as int),
        decreases v@.len() - j,
    {
        w.push(v[j]);
        assert(v@.subrange(i as int, j as int).push(v@[j as int]) =~= v@.subrange(
            i as int,
            j as int + 1,
        ));
        j = j + 1;
    }
    assert(v@.skip(i as int) =~= v@.subrange(i as int, v@.len() as int));
    w
}

/// Removes trailing whitespace from a character vector.
pub fn trim_end_chars(v: &Vec<char>) -> (w: Vec<char>)
    ensures
        w@ == spec_trim_end(v@),
{
    let mut e: usize = v.len();
    assert(v@.take(e as int) =~= v@);
    while e > 0 && is_whitespace_char(v[e - 1])
        invariant
            e <= v@.len(),
            spec_trim_end(v@) == spec_trim_end(v@.take(e as int)),
        decreases e,
    {
        assert(v@.take(e as int).drop_last() =~= v@.take(e as int - 1));
        e = e - 1;
    }
    let mut w: Vec<char> = Vec::new();
    let mut j: usize = 0;
    while j < e
        invariant
            j <= e <= v@.len(),
            w@ == v@.take(e as int).take(j as int),
        decreases e - j,
    {
        w.push(v[j]);
        assert(v@.take(e as int).take(j as int).push(v@[j as int]) =~= v@.take(e as int).take(
            j as int + 1,
        ));
        j = j + 1;
    }
    assert(v@.take(e as int).take(e as int) =~= v@.take(e as int));
    w
}

/// Removes whitespace from both ends of a character vector.
pub fn trim_chars(v: &Vec<char>) -> (w: Vec<char>)
    ensures
        w@ == spec_trim(v@),
{
    let t = trim_start_chars(v);
    trim_end_chars(&t)
}

/// A character folded to ASCII lower case.
pub open spec fn spec_lower_char(c: char) -> u32 {
    let u = c as u32;
    if 0x41 <= u && u <= 0x5A {
        (u + 0x20) as u32
    } else {
        u
    }
}

/// Whether two sequences are equal once both are folded to ASCII lower case,
/// the comparison `to_ascii_lowercase` equality performs.
pub open spec fn spec_ascii_ieq(a: Seq<char>, b: Seq<char>) -> bool {
    a.len() == b.len() && forall|i: int|
        0 <= i < a.len() ==> spec_lower_char(a[i]) == spec_lower_char(b[i])
}

/// Case-insensitive ASCII equality of two character vectors.
pub fn chars_ieq_ascii(a: &Vec<char>, b: &Vec<char>) -> (r: bool)
    ensures
        r == spec_ascii_ieq(a@, b@),
{
    if a.len() != b.len() {
        return false;
    }
    let mut i: usize = 0;
    while i < a.len()
        invariant
            a@.len() == b@.len(),
            i <= a@.len(),
            forall|j: int| 0 <= j < i ==> spec_lower_char(a@[j]) == spec_lower_char(b@[j]),
        decreases a@.len() - i,
    {
        let ua = a[i] as u32;
        let ub = b[i] as u32;
        let fa = if 0x41 <= ua && ua <= 0x5A { ua + 0x20 } else { ua };
        let fb = if 0x41 <= ub && ub <= 0x5A { ub + 0x20 } else { ub };
        if fa != fb {
            return false;
        }
        i = i + 1;
    }
    true
}

/// Case-insensitive ASCII equality of two string slices.
pub fn str_ieq_ascii(a: &str, b: &str) -> (r: bool)
    ensures
        r == spec_ascii_ieq(a@, b@),
{
    let av = str_chars(a);
    let bv = str_chars(b);
    chars_ieq_ascii(&av, &bv)
}

/// Exact equality of two string slices.
pub fn str_eq(a: &str, b: &str) -> (r: bool)
    ensures
        r == (a@ == b@),
{
    let av = str_chars(a);
    let bv = str_chars(b);
    if av.len() != bv.len() {
        proof {
            assert(a@.len() != b@.len());
        }
        return false;
    }
    let mut i: usize = 0;
    while i < av.len()
        invariant
            av@ == a@,
            bv@ == b@,
            av@.len() == bv@.len(),
            i <= av@.len(),
            forall|j: int| 0 <= j < i ==> av@[j] == bv@[j],
        decreases av@.len() - i,
    {
        if av[i] != bv[i] {
            return false;
        }
        i = i + 1;
    }
    proof {
        assert(a@ =~= b@);
    }
    true
}

/// Whether `s` starts with the prefix `p`.
pub open spec fn seq_starts_with(s: Seq<char>, p: Seq<char>) -> bool {
    p.len() <= s.len() && s.take(p.len() as int) == p
}

/// Whether `s` ends with the suffix `p`.
pub open spec fn seq_ends_with(s: Seq<char>, p: Seq<char>) -> bool {
    p.len() <= s.len() && s.skip(s.len() - p.len()) == p
}

/// Prefix test on character vectors.
pub fn chars_start_with(s: &Vec<char>, p: &Vec<char>) -> (r: bool)
    ensures
        r == seq_starts_with(s@, p@),
{
    if p.len() > s.len() {
        return false;
    }
    let mut i: usize = 0;
    while i < p.len()
        invariant
            p@.len() <= s@.len(),
            i <= p@.len(),
            forall|j: int| 0 <= j < i ==> s@[j] == p@[j],
        decreases p@.len() - i,
    {
        if s[i] != p[i] {
            assert(s@.take(p@.len() as int)[i as int] != p@[i as int]);
            return false;
        }
        i = i + 1;
    }
    assert(s@.take(p@.len() as int) =~= p@);
    true
}

/// Suffix test on character vectors.
pub fn chars_end_with(s: &Vec<char>, p: &Vec<char>) -> (r: bool)
    ensures
        r == seq_ends_with(s@, p@),
{
    if p.len() > s.len() {
        return false;
    }
    let slen: usize = s.len();
    let off: usize = slen - p.len();
    let mut i: usize = 0;
    while i < p.len()
        invariant
            slen == s@.len(),
            off == s@.len() - p@.len(),
            i <= p@.len(),
            forall|j: int| 0 <= j < i ==> s@[off + j] == p@[j],
        decreases p@.len() - i,
    {
        if s[off + i] != p[i] {
            assert(s@.skip(off as int)[i as int] != p@[i as int]);
            return false;
        }
        i = i + 1;
    }
    assert(s@.skip(off as int) =~= p@);
    true
}

/// Whether every character of `s` is a decimal digit.
pub open spec fn all_digits(s: Seq<char>) -> bool {
    forall|i: int| 0 <= i < s.len() ==> (0x30 <= s[i] as u32 && s[i] as u32 <= 0x39)
}

/// The value of a sequence of decimal digits, most significant first.
pub open spec fn digits_val(s: Seq<char>) -> int
    decreases s.len(),
{
    if s.len() == 0 {
        0
    } else {
        digits_val(s.drop_last()) * 10 + (s[s.len() - 1] as u32 - 0x30)
    }
}

pub proof fn lemma_digits_val_nonneg(s: Seq<char>)
    requires
        all_digits(s),
    ensures
        digits_val(s) >= 0,
    decreases s.len(),
{
    if s.len() > 0 {
        assert(all_digits(s.drop_last()));
        lemma_digits_val_nonneg(s.drop_last());
    }
}

/// Appending digits never decreases the value.
pub proof fn lemma_digits_val_prefix_le(s: Seq<char>, i: int)
    requires
        all_digits(s),
        0 <= i <= s.len(),
    ensures
        digits_val(s.take(i)) <= digits_val(s),
    decreases s.len() - i,
{
    if i < s.len() {
        lemma_digits_val_prefix_le(s, i + 1);
        assert(s.take(i + 1).drop_last() =~= s.take(i));
        assert(all_digits(s.take(i)));
        lemma_digits_val_nonneg(s.take(i));
        assert(digits_val(s.take(i + 1)) == digits_val(s.take(i)) * 10 + (s[i] as u32 - 0x30));
    } else {
        assert(s.take(i) =~= s);
    }
}

/// Whether `s` carries a leading ASCII minus sign.
pub open spec fn spec_sign_neg(s: Seq<char>) -> bool {
    s.len() > 0 && s[0] == '-'
}

/// The digit part of `s`: everything after an optional leading sign.
pub open spec fn spec_sign_digits(s: Seq<char>) -> Seq<char> {
    if s.len() > 0 && (s[0] == '-' || s[0] == '+') {
        s.drop_first()
    } else {
        s
    }
}

/// What `str::parse::<i64>` returns on `s`: an optional ASCII sign followed by
/// at least one decimal digit, with the signed value in the range of `i64`.
pub open spec fn spec_parse_i64(s: Seq<char>) -> Option<i64> {
    let ds = spec_sign_digits(s);
    if ds.len() > 0 && all_digits(ds) {
        let v = if spec_sign_neg(s) {
            -digits_val(ds)
        } else {
            digits_val(ds)
        };
        if i64::MIN <= v <= i64::MAX {
            Some(v as i64)
        } else {
            None
        }
    } else {
        None
    }
}

/// Parses a signed 64-bit decimal integer, accepting exactly the strings
/// `str::parse::<i64>` accepts.
pub fn parse_i64_chars(s: &Vec<char>) -> (r: Option<i64>)
    ensures
        r == spec_parse_i64(s@),
{
    if s.len() == 0 {
        return None;
    }
    let c0 = s[0];
    let (neg, start): (bool, usize) = if c0 == '-' {
        (true, 1)
    } else if c0 == '+' {
        (false, 1)
    } else {
        (false, 0)
    };
    let ghost ds = spec_sign_digits(s@);
    proof {
        assert(start == 1 ==> ds == s@.drop_first());
        assert(start == 0 ==> ds == s@);
    }
    if s.len() == start {
        return None;
    }
    let mut acc: i64 = 0;
    let mut i: usize = start;
    while i < s.len()
        invariant
            start <= i <= s@.len(),
            start == 0 || start == 1,
            ds == spec_sign_digits(s@),
            neg == spec_sign_neg(s@),
            start == 1 ==> ds == s@.drop_first(),
            start == 0 ==> ds == s@,
            acc <= 0,
            all_digits(ds.take(i - start)),
            acc == -digits_val(ds.take(i - start)),
        decreases s@.len() - i,
    {
        let u = s[i] as u32;
        if u < 0x30 || u > 0x39 {
            proof {
                assert(ds[i - start] == s@[i as int]);
                assert(!(0x30 <= ds[i - start] as u32 && ds[i - start] as u32 <= 0x39));
                assert(!all_digits(ds));
            }
            return None;
        }
        let d = (u - 0x30) as i64;
        proof {
            assert(ds[i - start] == s@[i as int]);
            assert(d == ds[i - start] as u32 - 0x30);
        }
        let m = match acc.checked_mul(10) {
            Some(m) => m,
            None => {
                proof {
                    if all_digits(ds) {
                        overflow_means_none(ds, i - start, d as int);
                    }
                }
                return None;
            }
        };
        let a2 = match m.checked_sub(d) {
            Some(a2) => a2,
            None => {
                proof {
                    if all_digits(ds) {
                        overflow_means_none(ds, i - start, d as int);
                    }
                }
                return None;
            }
        };
        proof {
            assert(ds.take(i - start + 1).drop_last() =~= ds.take(i - start));
            assert(all_digits(ds.take(i - start + 1)));
        }
        acc = a2;
        i = i + 1;
    }
    proof {
        assert(ds.take(i - start) =~= ds);
    }
    if neg {
        Some(acc)
    } else {
        if acc == i64::MIN {
            return None;
        }
        Some(-acc)
    }
}

/// If the running (negated) value cannot take one more digit within `i64`,
/// the full digit string is out of range.
proof fn overflow_means_none(ds: Seq<char>, i: int, d: int)
    requires
        all_digits(ds),
        0 <= i < ds.len(),
        d == ds[i] as u32 - 0x30,
        digits_val(ds.take(i)) * 10 + d > 0x8000000000000000,
    ensures
        digits_val(ds) > i64::MAX,
        -digits_val(ds) < i64::MIN,
{
    assert(ds.take(i + 1).drop_last() =~= ds.take(i));
    assert(digits_val(ds.take(i + 1)) == digits_val(ds.take(i)) * 10 + d);
    lemma_digits_val_prefix_le(ds, i + 1);
    assert(digits_val(ds) >= digits_val(ds.take(i + 1)));
}

/// The decimal digit character for a value below 10.
pub open spec fn spec_dec_digit(n: int) -> char {
    crate::hashing::spec_hex_digit(n)
}

/// The decimal rendering of a non-negative number, without sign or padding.
pub open spec fn spec_dec_u32(n: int) -> Seq<char>
    decreases n,
{
    if n <= 9 {
        seq![spec_dec_digit(n)]
    } else {
        spec_dec_u32(n / 10).push(spec_dec_digit(n % 10))
    }
}

/// Appends the decimal rendering of `n` to `out`.
pub fn append_dec_u32(out: &mut String, n: u32)
    ensures
        final(out)@ == old(out)@ + spec_dec_u32(n as int),
    decreases n,
{
    if n <= 9 {
        let c = dec_digit_char(n);
        push_char(out, c);
        assert(old(out)@.push(c) =~= old(out)@ + spec_dec_u32(n as int));
    } else {
        append_dec_u32(out, n / 10);
        let c = dec_digit_char(n % 10);
        push_char(out, c);
        assert((old(out)@ + spec_dec_u32(n as int / 10)).push(c) =~= old(out)@ + spec_dec_u32(
            n as int,
        ));
    }
}

/// The character for one decimal digit.
pub fn dec_digit_char(n: u32) -> (c: char)
    requires
        n <= 9,
    ensures
        c == spec_dec_digit(n as int),
{
    match n {
        0 => '0',
        1 => '1',
        2 => '2',
        3 => '3',
        4 => '4',
        5 => '5',
        6 => '6',
        7 => '7',
        8 => '8',
        _ => '9',
    }
}

} // verus!
