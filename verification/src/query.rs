use vstd::prelude::*;

use crate::encoding::{
    encoded_byte, form_encoded_bytes, form_encoded_str, is_form_unreserved, push_char,
    spec_hex_digit,
};

verus! {

// ---------------------------------------------------------------------------
// Specification: percent-decoding
// ---------------------------------------------------------------------------

/// A hexadecimal digit, either case.
pub open spec fn is_hex_char(c: char) -> bool {
    ||| (48 <= c as u32 && c as u32 <= 57)
    ||| (65 <= c as u32 && c as u32 <= 70)
    ||| (97 <= c as u32 && c as u32 <= 102)
}

/// The value of a hexadecimal digit.
pub open spec fn hex_char_val(c: char) -> u8
    recommends
        is_hex_char(c),
{
    if 48 <= c as u32 && c as u32 <= 57 {
        (c as u32 - 48) as u8
    } else if 65 <= c as u32 && c as u32 <= 70 {
        (c as u32 - 55) as u8
    } else {
        (c as u32 - 87) as u8
    }
}

/// The percent-decoding of a query member: `+` becomes a space, `%` followed
/// by two hexadecimal digits becomes the character with that byte value, and
/// everything else stands verbatim.
pub open spec fn pct_decoded(s: Seq<char>) -> Seq<char>
    decreases s.len(),
{
    if s.len() == 0 {
        Seq::empty()
    } else if s[0] == '+' {
        seq![' '] + pct_decoded(s.drop_first())
    } else if s[0] == '%' && s.len() >= 3 && is_hex_char(s[1]) && is_hex_char(s[2]) {
        seq![(hex_char_val(s[1]) * 16 + hex_char_val(s[2])) as char] + pct_decoded(s.skip(3))
    } else {
        seq![s[0]] + pct_decoded(s.drop_first())
    }
}

// ---------------------------------------------------------------------------
// Specification: query strings
// ---------------------------------------------------------------------------

/// The index of the first occurrence of `c` in `s`, or -1 when `c` does not
/// occur.
pub open spec fn find_char(s: Seq<char>, c: char) -> int
    decreases s.len(),
{
    if s.len() == 0 {
        -1
    } else if s[0] == c {
        0
    } else if find_char(s.drop_first(), c) < 0 {
        -1
    } else {
        find_char(s.drop_first(), c) + 1
    }
}

/// `find_char` names the first occurrence: the character stands there and
/// nowhere earlier; a negative answer means no occurrence at all.
pub proof fn lemma_find_char(s: Seq<char>, c: char)
    ensures
        find_char(s, c) >= 0 ==> find_char(s, c) < s.len() && s[find_char(s, c)] == c && (forall|
            j: int,
        |
            0 <= j < find_char(s, c) ==> s[j] != c),
        find_char(s, c) < 0 ==> forall|j: int| 0 <= j < s.len() ==> s[j] != c,
    decreases s.len(),
{
    if s.len() > 0 && s[0] != c {
        let t = s.drop_first();
        lemma_find_char(t, c);
        assert(forall|j: int| 1 <= j < s.len() ==> s[j] == t[j - 1]);
        if find_char(t, c) >= 0 {
            let f = find_char(t, c);
            assert(s[f + 1] == t[f]);
            assert(forall|j: int| 0 <= j < f + 1 ==> s[j] != c) by {
                assert(forall|j: int| 1 <= j < f + 1 ==> s[j] == t[j - 1] && t[j - 1] != c);
            }
        } else {
            assert(forall|j: int| 0 <= j < s.len() ==> s[j] != c) by {
                assert(forall|j: int| 1 <= j < s.len() ==> s[j] == t[j - 1] && t[j - 1] != c);
            }
        }
    }
}

/// One `key=value` member, split at its first `=` (the value is empty when
/// there is none), both sides percent-decoded.
pub open spec fn member_pair(p: Seq<char>) -> (Seq<char>, Seq<char>) {
    let e = find_char(p, '=');
    if e < 0 {
        (pct_decoded(p), Seq::empty())
    } else {
        (pct_decoded(p.take(e)), pct_decoded(p.skip(e + 1)))
    }
}

/// The decoded `key=value` pairs of a form-encoded query string: members are
/// separated by `&`, empty members are skipped, and each member is split at
/// its first `=`.
pub open spec fn query_pairs(s: Seq<char>) -> Seq<(Seq<char>, Seq<char>)>
    decreases s.len(),
        via query_pairs_decreases
{
    if s.len() == 0 {
        Seq::empty()
    } else {
        let f = find_char(s, '&');
        if f < 0 {
            seq![member_pair(s)]
        } else if f == 0 {
            query_pairs(s.skip(1))
        } else {
            seq![member_pair(s.take(f))] + query_pairs(s.skip(f + 1))
        }
    }
}

#[via_fn]
proof fn query_pairs_decreases(s: Seq<char>) {
    lemma_find_char(s, '&');
}

/// The value of the last member whose key is `key`: a later member with the
/// same key overrides an earlier one.
pub open spec fn last_param(ps: Seq<(Seq<char>, Seq<char>)>, key: Seq<char>) -> Option<Seq<char>>
    decreases ps.len(),
{
    if ps.len() == 0 {
        None
    } else if ps.last().0 == key {
        Some(ps.last().1)
    } else {
        last_param(ps.drop_last(), key)
    }
}

// ---------------------------------------------------------------------------
// Executable decoding and parsing
// ---------------------------------------------------------------------------

fn is_hex(c: char) -> (r: bool)
    ensures
        r == is_hex_char(c),
{
    let u = c as u32;
    (48 <= u && u <= 57) || (65 <= u && u <= 70) || (97 <= u && u <= 102)
}

fn hex_val(c: char) -> (r: u8)
    requires
        is_hex_char(c),
    ensures
        r == hex_char_val(c),
        r < 16,
{
    let u = c as u32;
    if 48 <= u && u <= 57 {
        (u - 48) as u8
    } else if 65 <= u && u <= 70 {
        (u - 55) as u8
    } else {
        (u - 87) as u8
    }
}

/// Percent-decodes one query member.
pub fn pct_decode(s: &str) -> (r: String)
    ensures
        r@ == pct_decoded(s@),
{
    let n = s.unicode_len();
    let mut out = String::new();
    let mut i: usize = 0;
    proof {
        assert(s@.skip(0) =~= s@);
        assert(out@ + pct_decoded(s@) =~= pct_decoded(s@));
    }
    while i < n
        invariant
            n == s@.len(),
            i <= n,
            out@ + pct_decoded(s@.skip(i as int)) == pct_decoded(s@),
        decreases n - i,
    {
        let c = s.get_char(i);
        let ghost prev = out@;
        let ghost i0 = i as int;
        let ghost tail = s@.skip(i0);
        proof {
            assert(tail[0] == s@[i0]);
        }
        if c == '+' {
            push_char(&mut out, ' ');
            proof {
                assert(tail.drop_first() =~= s@.skip(i0 + 1));
                assert(out@ + pct_decoded(s@.skip(i0 + 1)) =~= prev + pct_decoded(tail));
            }
            i = i + 1;
        } else {
            let mut stepped = false;
            if c == '%' && n - i >= 3 {
                let c1 = s.get_char(i + 1);
                let c2 = s.get_char(i + 2);
                if is_hex(c1) && is_hex(c2) {
                    let b: u8 = hex_val(c1) * 16 + hex_val(c2);
                    push_char(&mut out, b as char);
                    proof {
                        assert(tail[1] == s@[i0 + 1]);
                        assert(tail[2] == s@[i0 + 2]);
                        assert(tail.skip(3) =~= s@.skip(i0 + 3));
                        assert(out@ + pct_decoded(s@.skip(i0 + 3)) =~= prev + pct_decoded(tail));
                    }
                    i = i + 3;
                    stepped = true;
                }
            }
            if !stepped {
                push_char(&mut out, c);
                proof {
                    assert(tail.drop_first() =~= s@.skip(i0 + 1));
                    assert(out@ + pct_decoded(s@.skip(i0 + 1)) =~= prev + pct_decoded(tail));
                }
                i = i + 1;
            }
        }
    }
    proof {
        assert(s@.skip(n as int) =~= Seq::<char>::empty());
        assert(out@ + pct_decoded(s@.skip(n as int)) =~= out@);
    }
    out
}

/// The position of the first occurrence of `c` in `s`, if any.
pub fn find_char_in(s: &str, c: char) -> (r: Option<usize>)
    ensures
        r matches Some(i) ==> i < s@.len() && find_char(s@, c) == i,
        r is None ==> find_char(s@, c) < 0,
{
    let n = s.unicode_len();
    let mut i: usize = 0;
    while i < n
        invariant
            n == s@.len(),
            i <= n,
            forall|j: int| 0 <= j < i ==> s@[j] != c,
        decreases n - i,
    {
        if s.get_char(i) == c {
            proof {
                lemma_find_char(s@, c);
            }
            return Some(i);
        }
        i = i + 1;
    }
    proof {
        lemma_find_char(s@, c);
    }
    None
}

/// Splits one member at its first `=` and decodes both sides.
fn split_member(p: &str) -> (r: (String, String))
    ensures
        r.0@ == member_pair(p@).0,
        r.1@ == member_pair(p@).1,
{
    match find_char_in(p, '=') {
        None => {
            let k = pct_decode(p);
            (k, String::new())
        },
        Some(e) => {
            let n = p.unicode_len();
            let head = p.substring_char(0, e);
            let rest = p.substring_char(e + 1, n);
            proof {
                assert(head@ =~= p@.take(e as int));
                assert(rest@ =~= p@.skip(e as int + 1));
            }
            (pct_decode(head), pct_decode(rest))
        },
    }
}

/// Parses a form-encoded query string into its decoded `key=value` pairs.
pub fn parse_query_pairs(s: &str) -> (r: Vec<(String, String)>)
    ensures
        r.deep_view() == query_pairs(s@),
    decreases s@.len(),
{
    let n = s.unicode_len();
    if n == 0 {
        let r: Vec<(String, String)> = Vec::new();
        proof {
            assert(r.deep_view() =~= query_pairs(s@));
        }
        return r;
    }
    match find_char_in(s, '&') {
        None => {
            let kv = split_member(s);
            let mut r: Vec<(String, String)> = Vec::new();
            r.push(kv);
            proof {
                assert(r.deep_view() =~= seq![member_pair(s@)]);
            }
            r
        },
        Some(f) => {
            if f == 0 {
                let rest = s.substring_char(1, n);
                proof {
                    assert(rest@ =~= s@.skip(1));
                }
                let r = parse_query_pairs(rest);
                r
            } else {
                let head = s.substring_char(0, f);
                let rest = s.substring_char(f + 1, n);
                proof {
                    assert(head@ =~= s@.take(f as int));
                    assert(rest@ =~= s@.skip(f as int + 1));
                }
                let kv = split_member(head);
                let mut r: Vec<(String, String)> = Vec::new();
                r.push(kv);
                let mut tail = parse_query_pairs(rest);
                r.append(&mut tail);
                proof {
                    assert(r.deep_view() =~= seq![member_pair(s@.take(f as int))] + query_pairs(
                        s@.skip(f as int + 1),
                    ));
                }
                r
            }
        },
    }
}

/// The value of the last pair whose key is `key`, if any.
pub fn find_last_param(pairs: &Vec<(String, String)>, key: &str) -> (r: Option<String>)
    ensures
        r is Some == last_param(pairs.deep_view(), key@) is Some,
        r matches Some(v) ==> last_param(pairs.deep_view(), key@) == Some(v@),
{
    let ghost ps = pairs.deep_view();
    let keyed: String = key.to_owned();
    let mut r: Option<String> = None;
    let mut i: usize = 0;
    proof {
        assert(ps.take(0) =~= Seq::<(Seq<char>, Seq<char>)>::empty());
    }
    while i < pairs.len()
        invariant
            ps == pairs.deep_view(),
            ps.len() == pairs@.len(),
            i <= ps.len(),
            keyed@ == key@,
            forall|j: int| 0 <= j < ps.len() ==> ps[j] == (pairs@[j].0@, pairs@[j].1@),
            r is Some == last_param(ps.take(i as int), key@) is Some,
            r matches Some(v) ==> last_param(ps.take(i as int), key@) == Some(v@),
        decreases pairs@.len() - i,
    {
        let ghost i0 = i as int;
        if pairs[i].0 == keyed {
            r = Some(pairs[i].1.clone());
        }
        proof {
            assert(ps.take(i0 + 1).drop_last() =~= ps.take(i0));
            assert(ps.take(i0 + 1).last() == ps[i0]);
        }
        i = i + 1;
    }
    proof {
        assert(ps.take(pairs@.len() as int) =~= ps);
    }
    r
}

// ---------------------------------------------------------------------------
// Encoding and decoding agree
// ---------------------------------------------------------------------------

/// A hexadecimal digit written by the encoder reads back as its value.
proof fn lemma_hex_digit_round(n: u8)
    requires
        n < 16,
    ensures
        is_hex_char(spec_hex_digit(n)),
        hex_char_val(spec_hex_digit(n)) == n,
{
}

/// Decoding what the encoder wrote for one ASCII byte peels exactly that
/// character off the front.
proof fn lemma_decode_encoded_byte(b: u8, rest: Seq<char>)
    requires
        b < 128,
    ensures
        pct_decoded(encoded_byte(b) + rest) == seq![b as char] + pct_decoded(rest),
{
    let e = encoded_byte(b) + rest;
    if b == 32 {
        assert(e[0] == '+');
        assert(e.drop_first() =~= rest);
        assert(pct_decoded(e) =~= seq![b as char] + pct_decoded(rest));
    } else if is_form_unreserved(b) {
        let c = b as char;
        assert(e[0] == c);
        assert(c as u32 == b);
        assert(c != '+' && c != '%');
        assert(e.drop_first() =~= rest);
        assert(pct_decoded(e) =~= seq![b as char] + pct_decoded(rest));
    } else {
        let h1 = spec_hex_digit(b / 16);
        let h2 = spec_hex_digit(b % 16);
        lemma_hex_digit_round(b / 16);
        lemma_hex_digit_round(b % 16);
        assert(e[0] == '%' && e.len() >= 3 && e[1] == h1 && e[2] == h2);
        assert(hex_char_val(h1) * 16 + hex_char_val(h2) == b);
        assert(e.skip(3) =~= rest);
        assert(pct_decoded(e) =~= seq![b as char] + pct_decoded(rest));
    }
}

/// Law: decoding the form encoding of an ASCII byte sequence gives back
/// exactly its characters — the encoder loses nothing that the decoder
/// cannot recover.
pub proof fn lemma_encoded_bytes_decode_back(bs: Seq<u8>)
    requires
        forall|i: int| 0 <= i < bs.len() ==> bs[i] < 128,
    ensures
        pct_decoded(form_encoded_bytes(bs)) == Seq::new(bs.len(), |i: int| bs[i] as char),
    decreases bs.len(),
{
    if bs.len() == 0 {
        assert(pct_decoded(form_encoded_bytes(bs)) =~= Seq::new(
            bs.len(),
            |i: int| bs[i] as char,
        ));
    } else {
        lemma_encoded_bytes_decode_back(bs.drop_first());
        lemma_decode_encoded_byte(bs[0], form_encoded_bytes(bs.drop_first()));
        assert(pct_decoded(form_encoded_bytes(bs)) =~= Seq::new(
            bs.len(),
            |i: int| bs[i] as char,
        ));
    }
}

/// Law: a form-encoded ASCII string decodes back to itself.
pub proof fn lemma_form_encoding_round_trip(s: Seq<char>)
    requires
        vstd::utf8::is_ascii_chars(s),
    ensures
        pct_decoded(form_encoded_str(s)) == s,
{
    let bs = vstd::utf8::encode_utf8(s);
    vstd::utf8::is_ascii_chars_encode_utf8(s);
    assert forall|i: int| 0 <= i < bs.len() implies bs[i] < 128 by {
        let u = s[i] as u32;
        assert(u < 128);
        assert((u as u8) as u32 == u) by (bit_vector)
            requires
                u < 128,
        ;
        assert(bs[i] == s[i] as u8);
    }
    lemma_encoded_bytes_decode_back(bs);
    assert forall|i: int| 0 <= i < bs.len() implies bs[i] as char == s[i] by {
        let u = s[i] as u32;
        assert((u as u8) as u32 == u) by (bit_vector)
            requires
                u < 128,
        ;
        vstd::utf8::char_u32_cast(s[i], u);
        assert(bs[i] as u32 == u);
    }
    assert(pct_decoded(form_encoded_str(s)) =~= s);
}

/// Compares two strings character for character.
pub fn str_eq(a: &str, b: &str) -> (r: bool)
    ensures
        r == (a@ == b@),
{
    let sa: String = a.to_owned();
    let sb: String = b.to_owned();
    sa == sb
}

// ---------------------------------------------------------------------------
// Trimming
// ---------------------------------------------------------------------------

/// ASCII whitespace, as pasted input carries it.
pub open spec fn is_ws(c: char) -> bool {
    c == ' ' || c == '\t' || c == '\n' || c == '\r'
}

/// `s` without leading whitespace.
pub open spec fn trim_front(s: Seq<char>) -> Seq<char>
    decreases s.len(),
{
    if s.len() > 0 && is_ws(s[0]) {
        trim_front(s.drop_first())
    } else {
        s
    }
}

/// `s` without trailing whitespace.
pub open spec fn trim_back(s: Seq<char>) -> Seq<char>
    decreases s.len(),
{
    if s.len() > 0 && is_ws(s.last()) {
        trim_back(s.drop_last())
    } else {
        s
    }
}

/// `s` without leading and trailing whitespace.
pub open spec fn trimmed(s: Seq<char>) -> Seq<char> {
    trim_back(trim_front(s))
}

fn is_ws_exec(c: char) -> (r: bool)
    ensures
        r == is_ws(c),
{
    c == ' ' || c == '\t' || c == '\n' || c == '\r'
}

/// Removes leading and trailing ASCII whitespace.
pub fn trim_ws(s: &str) -> (r: String)
    ensures
        r@ == trimmed(s@),
{
    let n = s.unicode_len();
    let mut a: usize = 0;
    proof {
        assert(s@.skip(0) =~= s@);
    }
    while a < n && is_ws_exec(s.get_char(a))
        invariant
            n == s@.len(),
            a <= n,
            trim_front(s@) == trim_front(s@.skip(a as int)),
        decreases n - a,
    {
        proof {
            let tail = s@.skip(a as int);
            assert(tail[0] == s@[a as int]);
            assert(tail.drop_first() =~= s@.skip(a as int + 1));
        }
        a = a + 1;
    }
    let ghost front = s@.skip(a as int);
    proof {
        if a < n {
            assert(front[0] == s@[a as int]);
        }
        assert(trim_front(s@) == front);
    }
    let mut b: usize = n;
    proof {
        assert(front.take(n as int - a as int) =~= front);
    }
    while b > a && is_ws_exec(s.get_char(b - 1))
        invariant
            n == s@.len(),
            a <= b <= n,
            front == s@.skip(a as int),
            trim_back(front) == trim_back(front.take(b as int - a as int)),
        decreases b,
    {
        proof {
            let part = front.take(b as int - a as int);
            assert(part.last() == s@[b as int - 1]);
            assert(part.drop_last() =~= front.take(b as int - 1 - a as int));
        }
        b = b - 1;
    }
    proof {
        let part = front.take(b as int - a as int);
        if b > a {
            assert(part.last() == s@[b as int - 1]);
        }
        assert(trim_back(part) == part);
    }
    let r = s.substring_char(a, b);
    proof {
        assert(r@ =~= front.take(b as int - a as int));
    }
    r.to_owned()
}

} // verus!
