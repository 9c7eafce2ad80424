use vstd::prelude::*;

verus! {

// ---------------------------------------------------------------------------
// Specification: application/x-www-form-urlencoded encoding
// ---------------------------------------------------------------------------

/// Bytes kept verbatim by form encoding: ASCII alphanumerics and
/// `*`, `-`, `.`, `_`.
pub open spec fn is_form_unreserved(b: u8) -> bool {
    ||| (48 <= b && b <= 57)
    ||| (65 <= b && b <= 90)
    ||| (97 <= b && b <= 122)
    ||| b == 42
    ||| b == 45
    ||| b == 46
    ||| b == 95
}

/// The uppercase hexadecimal digit for a value below 16.
pub open spec fn spec_hex_digit(n: u8) -> char
    recommends
        n < 16,
{
    if n < 10 {
        (48 + n) as char
    } else {
        (55 + n) as char
    }
}

/// How one byte is written in a form-encoded string: space becomes `+`,
/// unreserved bytes stand verbatim, every other byte becomes `%XX`.
pub open spec fn encoded_byte(b: u8) -> Seq<char> {
    if b == 32 {
        seq!['+']
    } else if is_form_unreserved(b) {
        seq![b as char]
    } else {
        seq!['%', spec_hex_digit(b / 16), spec_hex_digit(b % 16)]
    }
}

/// The form encoding of a byte sequence.
pub open spec fn form_encoded_bytes(bs: Seq<u8>) -> Seq<char>
    decreases bs.len(),
{
    if bs.len() == 0 {
        Seq::empty()
    } else {
        encoded_byte(bs[0]) + form_encoded_bytes(bs.drop_first())
    }
}

/// What a string contributes to a form-encoded query: the encoding of its
/// UTF-8 bytes.
pub open spec fn form_encoded_str(s: Seq<char>) -> Seq<char> {
    form_encoded_bytes(vstd::utf8::encode_utf8(s))
}

/// One `key=value` member of a form-encoded query.
pub open spec fn form_encoded_pair(p: (Seq<char>, Seq<char>)) -> Seq<char> {
    form_encoded_str(p.0) + seq!['='] + form_encoded_str(p.1)
}

/// The members after the first, each preceded by `&`.
pub open spec fn amp_separated_pairs(ps: Seq<(Seq<char>, Seq<char>)>) -> Seq<char>
    decreases ps.len(),
{
    if ps.len() == 0 {
        Seq::empty()
    } else {
        seq!['&'] + form_encoded_pair(ps[0]) + amp_separated_pairs(ps.drop_first())
    }
}

/// A whole form-encoded query: `k=v` members joined by `&`.
pub open spec fn form_encoded_pairs(ps: Seq<(Seq<char>, Seq<char>)>) -> Seq<char> {
    if ps.len() == 0 {
        Seq::empty()
    } else {
        form_encoded_pair(ps[0]) + amp_separated_pairs(ps.drop_first())
    }
}

// ---------------------------------------------------------------------------
// Executable encoding
// ---------------------------------------------------------------------------

/// Appends one character. Relies on std's `String::push`, which vstd does
/// not specify.
#[verifier::external_body]
pub(crate) fn push_char(s: &mut String, c: char)
    ensures
        final(s)@ == old(s)@.push(c),
{
    s.push(c);
}

/// The uppercase hexadecimal digit for a value below 16.
fn hex_digit(n: u8) -> (c: char)
    requires
        n < 16,
    ensures
        c == spec_hex_digit(n),
{
    if n < 10 {
        (48 + n) as char
    } else {
        (55 + n) as char
    }
}

fn is_unreserved(b: u8) -> (r: bool)
    ensures
        r == is_form_unreserved(b),
{
    (48 <= b && b <= 57) || (65 <= b && b <= 90) || (97 <= b && b <= 122) || b == 42 || b == 45
        || b == 46 || b == 95
}

/// Appends the form encoding of one byte to `out`.
fn push_encoded_byte(out: &mut String, b: u8)
    ensures
        final(out)@ == old(out)@ + encoded_byte(b),
{
    if b == 32 {
        push_char(out, '+');
        assert(final(out)@ =~= old(out)@ + encoded_byte(b));
    } else if is_unreserved(b) {
        push_char(out, b as char);
        assert(final(out)@ =~= old(out)@ + encoded_byte(b));
    } else {
        push_char(out, '%');
        push_char(out, hex_digit(b / 16));
        push_char(out, hex_digit(b % 16));
        assert(final(out)@ =~= old(out)@ + encoded_byte(b));
    }
}

/// Form-encodes one string: space to `+`, unreserved bytes verbatim,
/// every other UTF-8 byte as `%XX`.
pub fn form_encode_str(s: &str) -> (r: String)
    ensures
        r@ == form_encoded_str(s@),
{
    let bytes: &[u8] = s.as_bytes();
    let n = bytes.len();
    let mut out = String::new();
    let mut i: usize = 0;
    proof {
        assert(bytes@.skip(0) =~= bytes@);
        assert(out@ + form_encoded_bytes(bytes@) =~= form_encoded_bytes(bytes@));
    }
    while i < n
        invariant
            n == bytes@.len(),
            bytes@ == vstd::utf8::encode_utf8(s@),
            i <= n,
            out@ + form_encoded_bytes(bytes@.skip(i as int)) == form_encoded_bytes(bytes@),
        decreases n - i,
    {
        let b = bytes[i];
        let ghost prev = out@;
        let ghost i0 = i as int;
        push_encoded_byte(&mut out, b);
        proof {
            let tail = bytes@.skip(i0);
            assert(tail[0] == bytes@[i0]);
            assert(tail.drop_first() =~= bytes@.skip(i0 + 1));
            assert(form_encoded_bytes(tail) == encoded_byte(b) + form_encoded_bytes(
                bytes@.skip(i0 + 1),
            ));
            assert(out@ + form_encoded_bytes(bytes@.skip(i0 + 1)) =~= prev + form_encoded_bytes(
                tail,
            ));
        }
        i = i + 1;
    }
    proof {
        assert(bytes@.skip(n as int) =~= Seq::<u8>::empty());
        assert(out@ + form_encoded_bytes(bytes@.skip(n as int)) =~= out@);
    }
    out
}

/// Appends `key=value` with both sides form-encoded.
fn push_encoded_pair(out: &mut String, k: &String, v: &String)
    ensures
        final(out)@ == old(out)@ + form_encoded_pair((k@, v@)),
{
    let ek = form_encode_str(k.as_str());
    out.append(ek.as_str());
    push_char(out, '=');
    let ev = form_encode_str(v.as_str());
    out.append(ev.as_str());
    assert(final(out)@ =~= old(out)@ + form_encoded_pair((k@, v@)));
}

/// Form-encodes a sequence of `key=value` pairs joined by `&`: the body of
/// a query string or of a form-encoded POST.
pub fn form_encode_pairs(pairs: &Vec<(String, String)>) -> (r: String)
    ensures
        r@ == form_encoded_pairs(pairs.deep_view()),
{
    let mut out = String::new();
    if pairs.len() == 0 {
        return out;
    }
    let ghost ps = pairs.deep_view();
    proof {
        assert(forall|j: int| 0 <= j < ps.len() ==> ps[j] == (pairs@[j].0@, pairs@[j].1@));
    }
    push_encoded_pair(&mut out, &pairs[0].0, &pairs[0].1);
    proof {
        assert(out@ =~= form_encoded_pair(ps[0]));
        assert(ps.drop_first() =~= ps.skip(1));
        assert(out@ + amp_separated_pairs(ps.skip(1)) =~= form_encoded_pairs(ps));
    }
    let mut i: usize = 1;
    while i < pairs.len()
        invariant
            ps == pairs.deep_view(),
            ps.len() == pairs@.len(),
            1 <= i <= pairs@.len(),
            forall|j: int| 0 <= j < ps.len() ==> ps[j] == (pairs@[j].0@, pairs@[j].1@),
            out@ + amp_separated_pairs(ps.skip(i as int)) == form_encoded_pairs(ps),
        decreases pairs@.len() - i,
    {
        let ghost prev = out@;
        let ghost i0 = i as int;
        push_char(&mut out, '&');
        push_encoded_pair(&mut out, &pairs[i].0, &pairs[i].1);
        proof {
            let tail = ps.skip(i0);
            assert(tail[0] == ps[i0]);
            assert(tail.drop_first() =~= ps.skip(i0 + 1));
            assert(amp_separated_pairs(tail) == seq!['&'] + form_encoded_pair(ps[i0])
                + amp_separated_pairs(ps.skip(i0 + 1)));
            assert(out@ + amp_separated_pairs(ps.skip(i0 + 1)) =~= prev + amp_separated_pairs(
                tail,
            ));
        }
        i = i + 1;
    }
    proof {
        assert(ps.skip(pairs@.len() as int) =~= Seq::<(Seq<char>, Seq<char>)>::empty());
        assert(out@ + amp_separated_pairs(ps.skip(pairs@.len() as int)) =~= out@);
    }
    out
}

} // verus!
