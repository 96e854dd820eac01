//! UTF-16: the encoding of characters as code units, lossy decoding, and the law
//! that decoding undoes encoding.
use vstd::prelude::*;
use vstd::utf8::{char_is_scalar, char_u32_cast, is_scalar};

verus! {

/// The character that lossy decoding puts in place of an unpaired surrogate.
pub const REPLACEMENT_CHARACTER: char = '\u{FFFD}';

pub open spec fn is_high_surrogate(u: u16) -> bool {
    0xD800 <= u <= 0xDBFF
}

pub open spec fn is_low_surrogate(u: u16) -> bool {
    0xDC00 <= u <= 0xDFFF
}

/// The scalar value that the surrogate pair `hi`, `lo` encodes.
pub open spec fn pair_scalar(hi: u16, lo: u16) -> u32 {
    (0x10000 + (hi - 0xD800) * 0x400 + (lo - 0xDC00)) as u32
}

/// The UTF-16 code units of one character: the scalar value itself below
/// `0x10000`, a surrogate pair above.
pub open spec fn encode_utf16_char(c: char) -> Seq<u16> {
    let v = c as u32;
    if v < 0x10000 {
        seq![v as u16]
    } else {
        seq![(0xD800 + (v - 0x10000) / 0x400) as u16, (0xDC00 + (v - 0x10000) % 0x400) as u16]
    }
}

/// The UTF-16 encoding of a character sequence.
pub open spec fn encode_utf16(s: Seq<char>) -> Seq<u16>
    decreases s.len(),
{
    if s.len() == 0 {
        seq![]
    } else {
        encode_utf16_char(s[0]) + encode_utf16(s.drop_first())
    }
}

/// Lossy UTF-16 decoding: a surrogate pair gives the character it encodes, a
/// surrogate without its partner gives [`REPLACEMENT_CHARACTER`], and any other unit
/// gives the character of that value.
pub open spec fn decode_utf16_lossy(u: Seq<u16>) -> Seq<char>
    decreases u.len(),
{
    if u.len() == 0 {
        seq![]
    } else if u.len() >= 2 && is_high_surrogate(u[0]) && is_low_surrogate(u[1]) {
        seq![pair_scalar(u[0], u[1]) as char] + decode_utf16_lossy(u.subrange(2, u.len() as int))
    } else if is_high_surrogate(u[0]) || is_low_surrogate(u[0]) {
        seq![REPLACEMENT_CHARACTER] + decode_utf16_lossy(u.drop_first())
    } else {
        seq![(u[0] as u32) as char] + decode_utf16_lossy(u.drop_first())
    }
}

/// Encoding distributes over concatenation.
pub proof fn lemma_encode_utf16_concat(a: Seq<char>, b: Seq<char>)
    ensures
        encode_utf16(a + b) == encode_utf16(a) + encode_utf16(b),
    decreases a.len(),
{
    if a.len() == 0 {
        assert(a + b =~= b);
    } else {
        lemma_encode_utf16_concat(a.drop_first(), b);
        assert((a + b).drop_first() =~= a.drop_first() + b);
        assert(encode_utf16_char(a[0]) + (encode_utf16(a.drop_first()) + encode_utf16(b))
            =~= encode_utf16_char(a[0]) + encode_utf16(a.drop_first()) + encode_utf16(b));
    }
}

proof fn lemma_decode_encode_char(c: char, rest: Seq<u16>)
    ensures
        decode_utf16_lossy(encode_utf16_char(c) + rest) == seq![c] + decode_utf16_lossy(rest),
{
    let v = c as u32;
    char_is_scalar(c);
    char_u32_cast(c, v);
    let u = encode_utf16_char(c) + rest;
    if v < 0x10000 {
        assert(u[0] == v as u16);
        assert((u[0] as u32) == v);
        assert(u.drop_first() =~= rest);
    } else {
        let w = (v - 0x10000) as int;
        assert(w == (w / 0x400) * 0x400 + w % 0x400) by (nonlinear_arith)
            requires
                w >= 0,
        ;
        assert(w / 0x400 <= 0x3FF) by (nonlinear_arith)
            requires
                0 <= w <= 0xFFFFF,
        ;
        assert(0 <= w % 0x400 < 0x400) by (nonlinear_arith)
            requires
                w >= 0,
        ;
        assert(is_high_surrogate(u[0]));
        assert(is_low_surrogate(u[1]));
        assert(pair_scalar(u[0], u[1]) == v);
        assert(u.subrange(2, u.len() as int) =~= rest);
    }
}

/// Law: lossy decoding of the UTF-16 encoding of any character sequence gives the
/// sequence back; no character is lost or replaced.
pub proof fn lemma_decode_encode_utf16(s: Seq<char>)
    ensures
        decode_utf16_lossy(encode_utf16(s)) == s,
    decreases s.len(),
{
    if s.len() > 0 {
        lemma_decode_encode_utf16(s.drop_first());
        lemma_decode_encode_char(s[0], encode_utf16(s.drop_first()));
        assert(seq![s[0]] + s.drop_first() =~= s);
    }
}

/// Relies on `char::from_u32`: it returns the character of `v` exactly when `v` is a
/// Unicode scalar value.
#[verifier::external_body]
fn char_from_u32(v: u32) -> (r: Option<char>)
    ensures
        is_scalar(v) ==> r == Some(v as char),
        !is_scalar(v) ==> r is None,
{
    char::from_u32(v)
}

/// Relies on `String`'s `FromIterator<char>`: the string holds the characters in order.
#[verifier::external_body]
fn string_from_chars(chars: Vec<char>) -> (r: String)
    ensures
        r@ == chars@,
{
    String::from_iter(chars)
}

/// Appends the UTF-16 code units of `c` to `units`.
pub fn push_utf16(units: &mut Vec<u16>, c: char)
    ensures
        final(units)@ == old(units)@ + encode_utf16_char(c),
{
    let v = c as u32;
    proof {
        char_is_scalar(c);
    }
    if v < 0x10000 {
        units.push(v as u16);
    } else {
        let w = v - 0x10000;
        units.push((0xD800 + w / 0x400) as u16);
        units.push((0xDC00 + w % 0x400) as u16);
    }
    assert(final(units)@ =~= old(units)@ + encode_utf16_char(c));
}

/// The UTF-16 encoding of `s`.
pub fn encode_str(s: &str) -> (r: Vec<u16>)
    ensures
        r@ == encode_utf16(s@),
{
    let mut units: Vec<u16> = Vec::new();
    for c in it: s.chars()
        invariant
            it.seq() == s@,
            units@ == encode_utf16(it.seq().take(it.index() as int)),
    {
        proof {
            let done = it.seq().take(it.index() as int);
            lemma_encode_utf16_concat(done, seq![c]);
            assert(it.seq().take(it.index() + 1) =~= done + seq![c]);
            assert(encode_utf16(seq![c]) =~= encode_utf16_char(c)) by {
                assert(seq![c].drop_first() =~= Seq::<char>::empty());
                assert(encode_utf16(Seq::<char>::empty()) =~= Seq::<u16>::empty());
            }
        }
        push_utf16(&mut units, c);
    }
    assert(s@.take(s@.len() as int) =~= s@);
    units
}

/// Decodes UTF-16 code units lossily.
pub fn decode_utf16(units: &[u16]) -> (r: String)
    ensures
        r@ == decode_utf16_lossy(units@),
{
    let n = units.len();
    let mut chars: Vec<char> = Vec::new();
    let mut i: usize = 0;
    assert(units@.subrange(0, n as int) =~= units@);
    assert(chars@ + decode_utf16_lossy(units@) =~= decode_utf16_lossy(units@));
    while i < n
        invariant
            n == units@.len(),
            i <= n,
            decode_utf16_lossy(units@) == chars@ + decode_utf16_lossy(units@.subrange(i as int, n as int)),
        decreases n - i,
    {
        let ghost rest = units@.subrange(i as int, n as int);
        let u = units[i];
        if i + 1 < n && 0xD800 <= u && u <= 0xDBFF && 0xDC00 <= units[i + 1] && units[i + 1] <= 0xDFFF {
            let lo = units[i + 1];
            let v: u32 = 0x10000 + (u as u32 - 0xD800) * 0x400 + (lo as u32 - 0xDC00);
            assert(v == pair_scalar(rest[0], rest[1]));
            assert(rest.subrange(2, rest.len() as int) =~= units@.subrange(i + 2, n as int));
            match char_from_u32(v) {
                Some(c) => chars.push(c),
                None => chars.push(REPLACEMENT_CHARACTER),
            }
            i = i + 2;
        } else {
            assert(rest.drop_first() =~= units@.subrange(i + 1, n as int));
            if 0xD800 <= u && u <= 0xDFFF {
                chars.push(REPLACEMENT_CHARACTER);
            } else {
                match char_from_u32(u as u32) {
                    Some(c) => chars.push(c),
                    None => chars.push(REPLACEMENT_CHARACTER),
                }
            }
            i = i + 1;
        }
    }
    assert(units@.subrange(n as int, n as int) =~= Seq::<u16>::empty());
    assert(chars@ + Seq::<char>::empty() =~= chars@);
    string_from_chars(chars)
}

} // verus!
