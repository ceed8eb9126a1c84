use base64::engine::general_purpose;
use base64::Engine;
use vstd::prelude::*;

verus! {

/// The character of the standard base64 alphabet (RFC 4648, section 4) for
/// the 6-bit value `v`.
pub open spec fn sextet_char(v: int) -> char
    recommends
        0 <= v < 64,
{
    if v < 26 {
        (65 + v) as char
    } else if v < 52 {
        (97 + (v - 26)) as char
    } else if v < 62 {
        (48 + (v - 52)) as char
    } else if v == 62 {
        '+'
    } else {
        '/'
    }
}

/// The 6-bit value of a character of the standard base64 alphabet.
pub open spec fn sextet_value(c: char) -> int {
    let x = c as int;
    if 65 <= x < 91 {
        x - 65
    } else if 97 <= x < 123 {
        x - 97 + 26
    } else if 48 <= x < 58 {
        x - 48 + 52
    } else if c == '+' {
        62
    } else {
        63
    }
}

/// Four characters for a group of one to three bytes, padded with `=`.
pub open spec fn encode_group(g: Seq<u8>) -> Seq<char>
    recommends
        1 <= g.len() <= 3,
{
    let b0 = g[0] as int;
    let b1 = if g.len() > 1 { g[1] as int } else { 0 };
    let b2 = if g.len() > 2 { g[2] as int } else { 0 };
    let c0 = sextet_char(b0 / 4);
    let c1 = sextet_char((b0 % 4) * 16 + b1 / 16);
    let c2 = if g.len() > 1 { sextet_char((b1 % 16) * 4 + b2 / 64) } else { '=' };
    let c3 = if g.len() > 2 { sextet_char(b2 % 64) } else { '=' };
    seq![c0, c1, c2, c3]
}

/// Standard base64 with padding: each group of three bytes becomes four
/// characters, and a final short group is padded with `=`.
pub open spec fn base64_of(b: Seq<u8>) -> Seq<char>
    decreases b.len(),
{
    if b.len() == 0 {
        Seq::empty()
    } else if b.len() <= 3 {
        encode_group(b)
    } else {
        encode_group(b.take(3)) + base64_of(b.skip(3))
    }
}

/// The bytes that a group of four base64 characters stands for.
pub open spec fn decode_group(s: Seq<char>) -> Seq<u8>
    recommends
        s.len() == 4,
{
    let v0 = sextet_value(s[0]);
    let v1 = sextet_value(s[1]);
    let v2 = sextet_value(s[2]);
    let v3 = sextet_value(s[3]);
    let b0 = (v0 * 4 + v1 / 16) as u8;
    let b1 = ((v1 % 16) * 16 + v2 / 4) as u8;
    let b2 = ((v2 % 4) * 64 + v3) as u8;
    if s[2] == '=' {
        seq![b0]
    } else if s[3] == '=' {
        seq![b0, b1]
    } else {
        seq![b0, b1, b2]
    }
}

/// Standard base64 decoding, group of four characters by group.
pub open spec fn bytes_of_base64(s: Seq<char>) -> Seq<u8>
    decreases s.len(),
{
    if s.len() < 4 {
        Seq::empty()
    } else {
        decode_group(s.take(4)) + bytes_of_base64(s.skip(4))
    }
}

/// The largest input that `encode` takes: its output length must fit in memory.
pub open spec fn encodable_len(n: nat) -> bool {
    n / 3 * 4 + 4 <= isize::MAX
}

proof fn lemma_sextet_round_trip(v: int)
    requires
        0 <= v < 64,
    ensures
        sextet_value(sextet_char(v)) == v,
        sextet_char(v) != '=',
{
}

proof fn lemma_group_round_trip(g: Seq<u8>)
    requires
        1 <= g.len() <= 3,
    ensures
        decode_group(encode_group(g)) == g,
{
    let b0 = g[0] as int;
    let b1 = if g.len() > 1 { g[1] as int } else { 0 };
    let b2 = if g.len() > 2 { g[2] as int } else { 0 };
    lemma_sextet_round_trip(b0 / 4);
    lemma_sextet_round_trip((b0 % 4) * 16 + b1 / 16);
    lemma_sextet_round_trip((b1 % 16) * 4 + b2 / 64);
    lemma_sextet_round_trip(b2 % 64);
    assert(decode_group(encode_group(g)) =~= g);
}

/// Decoding what `base64_of` produces gives back the bytes it started from.
pub proof fn lemma_base64_round_trip(b: Seq<u8>)
    ensures
        bytes_of_base64(base64_of(b)) == b,
    decreases b.len(),
{
    if b.len() == 0 {
        assert(bytes_of_base64(base64_of(b)) =~= b);
    } else if b.len() <= 3 {
        lemma_group_round_trip(b);
        let e = encode_group(b);
        assert(e.skip(4) =~= Seq::<char>::empty());
        assert(e.take(4) =~= e);
        assert(bytes_of_base64(e.skip(4)) == Seq::<u8>::empty());
        assert(bytes_of_base64(e) =~= b);
    } else {
        let head = encode_group(b.take(3));
        let tail = base64_of(b.skip(3));
        lemma_group_round_trip(b.take(3));
        lemma_base64_round_trip(b.skip(3));
        assert((head + tail).take(4) =~= head);
        assert((head + tail).skip(4) =~= tail);
        assert(b.take(3) + b.skip(3) =~= b);
    }
}

/// Relies on base64's `general_purpose::STANDARD` engine and `Engine::encode`:
/// the RFC 4648 standard alphabet with `=` padding. `encode` panics where the
/// output length overflows `usize` or cannot be allocated, which
/// `encodable_len` rules out.
#[verifier::external_body]
fn standard_encode(bytes: &[u8]) -> (r: String)
    requires
        encodable_len(bytes@.len()),
    ensures
        r@ == base64_of(bytes@),
{
    general_purpose::STANDARD.encode(bytes)
}

/// Encodes raw image bytes as the base64 text that the API expects.
pub fn encode(bytes: &[u8]) -> (r: String)
    requires
        encodable_len(bytes@.len()),
    ensures
        r@ == base64_of(bytes@),
{
    standard_encode(bytes)
}

/// The character of the decimal digit `d`.
pub open spec fn digit_char(d: int) -> char {
    (48 + d) as char
}

/// The decimal representation of `n`, without sign or leading zeros.
pub open spec fn decimal_of(n: nat) -> Seq<char>
    decreases n,
{
    if n < 10 {
        seq![digit_char(n as int)]
    } else {
        decimal_of(n / 10) + seq![digit_char((n % 10) as int)]
    }
}

fn digit_str(d: u64) -> (s: &'static str)
    requires
        d < 10,
    ensures
        s@ == seq![digit_char(d as int)],
{
    proof {
        reveal_strlit("0");
        reveal_strlit("1");
        reveal_strlit("2");
        reveal_strlit("3");
        reveal_strlit("4");
        reveal_strlit("5");
        reveal_strlit("6");
        reveal_strlit("7");
        reveal_strlit("8");
        reveal_strlit("9");
    }
    let s = if d == 0 {
        "0"
    } else if d == 1 {
        "1"
    } else if d == 2 {
        "2"
    } else if d == 3 {
        "3"
    } else if d == 4 {
        "4"
    } else if d == 5 {
        "5"
    } else if d == 6 {
        "6"
    } else if d == 7 {
        "7"
    } else if d == 8 {
        "8"
    } else {
        "9"
    };
    assert(s@ =~= seq![digit_char(d as int)]);
    s
}

/// Formats `n` in decimal, as a query parameter carries it.
pub fn decimal(n: u64) -> (s: String)
    ensures
        s@ == decimal_of(n as nat),
    decreases n,
{
    if n < 10 {
        digit_str(n).to_owned()
    } else {
        let mut s = decimal(n / 10);
        s.append(digit_str(n % 10));
        s
    }
}

} // verus!
