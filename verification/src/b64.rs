//! URL-safe base64 without padding (RFC 4648 section 5), the codec behind the
//! `state` parameter and the PKCE verifier and challenge strings.
//!
//! The encoding is defined here as a specification over byte sequences and
//! implemented as verified executable code; decoding of an encoded sequence
//! is proved to give the original bytes back.

use vstd::prelude::*;

verus! {

use vstd::arithmetic::div_mod::lemma_div_multiples_vanish_fancy;
use vstd::arithmetic::div_mod::lemma_fundamental_div_mod;
use crate::text::ascii_chars;
use crate::text::ascii_to_string;

/// The alphabet byte that stands for a six-bit value: `A`..`Z`, `a`..`z`,
/// `0`..`9`, `-`, `_`.
pub open spec fn b64_digit(v: int) -> u8
    recommends
        0 <= v < 64,
{
    if v < 26 {
        (0x41 + v) as u8
    } else if v < 52 {
        (0x47 + v) as u8
    } else if v < 62 {
        (v - 4) as u8
    } else if v == 62 {
        0x2d
    } else {
        0x5f
    }
}

/// The six-bit value an alphabet byte stands for, or `-1` for a byte outside
/// the alphabet.
pub open spec fn b64_value(b: u8) -> int {
    if 0x41 <= b <= 0x5a {
        b - 0x41
    } else if 0x61 <= b <= 0x7a {
        b - 0x47
    } else if 0x30 <= b <= 0x39 {
        b + 4
    } else if b == 0x2d {
        62
    } else if b == 0x5f {
        63
    } else {
        -1
    }
}

/// The alphabet map is inverted exactly by [`b64_value`], and stays in the
/// ASCII range.
pub proof fn lemma_b64_digit(v: int)
    requires
        0 <= v < 64,
    ensures
        b64_value(b64_digit(v)) == v,
        b64_digit(v) < 0x80,
{
}

/// Unpadded base64 of a byte sequence: each group of three bytes becomes four
/// alphabet bytes; a final group of one or two bytes becomes two or three.
pub open spec fn b64_encode(bytes: Seq<u8>) -> Seq<u8>
    decreases bytes.len(),
{
    if bytes.len() == 0 {
        Seq::empty()
    } else if bytes.len() == 1 {
        let b0 = bytes[0] as int;
        seq![b64_digit(b0 / 4), b64_digit(b0 % 4 * 16)]
    } else if bytes.len() == 2 {
        let b0 = bytes[0] as int;
        let b1 = bytes[1] as int;
        seq![b64_digit(b0 / 4), b64_digit(b0 % 4 * 16 + b1 / 16), b64_digit(b1 % 16 * 4)]
    } else {
        let b0 = bytes[0] as int;
        let b1 = bytes[1] as int;
        let b2 = bytes[2] as int;
        seq![
            b64_digit(b0 / 4),
            b64_digit(b0 % 4 * 16 + b1 / 16),
            b64_digit(b1 % 16 * 4 + b2 / 64),
            b64_digit(b2 % 64),
        ] + b64_encode(bytes.skip(3))
    }
}

/// An unpadded base64 sequence is well formed when every byte is in the
/// alphabet and its length is not one more than a multiple of four.
pub open spec fn b64_valid(s: Seq<u8>) -> bool {
    s.len() % 4 != 1 && forall|i: int| 0 <= i < s.len() ==> b64_value(#[trigger] s[i]) >= 0
}

/// The bytes an unpadded base64 sequence stands for: four alphabet bytes give
/// three, a final group of three gives two, a final group of two gives one.
pub open spec fn b64_decode_digits(s: Seq<u8>) -> Seq<u8>
    decreases s.len(),
{
    if s.len() < 2 {
        Seq::empty()
    } else if s.len() == 2 {
        let v0 = b64_value(s[0]);
        let v1 = b64_value(s[1]);
        seq![(v0 * 4 + v1 / 16) as u8]
    } else if s.len() == 3 {
        let v0 = b64_value(s[0]);
        let v1 = b64_value(s[1]);
        let v2 = b64_value(s[2]);
        seq![(v0 * 4 + v1 / 16) as u8, (v1 % 16 * 16 + v2 / 4) as u8]
    } else {
        let v0 = b64_value(s[0]);
        let v1 = b64_value(s[1]);
        let v2 = b64_value(s[2]);
        let v3 = b64_value(s[3]);
        seq![
            (v0 * 4 + v1 / 16) as u8,
            (v1 % 16 * 16 + v2 / 4) as u8,
            (v2 % 4 * 64 + v3) as u8,
        ] + b64_decode_digits(s.skip(4))
    }
}

/// Unpadded base64 decoding: the bytes the sequence stands for, or `None`
/// when the sequence is not well formed.
pub open spec fn b64_decode(s: Seq<u8>) -> Option<Seq<u8>> {
    if b64_valid(s) {
        Some(b64_decode_digits(s))
    } else {
        None
    }
}

/// `(a*d + c) / d == a` and `(a*d + c) % d == c` for `0 <= c < d`.
proof fn lemma_mul_div_vanish(a: int, c: int, d: int)
    requires
        0 <= c < d,
    ensures
        (a * d + c) / d == a,
        (a * d + c) % d == c,
{
    lemma_div_multiples_vanish_fancy(a, c, d);
    assert(d * a == a * d) by (nonlinear_arith);
    lemma_fundamental_div_mod(a * d + c, d);
}

/// Encoding distributes over concatenation at group boundaries.
pub proof fn lemma_b64_encode_append(s: Seq<u8>, t: Seq<u8>)
    requires
        s.len() % 3 == 0,
    ensures
        b64_encode(s + t) == b64_encode(s) + b64_encode(t),
    decreases s.len(),
{
    if s.len() == 0 {
        assert(s + t =~= t);
        assert(b64_encode(s) + b64_encode(t) =~= b64_encode(t));
    } else {
        let st = s + t;
        assert(st.len() >= 3);
        assert(st[0] == s[0] && st[1] == s[1] && st[2] == s[2]);
        assert(st.skip(3) =~= s.skip(3) + t);
        assert(s.skip(3).len() % 3 == 0);
        lemma_b64_encode_append(s.skip(3), t);
        assert(b64_encode(s + t) =~= b64_encode(s) + b64_encode(t));
    }
}

/// The length of an unpadded base64 encoding: four bytes for every full group
/// of three, plus two for a trailing byte or three for a trailing pair.
pub proof fn lemma_b64_encode_len(bytes: Seq<u8>)
    ensures
        b64_encode(bytes).len() == 4 * (bytes.len() as int / 3) + (
        if bytes.len() % 3 == 0 {
            0int
        } else if bytes.len() % 3 == 1 {
            2int
        } else {
            3int
        }),
    decreases bytes.len(),
{
    if bytes.len() >= 3 {
        lemma_b64_encode_len(bytes.skip(3));
        let m = bytes.skip(3).len() as int;
        lemma_mul_div_vanish(m / 3, m % 3, 3);
        lemma_fundamental_div_mod(m, 3);
        assert(bytes.len() as int == m + 3);
        assert((m + 3) / 3 == m / 3 + 1 && (m + 3) % 3 == m % 3) by {
            lemma_mul_div_vanish(m / 3 + 1, m % 3, 3);
            assert((m / 3 + 1) * 3 + m % 3 == m + 3) by (nonlinear_arith)
                requires
                    m == 3 * (m / 3) + m % 3,
            ;
        }
    }
}

/// An encoded sequence is well formed, every byte of it is in the alphabet,
/// and every byte of it is ASCII.
pub proof fn lemma_b64_encode_wf(bytes: Seq<u8>)
    ensures
        b64_valid(b64_encode(bytes)),
        forall|i: int|
            0 <= i < b64_encode(bytes).len() ==> #[trigger] b64_encode(bytes)[i] < 0x80,
    decreases bytes.len(),
{
    lemma_b64_encode_len(bytes);
    if bytes.len() == 0 {
    } else if bytes.len() == 1 {
        let b0 = bytes[0] as int;
        lemma_b64_digit(b0 / 4);
        lemma_b64_digit(b0 % 4 * 16);
    } else if bytes.len() == 2 {
        let b0 = bytes[0] as int;
        let b1 = bytes[1] as int;
        lemma_b64_digit(b0 / 4);
        lemma_b64_digit(b0 % 4 * 16 + b1 / 16);
        lemma_b64_digit(b1 % 16 * 4);
    } else {
        let b0 = bytes[0] as int;
        let b1 = bytes[1] as int;
        let b2 = bytes[2] as int;
        lemma_b64_digit(b0 / 4);
        lemma_b64_digit(b0 % 4 * 16 + b1 / 16);
        lemma_b64_digit(b1 % 16 * 4 + b2 / 64);
        lemma_b64_digit(b2 % 64);
        lemma_b64_encode_wf(bytes.skip(3));
        assert forall|i: int| 0 <= i < b64_encode(bytes).len() implies b64_value(
            #[trigger] b64_encode(bytes)[i],
        ) >= 0 && b64_encode(bytes)[i] < 0x80 by {
            if i >= 4 {
                assert(b64_encode(bytes)[i] == b64_encode(bytes.skip(3))[i - 4]);
            }
        }
    }
}

/// Decoding inverts encoding: for every byte sequence, decoding its unpadded
/// base64 encoding gives the sequence back.
pub proof fn lemma_b64_round_trip(bytes: Seq<u8>)
    ensures
        b64_decode(b64_encode(bytes)) == Some(bytes),
    decreases bytes.len(),
{
    lemma_b64_encode_wf(bytes);
    if bytes.len() == 0 {
        assert(b64_decode_digits(b64_encode(bytes)) =~= bytes);
    } else if bytes.len() == 1 {
        let b0 = bytes[0] as int;
        lemma_b64_digit(b0 / 4);
        lemma_b64_digit(b0 % 4 * 16);
        lemma_mul_div_vanish(b0 % 4, 0, 16);
        lemma_fundamental_div_mod(b0, 4);
        assert(b64_decode_digits(b64_encode(bytes)) =~= bytes);
    } else if bytes.len() == 2 {
        let b0 = bytes[0] as int;
        let b1 = bytes[1] as int;
        lemma_b64_digit(b0 / 4);
        lemma_b64_digit(b0 % 4 * 16 + b1 / 16);
        lemma_b64_digit(b1 % 16 * 4);
        lemma_mul_div_vanish(b0 % 4, b1 / 16, 16);
        lemma_mul_div_vanish(b1 % 16, 0, 4);
        lemma_fundamental_div_mod(b0, 4);
        lemma_fundamental_div_mod(b1, 16);
        assert(b64_decode_digits(b64_encode(bytes)) =~= bytes);
    } else {
        let b0 = bytes[0] as int;
        let b1 = bytes[1] as int;
        let b2 = bytes[2] as int;
        lemma_b64_digit(b0 / 4);
        lemma_b64_digit(b0 % 4 * 16 + b1 / 16);
        lemma_b64_digit(b1 % 16 * 4 + b2 / 64);
        lemma_b64_digit(b2 % 64);
        lemma_mul_div_vanish(b0 % 4, b1 / 16, 16);
        lemma_mul_div_vanish(b1 % 16, b2 / 64, 4);
        lemma_fundamental_div_mod(b0, 4);
        lemma_fundamental_div_mod(b1, 16);
        lemma_fundamental_div_mod(b2, 64);
        lemma_b64_round_trip(bytes.skip(3));
        lemma_b64_encode_wf(bytes.skip(3));
        let enc = b64_encode(bytes);
        let rest = b64_encode(bytes.skip(3));
        assert(enc.skip(4) =~= rest);
        assert(enc.len() >= 4);
        assert(b64_decode_digits(enc) =~= bytes);
    }
}

/// One six-bit value to its alphabet byte.
fn b64_digit_exec(v: u8) -> (r: u8)
    requires
        v < 64,
    ensures
        r == b64_digit(v as int),
{
    if v < 26 {
        0x41 + v
    } else if v < 52 {
        0x47 + v
    } else if v < 62 {
        v - 4
    } else if v == 62 {
        0x2d
    } else {
        0x5f
    }
}

/// One byte to the six-bit value it stands for, or `None` outside the
/// alphabet.
fn b64_value_exec(b: u8) -> (r: Option<u8>)
    ensures
        match r {
            Some(v) => v < 64 && v as int == b64_value(b),
            None => b64_value(b) == -1,
        },
{
    if 0x41 <= b && b <= 0x5a {
        Some(b - 0x41)
    } else if 0x61 <= b && b <= 0x7a {
        Some(b - 0x47)
    } else if 0x30 <= b && b <= 0x39 {
        Some(b + 4)
    } else if b == 0x2d {
        Some(62)
    } else if b == 0x5f {
        Some(63)
    } else {
        None
    }
}

/// Encode bytes as unpadded URL-safe base64, as alphabet bytes.
pub fn encode_bytes(bytes: &[u8]) -> (r: Vec<u8>)
    ensures
        r@ == b64_encode(bytes@),
{
    let len = bytes.len();
    let mut out: Vec<u8> = Vec::new();
    let mut i: usize = 0;
    proof {
        assert(bytes@.take(0) =~= Seq::<u8>::empty());
    }
    while len - i >= 3
        invariant
            0 <= i <= len,
            i % 3 == 0,
            len == bytes@.len(),
            out@ == b64_encode(bytes@.take(i as int)),
        decreases len - i,
    {
        let b0 = bytes[i];
        let b1 = bytes[i + 1];
        let b2 = bytes[i + 2];
        out.push(b64_digit_exec(b0 / 4));
        out.push(b64_digit_exec(b0 % 4 * 16 + b1 / 16));
        out.push(b64_digit_exec(b1 % 16 * 4 + b2 / 64));
        out.push(b64_digit_exec(b2 % 64));
        proof {
            reveal_with_fuel(b64_encode, 2);
            let chunk = bytes@.subrange(i as int, i + 3);
            assert(chunk.len() == 3 && chunk[0] == b0 && chunk[1] == b1 && chunk[2] == b2);
            assert(chunk.skip(3) =~= Seq::<u8>::empty());
            assert(b64_encode(chunk) =~= seq![
                b64_digit(b0 as int / 4),
                b64_digit(b0 as int % 4 * 16 + b1 as int / 16),
                b64_digit(b1 as int % 16 * 4 + b2 as int / 64),
                b64_digit(b2 as int % 64),
            ]);
            lemma_b64_encode_append(bytes@.take(i as int), chunk);
            assert(bytes@.take(i as int) + chunk =~= bytes@.take(i + 3));
            assert(chunk.skip(3) =~= Seq::<u8>::empty());
            assert(out@ =~= b64_encode(bytes@.take(i + 3)));
        }
        i += 3;
    }
    if len - i == 1 {
        let b0 = bytes[i];
        out.push(b64_digit_exec(b0 / 4));
        out.push(b64_digit_exec(b0 % 4 * 16));
        proof {
            let chunk = bytes@.subrange(i as int, len as int);
            lemma_b64_encode_append(bytes@.take(i as int), chunk);
            assert(bytes@.take(i as int) + chunk =~= bytes@);
            assert(out@ =~= b64_encode(bytes@));
        }
    } else if len - i == 2 {
        let b0 = bytes[i];
        let b1 = bytes[i + 1];
        out.push(b64_digit_exec(b0 / 4));
        out.push(b64_digit_exec(b0 % 4 * 16 + b1 / 16));
        out.push(b64_digit_exec(b1 % 16 * 4));
        proof {
            let chunk = bytes@.subrange(i as int, len as int);
            lemma_b64_encode_append(bytes@.take(i as int), chunk);
            assert(bytes@.take(i as int) + chunk =~= bytes@);
            assert(out@ =~= b64_encode(bytes@));
        }
    } else {
        proof {
            assert(bytes@.take(i as int) =~= bytes@);
        }
    }
    out
}

/// Decode unpadded URL-safe base64 bytes; `None` when the input is not well
/// formed.
pub fn decode_bytes(s: &[u8]) -> (r: Option<Vec<u8>>)
    ensures
        match r {
            Some(v) => b64_decode(s@) == Some(v@),
            None => b64_decode(s@) is None,
        },
{
    let len = s.len();
    if len % 4 == 1 {
        return None;
    }
    let mut out: Vec<u8> = Vec::new();
    let mut i: usize = 0;
    proof {
        assert(s@.take(0) =~= Seq::<u8>::empty());
    }
    while len - i >= 4
        invariant
            0 <= i <= len,
            i % 4 == 0,
            len == s@.len(),
            out@ == b64_decode_digits(s@.take(i as int)),
            forall|j: int| 0 <= j < i ==> b64_value(#[trigger] s@[j]) >= 0,
        decreases len - i,
    {
        let v0 = match b64_value_exec(s[i]) {
            Some(v) => v,
            None => {
                return None;
            },
        };
        let v1 = match b64_value_exec(s[i + 1]) {
            Some(v) => v,
            None => {
                return None;
            },
        };
        let v2 = match b64_value_exec(s[i + 2]) {
            Some(v) => v,
            None => {
                return None;
            },
        };
        let v3 = match b64_value_exec(s[i + 3]) {
            Some(v) => v,
            None => {
                return None;
            },
        };
        out.push(v0 * 4 + v1 / 16);
        out.push(v1 % 16 * 16 + v2 / 4);
        out.push(v2 % 4 * 64 + v3);
        proof {
            reveal_with_fuel(b64_decode_digits, 2);
            let chunk = s@.subrange(i as int, i + 4);
            assert(chunk.len() == 4 && chunk[0] == s@[i as int] && chunk[1] == s@[i + 1]
                && chunk[2] == s@[i + 2] && chunk[3] == s@[i + 3]);
            assert(chunk.skip(4) =~= Seq::<u8>::empty());
            assert(b64_decode_digits(chunk) =~= seq![
                (v0 as int * 4 + v1 as int / 16) as u8,
                (v1 as int % 16 * 16 + v2 as int / 4) as u8,
                (v2 as int % 4 * 64 + v3 as int) as u8,
            ]);
            lemma_b64_decode_digits_append(s@.take(i as int), chunk);
            assert(s@.take(i as int) + chunk =~= s@.take(i + 4));
            assert(chunk.skip(4) =~= Seq::<u8>::empty());
            assert(out@ =~= b64_decode_digits(s@.take(i + 4)));
        }
        i += 4;
    }
    if len - i == 2 {
        let v0 = match b64_value_exec(s[i]) {
            Some(v) => v,
            None => {
                return None;
            },
        };
        let v1 = match b64_value_exec(s[i + 1]) {
            Some(v) => v,
            None => {
                return None;
            },
        };
        out.push(v0 * 4 + v1 / 16);
        proof {
            let chunk = s@.subrange(i as int, len as int);
            lemma_b64_decode_digits_append(s@.take(i as int), chunk);
            assert(s@.take(i as int) + chunk =~= s@);
            assert(out@ =~= b64_decode_digits(s@));
        }
    } else if len - i == 3 {
        let v0 = match b64_value_exec(s[i]) {
            Some(v) => v,
            None => {
                return None;
            },
        };
        let v1 = match b64_value_exec(s[i + 1]) {
            Some(v) => v,
            None => {
                return None;
            },
        };
        let v2 = match b64_value_exec(s[i + 2]) {
            Some(v) => v,
            None => {
                return None;
            },
        };
        out.push(v0 * 4 + v1 / 16);
        out.push(v1 % 16 * 16 + v2 / 4);
        proof {
            let chunk = s@.subrange(i as int, len as int);
            lemma_b64_decode_digits_append(s@.take(i as int), chunk);
            assert(s@.take(i as int) + chunk =~= s@);
            assert(out@ =~= b64_decode_digits(s@));
        }
    } else {
        proof {
            assert(s@.take(i as int) =~= s@);
        }
    }
    Some(out)
}

/// Whether a character is in the unpadded URL-safe alphabet: ASCII
/// alphanumeric, `-` or `_`.
pub open spec fn is_b64_char(c: char) -> bool {
    (c as u32) < 0x80 && b64_value((c as u32) as u8) >= 0
}

/// Every character of an encoding is in the alphabet.
pub proof fn lemma_b64_chars_alphabet(bytes: Seq<u8>)
    ensures
        forall|i: int|
            0 <= i < b64_chars(bytes).len() ==> is_b64_char(#[trigger] b64_chars(bytes)[i]),
{
    lemma_b64_encode_wf(bytes);
    let enc = b64_encode(bytes);
    assert forall|i: int| 0 <= i < b64_chars(bytes).len() implies is_b64_char(
        #[trigger] b64_chars(bytes)[i],
    ) by {
        assert(b64_chars(bytes)[i] == enc[i] as char);
        assert(enc[i] < 0x80);
        assert(b64_value(enc[i]) >= 0);
    }
}

/// The characters of the unpadded base64 encoding of a byte sequence.
pub open spec fn b64_chars(bytes: Seq<u8>) -> Seq<char> {
    ascii_chars(b64_encode(bytes))
}

/// Encode bytes as an unpadded URL-safe base64 string.
pub fn encode_to_string(bytes: &[u8]) -> (r: String)
    ensures
        r@ == b64_chars(bytes@),
{
    let out = encode_bytes(bytes);
    proof {
        lemma_b64_encode_wf(bytes@);
    }
    ascii_to_string(out)
}

/// Unpadded base64 decoding of a character sequence: the bytes it stands for,
/// or `None` when some character is outside the alphabet or the length is not
/// one an encoding can have.
pub open spec fn b64_decode_chars(s: Seq<char>) -> Option<Seq<u8>> {
    if vstd::utf8::is_ascii_chars(s) {
        b64_decode(s.map(|_i: int, c: char| c as u8))
    } else {
        None
    }
}

/// Decode an unpadded URL-safe base64 string.
pub fn decode_from_str(s: &str) -> (r: Option<Vec<u8>>)
    ensures
        match r {
            Some(v) => b64_decode_chars(s@) == Some(v@),
            None => b64_decode_chars(s@) is None,
        },
{
    if !s.is_ascii() {
        return None;
    }
    let bytes = s.as_bytes();
    proof {
        vstd::string::is_ascii_spec_bytes(s);
        assert(bytes@ =~= s@.map(|_i: int, c: char| c as u8));
    }
    decode_bytes(bytes)
}

/// Decoding inverts encoding at the string level as well.
pub proof fn lemma_b64_chars_round_trip(bytes: Seq<u8>)
    ensures
        b64_decode_chars(b64_chars(bytes)) == Some(bytes),
{
    lemma_b64_round_trip(bytes);
    lemma_b64_encode_wf(bytes);
    let enc = b64_encode(bytes);
    let cs = b64_chars(bytes);
    assert forall|i: int| 0 <= i < cs.len() implies '\0' <= #[trigger] cs[i] <= '\u{7f}' by {
        assert(enc[i] < 0x80);
        assert(cs[i] == enc[i] as char);
    }
    assert(vstd::utf8::is_ascii_chars(cs));
    assert(cs.map(|_i: int, c: char| c as u8) =~= enc);
}

/// Digit decoding distributes over concatenation at group boundaries.
proof fn lemma_b64_decode_digits_append(s: Seq<u8>, t: Seq<u8>)
    requires
        s.len() % 4 == 0,
    ensures
        b64_decode_digits(s + t) == b64_decode_digits(s) + b64_decode_digits(t),
    decreases s.len(),
{
    if s.len() == 0 {
        assert(s + t =~= t);
        assert(b64_decode_digits(s) + b64_decode_digits(t) =~= b64_decode_digits(t));
    } else {
        let st = s + t;
        assert(st.len() >= 4);
        assert(st[0] == s[0] && st[1] == s[1] && st[2] == s[2] && st[3] == s[3]);
        assert(st.skip(4) =~= s.skip(4) + t);
        assert(s.skip(4).len() % 4 == 0);
        lemma_b64_decode_digits_append(s.skip(4), t);
        assert(b64_decode_digits(s + t) =~= b64_decode_digits(s) + b64_decode_digits(t));
    }
}

} // verus!
