//! The `application/x-www-form-urlencoded` serializer (URL Standard,
//! urlencoded byte serializer): alphanumerics and `*`, `-`, `.`, `_` pass
//! through, space becomes `+`, every other byte becomes `%` and two uppercase
//! hex digits. Strings are encoded through their UTF-8 bytes.
//!
//! This encoding carries the token-request body, the authorization-URL query,
//! and the Basic-auth credential encoding of RFC 6749 section 2.3.1.

use vstd::prelude::*;

verus! {

use vstd::utf8::encode_utf8;
use crate::text::ascii_chars;
use crate::text::ascii_to_string;

/// Bytes the form encoding passes through unchanged: ASCII alphanumerics and
/// `*`, `-`, `.`, `_`.
pub open spec fn is_form_unchanged_byte(b: u8) -> bool {
    (0x30 <= b <= 0x39) || (0x41 <= b <= 0x5a) || (0x61 <= b <= 0x7a) || b == 0x2a || b == 0x2d
        || b == 0x2e || b == 0x5f
}

/// The uppercase hex digit for a value below sixteen.
pub open spec fn hex_upper_digit(v: int) -> u8
    recommends
        0 <= v < 16,
{
    if v < 10 {
        (0x30 + v) as u8
    } else {
        (0x37 + v) as u8
    }
}

/// The form encoding of one byte: itself, `+` for space, or a percent escape.
pub open spec fn form_byte(b: u8) -> Seq<u8> {
    if is_form_unchanged_byte(b) {
        seq![b]
    } else if b == 0x20 {
        seq![0x2bu8]
    } else {
        seq![0x25u8, hex_upper_digit(b as int / 16), hex_upper_digit(b as int % 16)]
    }
}

/// The form encoding of a byte sequence, byte by byte.
pub open spec fn form_encoded(bytes: Seq<u8>) -> Seq<u8>
    decreases bytes.len(),
{
    if bytes.len() == 0 {
        Seq::empty()
    } else {
        form_byte(bytes[0]) + form_encoded(bytes.skip(1))
    }
}

/// The form encoding of a string: its UTF-8 bytes, form encoded.
pub open spec fn form_encoded_str(s: Seq<char>) -> Seq<u8> {
    form_encoded(encode_utf8(s))
}

/// Form encoding distributes over concatenation.
pub proof fn lemma_form_encoded_append(s: Seq<u8>, t: Seq<u8>)
    ensures
        form_encoded(s + t) == form_encoded(s) + form_encoded(t),
    decreases s.len(),
{
    if s.len() == 0 {
        assert(s + t =~= t);
        assert(form_encoded(s) + form_encoded(t) =~= form_encoded(t));
    } else {
        let st = s + t;
        assert(st[0] == s[0]);
        assert(st.skip(1) =~= s.skip(1) + t);
        lemma_form_encoded_append(s.skip(1), t);
        assert(form_encoded(s + t) =~= form_encoded(s) + form_encoded(t));
    }
}

/// Every byte of a form encoding is ASCII.
pub proof fn lemma_form_encoded_ascii(bytes: Seq<u8>)
    ensures
        forall|i: int|
            0 <= i < form_encoded(bytes).len() ==> #[trigger] form_encoded(bytes)[i] < 0x80,
    decreases bytes.len(),
{
    if bytes.len() != 0 {
        lemma_form_encoded_ascii(bytes.skip(1));
        assert forall|i: int| 0 <= i < form_encoded(bytes).len() implies #[trigger] form_encoded(
            bytes,
        )[i] < 0x80 by {
            let head = form_byte(bytes[0]);
            if i >= head.len() {
                assert(form_encoded(bytes)[i] == form_encoded(bytes.skip(1))[i - head.len()]);
            }
        }
    }
}

/// Append the form encoding of one byte.
fn push_form_byte(out: &mut Vec<u8>, b: u8)
    ensures
        final(out)@ == old(out)@ + form_byte(b),
{
    if (0x30 <= b && b <= 0x39) || (0x41 <= b && b <= 0x5a) || (0x61 <= b && b <= 0x7a) || b
        == 0x2a || b == 0x2d || b == 0x2e || b == 0x5f {
        out.push(b);
        proof {
            assert(out@ =~= old(out)@ + form_byte(b));
        }
    } else if b == 0x20 {
        out.push(0x2b);
        proof {
            assert(out@ =~= old(out)@ + form_byte(b));
        }
    } else {
        out.push(0x25);
        let hi = b / 16;
        let lo = b % 16;
        out.push(if hi < 10 { 0x30 + hi } else { 0x37 + hi });
        out.push(if lo < 10 { 0x30 + lo } else { 0x37 + lo });
        proof {
            assert(out@ =~= old(out)@ + form_byte(b));
        }
    }
}

/// Form encode a byte sequence.
pub fn form_encode_bytes(bytes: &[u8]) -> (r: Vec<u8>)
    ensures
        r@ == form_encoded(bytes@),
{
    let len = bytes.len();
    let mut out: Vec<u8> = Vec::new();
    let mut i: usize = 0;
    proof {
        assert(bytes@.take(0) =~= Seq::<u8>::empty());
    }
    while i < len
        invariant
            0 <= i <= len,
            len == bytes@.len(),
            out@ == form_encoded(bytes@.take(i as int)),
        decreases len - i,
    {
        push_form_byte(&mut out, bytes[i]);
        proof {
            reveal_with_fuel(form_encoded, 2);
            let one = bytes@.subrange(i as int, i + 1);
            lemma_form_encoded_append(bytes@.take(i as int), one);
            assert(bytes@.take(i as int) + one =~= bytes@.take(i + 1));
            assert(one.skip(1) =~= Seq::<u8>::empty());
            assert(form_byte(bytes@[i as int]) + Seq::<u8>::empty() =~= form_byte(
                bytes@[i as int],
            ));
            assert(out@ =~= form_encoded(bytes@.take(i + 1)));
        }
        i += 1;
    }
    proof {
        assert(bytes@.take(len as int) =~= bytes@);
    }
    out
}

/// Form encode a string, through its UTF-8 bytes.
pub fn form_encode_str(s: &str) -> (r: Vec<u8>)
    ensures
        r@ == form_encoded_str(s@),
{
    form_encode_bytes(s.as_bytes())
}

/// Form encode a string and hand the (always ASCII) result back as a string,
/// as the Basic-auth credential encoding of RFC 6749 section 2.3.1 needs it.
pub fn form_encode_to_string(s: &str) -> (r: String)
    ensures
        r@ == ascii_chars(form_encoded_str(s@)),
{
    let out = form_encode_bytes(s.as_bytes());
    proof {
        lemma_form_encoded_ascii(encode_utf8(s@));
    }
    ascii_to_string(out)
}

/// One `key=value` pair of a form body, both sides form encoded.
pub open spec fn form_pair(k: Seq<char>, v: Seq<char>) -> Seq<u8> {
    form_encoded_str(k) + seq![0x3du8] + form_encoded_str(v)
}

/// A whole form body: the pairs in order, joined with `&`.
pub open spec fn form_body(pairs: Seq<(Seq<char>, Seq<char>)>) -> Seq<u8>
    decreases pairs.len(),
{
    if pairs.len() == 0 {
        Seq::empty()
    } else if pairs.len() == 1 {
        form_pair(pairs[0].0, pairs[0].1)
    } else {
        form_body(pairs.drop_last()) + seq![0x26u8] + form_pair(pairs.last().0, pairs.last().1)
    }
}

/// Every byte of one encoded pair is ASCII.
pub proof fn lemma_form_pair_ascii(k: Seq<char>, v: Seq<char>)
    ensures
        forall|i: int| 0 <= i < form_pair(k, v).len() ==> #[trigger] form_pair(k, v)[i] < 0x80,
{
    lemma_form_encoded_ascii(encode_utf8(k));
    lemma_form_encoded_ascii(encode_utf8(v));
    let a = form_encoded_str(k);
    let b = form_encoded_str(v);
    assert forall|i: int| 0 <= i < form_pair(k, v).len() implies #[trigger] form_pair(k, v)[i]
        < 0x80 by {
        if i < a.len() {
            assert(form_pair(k, v)[i] == a[i]);
        } else if i > a.len() {
            assert(form_pair(k, v)[i] == b[i - a.len() - 1]);
        }
    }
}

/// Every byte of a form body is ASCII.
pub proof fn lemma_form_body_ascii(pairs: Seq<(Seq<char>, Seq<char>)>)
    ensures
        forall|i: int| 0 <= i < form_body(pairs).len() ==> #[trigger] form_body(pairs)[i] < 0x80,
    decreases pairs.len(),
{
    if pairs.len() == 1 {
        lemma_form_pair_ascii(pairs[0].0, pairs[0].1);
        assert(form_body(pairs) == form_pair(pairs[0].0, pairs[0].1));
    } else if pairs.len() > 1 {
        lemma_form_body_ascii(pairs.drop_last());
        lemma_form_pair_ascii(pairs.last().0, pairs.last().1);
        let head = form_body(pairs.drop_last());
        let tail = form_pair(pairs.last().0, pairs.last().1);
        assert forall|i: int| 0 <= i < form_body(pairs).len() implies #[trigger] form_body(
            pairs,
        )[i] < 0x80 by {
            if i < head.len() {
                assert(form_body(pairs)[i] == head[i]);
            } else if i > head.len() {
                assert(form_body(pairs)[i] == tail[i - head.len() - 1]);
            }
        }
    }
}

/// The views of a pair list.
pub open spec fn pair_views(pairs: Seq<(String, String)>) -> Seq<(Seq<char>, Seq<char>)> {
    pairs.map(|_i: int, p: (String, String)| (p.0@, p.1@))
}

/// Serialize a pair list as a form body, in order.
pub fn serialize_form_pairs(pairs: &Vec<(String, String)>) -> (r: Vec<u8>)
    ensures
        r@ == form_body(pair_views(pairs@)),
{
    let mut out: Vec<u8> = Vec::new();
    let mut i: usize = 0;
    proof {
        assert(pair_views(pairs@).take(0) =~~= Seq::<(Seq<char>, Seq<char>)>::empty());
    }
    while i < pairs.len()
        invariant
            0 <= i <= pairs@.len(),
            out@ == form_body(pair_views(pairs@).take(i as int)),
        decreases pairs@.len() - i,
    {
        if i > 0 {
            out.push(0x26);
        }
        let mut k = form_encode_str(pairs[i].0.as_str());
        let mut v = form_encode_str(pairs[i].1.as_str());
        out.append(&mut k);
        out.push(0x3d);
        out.append(&mut v);
        proof {
            let views = pair_views(pairs@);
            assert(views[i as int] == (pairs@[i as int].0@, pairs@[i as int].1@));
            assert(views.take(i + 1).drop_last() =~~= views.take(i as int));
            assert(views.take(i + 1).last() == views[i as int]);
            assert(out@ =~= form_body(views.take(i + 1)));
        }
        i += 1;
    }
    proof {
        assert(pair_views(pairs@).take(pairs@.len() as int) =~~= pair_views(pairs@));
    }
    out
}

} // verus!
