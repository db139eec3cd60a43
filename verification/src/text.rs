//! Character- and byte-level helpers shared by the wire encoders: turning
//! ASCII byte output into `String`s, space-joining scope lists for the
//! `scope` parameter, and splitting the space-delimited `scope` field of a
//! token response.

use vstd::prelude::*;

verus! {

/// The characters that stand for a sequence of ASCII bytes, one per byte.
pub open spec fn ascii_chars(bytes: Seq<u8>) -> Seq<char> {
    bytes.map(|_i: int, b: u8| b as char)
}

/// Relies on `String::from_utf8`: bytes below `0x80` are one-byte UTF-8
/// encodings, so they decode to the string whose characters are exactly
/// those bytes.
#[verifier::external_body]
pub(crate) fn ascii_to_string(bytes: Vec<u8>) -> (r: String)
    requires
        forall|i: int| 0 <= i < bytes@.len() ==> bytes@[i] < 0x80,
    ensures
        r@ == ascii_chars(bytes@),
{
    String::from_utf8(bytes).unwrap_or_default()
}

/// The pieces joined with single spaces, in order.
pub open spec fn spec_join_spaces(items: Seq<Seq<char>>) -> Seq<char>
    decreases items.len(),
{
    if items.len() == 0 {
        Seq::empty()
    } else if items.len() == 1 {
        items[0]
    } else {
        spec_join_spaces(items.drop_last()) + seq![' '] + items.last()
    }
}

/// The pieces of `s` between space characters, in order, empty pieces kept;
/// a string without spaces is one piece, so there is always at least one.
pub open spec fn spec_split_spaces(s: Seq<char>) -> Seq<Seq<char>>
    decreases s.len(),
{
    if s.len() == 0 {
        seq![Seq::<char>::empty()]
    } else if s[0] == ' ' {
        seq![Seq::<char>::empty()] + spec_split_spaces(s.skip(1))
    } else {
        let rest = spec_split_spaces(s.skip(1));
        seq![seq![s[0]] + rest[0]] + rest.skip(1)
    }
}

/// Splitting never yields an empty list of pieces.
pub proof fn lemma_split_spaces_len(s: Seq<char>)
    ensures
        spec_split_spaces(s).len() >= 1,
    decreases s.len(),
{
    if s.len() != 0 {
        lemma_split_spaces_len(s.skip(1));
    }
}

/// Split a string at every space character, keeping empty pieces, as the
/// space-delimited `scope` field of a token response is decoded.
pub fn split_spaces(s: &str) -> (r: Vec<String>)
    ensures
        r.deep_view() == spec_split_spaces(s@),
{
    let len = s.unicode_len();
    let mut out: Vec<String> = Vec::new();
    let mut start: usize = 0;
    let mut i: usize = 0;
    proof {
        lemma_split_spaces_len(s@);
        assert(s@.skip(0) =~= s@);
        assert(s@.subrange(0, 0) =~= Seq::<char>::empty());
        let pieces = spec_split_spaces(s@);
        assert(Seq::<char>::empty() + pieces[0] =~= pieces[0]);
        assert(prepend_first(Seq::<char>::empty(), pieces) =~~= pieces);
        assert(out.deep_view() + prepend_first(Seq::<char>::empty(), pieces) =~~= pieces);
    }
    while i < len
        invariant
            0 <= start <= i <= len,
            len == s@.len(),
            spec_split_spaces(s@) == out.deep_view() + prepend_first(
                s@.subrange(start as int, i as int),
                spec_split_spaces(s@.skip(i as int)),
            ),
        decreases len - i,
    {
        proof {
            lemma_split_spaces_len(s@.skip(i as int));
            lemma_split_spaces_len(s@.skip(i + 1));
        }
        let c = s.get_char(i);
        if c == ' ' {
            let piece = s.substring_char(start, i).to_owned();
            proof {
                assert(s@.skip(i as int)[0] == ' ');
                assert(s@.skip(i as int).skip(1) =~= s@.skip(i + 1));
                assert(spec_split_spaces(s@.skip(i as int)) =~~= seq![Seq::<char>::empty()]
                    + spec_split_spaces(s@.skip(i + 1)));
                assert(prepend_first(
                    s@.subrange(start as int, i as int),
                    spec_split_spaces(s@.skip(i as int)),
                ) =~= seq![s@.subrange(start as int, i as int)] + prepend_first(
                    Seq::<char>::empty(),
                    spec_split_spaces(s@.skip(i + 1)),
                ));
            }
            out.push(piece);
            start = i + 1;
            proof {
                assert(out.deep_view() + prepend_first(
                    s@.subrange(start as int, i + 1),
                    spec_split_spaces(s@.skip(i + 1)),
                ) =~= spec_split_spaces(s@));
            }
        } else {
            proof {
                assert(s@.skip(i as int)[0] == c);
                let rest = spec_split_spaces(s@.skip(i + 1));
                assert(s@.skip(i as int).skip(1) =~= s@.skip(i + 1));
                assert(spec_split_spaces(s@.skip(i as int)) =~= seq![seq![c] + rest[0]]
                    + rest.skip(1));
                assert(s@.subrange(start as int, i as int) + (seq![c] + rest[0])
                    =~= s@.subrange(start as int, i + 1) + rest[0]);
                assert(prepend_first(
                    s@.subrange(start as int, i as int),
                    spec_split_spaces(s@.skip(i as int)),
                ) =~= prepend_first(s@.subrange(start as int, i + 1), rest));
            }
        }
        i += 1;
    }
    let piece = s.substring_char(start, len).to_owned();
    proof {
        assert(s@.skip(len as int) =~= Seq::<char>::empty());
        assert(spec_split_spaces(s@.skip(len as int)) =~= seq![Seq::<char>::empty()]);
        assert(prepend_first(
            s@.subrange(start as int, len as int),
            seq![Seq::<char>::empty()],
        ) =~= seq![s@.subrange(start as int, len as int)]);
    }
    out.push(piece);
    proof {
        assert(out.deep_view() =~= spec_split_spaces(s@));
    }
    out
}

/// A join of two or more pieces starts with its first piece and a space.
proof fn lemma_join_spaces_front(items: Seq<Seq<char>>)
    requires
        items.len() >= 2,
    ensures
        spec_join_spaces(items) == items[0] + seq![' '] + spec_join_spaces(items.skip(1)),
    decreases items.len(),
{
    if items.len() == 2 {
        assert(items.skip(1) =~~= seq![items[1]]);
        assert(items.drop_last() =~~= seq![items[0]]);
        assert(items.last() == items[1]);
        assert(spec_join_spaces(seq![items[0]]) == items[0]);
        assert(spec_join_spaces(seq![items[1]]) == items[1]);
        assert(spec_join_spaces(items) =~= items[0] + seq![' '] + spec_join_spaces(
            items.skip(1),
        ));
    } else {
        lemma_join_spaces_front(items.drop_last());
        assert(items.drop_last()[0] == items[0]);
        assert(items.skip(1).drop_last() =~~= items.drop_last().skip(1));
        assert(items.skip(1).last() == items.last());
        assert(spec_join_spaces(items) =~= items[0] + seq![' '] + spec_join_spaces(
            items.skip(1),
        ));
    }
}

/// A string without spaces splits into itself alone.
proof fn lemma_split_spaces_no_space(s: Seq<char>)
    requires
        !s.contains(' '),
    ensures
        spec_split_spaces(s) == seq![s],
    decreases s.len(),
{
    if s.len() == 0 {
        assert(spec_split_spaces(s) =~~= seq![s]);
    } else {
        assert(s[0] != ' ');
        assert(!s.skip(1).contains(' ')) by {
            if s.skip(1).contains(' ') {
                let k = choose|k: int| 0 <= k < s.skip(1).len() && s.skip(1)[k] == ' ';
                assert(s[k + 1] == ' ');
                assert(s.contains(' '));
            }
        }
        lemma_split_spaces_no_space(s.skip(1));
        assert(spec_split_spaces(s) =~~= seq![s]);
    }
}

/// A space after a spaceless piece cuts exactly there.
proof fn lemma_split_spaces_cut(a: Seq<char>, t: Seq<char>)
    requires
        !a.contains(' '),
    ensures
        spec_split_spaces(a + seq![' '] + t) == seq![a] + spec_split_spaces(t),
    decreases a.len(),
{
    let s = a + seq![' '] + t;
    if a.len() == 0 {
        assert(s[0] == ' ');
        assert(s.skip(1) =~~= t);
        assert(spec_split_spaces(s) =~~= seq![a] + spec_split_spaces(t));
    } else {
        assert(s[0] == a[0]);
        assert(a[0] != ' ');
        assert(!a.skip(1).contains(' ')) by {
            if a.skip(1).contains(' ') {
                let k = choose|k: int| 0 <= k < a.skip(1).len() && a.skip(1)[k] == ' ';
                assert(a[k + 1] == ' ');
                assert(a.contains(' '));
            }
        }
        lemma_split_spaces_cut(a.skip(1), t);
        assert(s.skip(1) =~~= a.skip(1) + seq![' '] + t);
        lemma_split_spaces_len(s.skip(1));
        assert(spec_split_spaces(s.skip(1))[0] == a.skip(1));
        assert(seq![a[0]] + a.skip(1) =~= a);
        assert(spec_split_spaces(s) =~~= seq![a] + spec_split_spaces(t));
    }
}

/// Splitting inverts joining: a non-empty list of pieces, none holding a
/// space, comes back unchanged from the space-joined wire form — the scope
/// list of a token survives its space-delimited encoding.
pub proof fn lemma_split_spaces_inverts_join(items: Seq<Seq<char>>)
    requires
        items.len() >= 1,
        forall|i: int| 0 <= i < items.len() ==> !(#[trigger] items[i]).contains(' '),
    ensures
        spec_split_spaces(spec_join_spaces(items)) == items,
    decreases items.len(),
{
    if items.len() == 1 {
        lemma_split_spaces_no_space(items[0]);
        assert(spec_split_spaces(spec_join_spaces(items)) =~~= items);
    } else {
        lemma_join_spaces_front(items);
        lemma_split_spaces_cut(items[0], spec_join_spaces(items.skip(1)));
        lemma_split_spaces_inverts_join(items.skip(1));
        assert(spec_split_spaces(spec_join_spaces(items)) =~~= items);
    }
}

/// Character-for-character string comparison.
pub fn str_eq(a: &str, b: &str) -> (r: bool)
    ensures
        r == (a@ == b@),
{
    let alen = a.unicode_len();
    let blen = b.unicode_len();
    if alen != blen {
        return false;
    }
    let mut i: usize = 0;
    while i < alen
        invariant
            0 <= i <= alen,
            alen == a@.len(),
            alen == b@.len(),
            forall|j: int| 0 <= j < i ==> a@[j] == b@[j],
        decreases alen - i,
    {
        if a.get_char(i) != b.get_char(i) {
            return false;
        }
        i += 1;
    }
    proof {
        assert(a@ =~= b@);
    }
    true
}

/// The first piece with `p` put before it, the rest unchanged.
pub open spec fn prepend_first(p: Seq<char>, pieces: Seq<Seq<char>>) -> Seq<Seq<char>>
    recommends
        pieces.len() >= 1,
{
    seq![p + pieces[0]] + pieces.skip(1)
}

} // verus!
