//! CSRF correlation token: sixteen random bytes, carried on the wire as the
//! `state` query parameter in unpadded URL-safe base64.
//!
//! Equality is a full byte-for-byte comparison; a caller compares the state a
//! provider sends back against the one generated at authorize time, and must
//! treat any mismatch as an attack, never as a retryable error.

use vstd::prelude::*;

verus! {

broadcast use vstd::array::group_array_axioms;

use crate::b64::b64_chars;
use crate::b64::b64_decode_chars;
use crate::b64::decode_from_str;
use crate::b64::encode_to_string;
use crate::b64::lemma_b64_chars_round_trip;
use crate::b64::lemma_b64_encode_len;

/// Relies on `rand::fill`: fills the buffer from the thread-local
/// cryptographically secure generator. Nothing can be promised of the values;
/// only the length is stated.
#[verifier::external_body]
pub(crate) fn random_bytes(n: usize) -> (r: Vec<u8>)
    ensures
        r@.len() == n,
{
    let mut buf = vec![0u8; n];
    rand::fill(buf.as_mut_slice());
    buf
}

/// Value used for CSRF protection (RFC 6749 section 10.12) via the `state`
/// parameter: sixteen random bytes. Redacted in diagnostics.
#[derive(Clone, Copy, Hash)]
pub struct State {
    bytes: [u8; 16],
}

impl View for State {
    type V = Seq<u8>;

    closed spec fn view(&self) -> Seq<u8> {
        self.bytes@
    }
}

impl PartialEq for State {
    /// Full byte-for-byte comparison.
    fn eq(&self, other: &State) -> (r: bool) {
        let mut i: usize = 0;
        while i < 16
            invariant
                0 <= i <= 16,
                self@.len() == 16,
                other@.len() == 16,
                forall|j: int| 0 <= j < i ==> self@[j] == other@[j],
            decreases 16 - i,
        {
            if self.bytes[i] != other.bytes[i] {
                return false;
            }
            i += 1;
        }
        proof {
            assert(self@ =~= other@);
        }
        true
    }
}

impl Eq for State {}

impl vstd::std_specs::cmp::PartialEqSpecImpl for State {
    open spec fn obeys_eq_spec() -> bool {
        true
    }

    open spec fn eq_spec(&self, other: &State) -> bool {
        self@ == other@
    }
}

impl State {
    /// Generate a new random 128-bit CSRF token from secure randomness.
    pub fn new_random() -> (r: State)
        ensures
            r@.len() == 16,
    {
        let v = random_bytes(16);
        let mut bytes: [u8; 16] = [0u8; 16];
        let mut i: usize = 0;
        while i < 16
            invariant
                0 <= i <= 16,
                v@.len() == 16,
                bytes@.len() == 16,
                forall|j: int| 0 <= j < i ==> bytes@[j] == v@[j],
            decreases 16 - i,
        {
            bytes[i] = v[i];
            i += 1;
        }
        State { bytes }
    }

    /// A state over the given bytes, for callers that carry one over from a
    /// provider callback.
    pub fn from_bytes(bytes: [u8; 16]) -> (r: State)
        ensures
            r@ == bytes@,
            r@.len() == 16,
    {
        State { bytes }
    }

    /// The bytes themselves.
    pub fn as_bytes(&self) -> (r: &[u8])
        ensures
            r@ == self@,
    {
        self.bytes.as_slice()
    }

    /// The wire form: unpadded URL-safe base64 of the sixteen bytes, which is
    /// always twenty-two characters.
    pub fn to_base64(&self) -> (r: String)
        ensures
            r@ == b64_chars(self@),
            r@.len() == 22,
    {
        proof {
            lemma_b64_encode_len(self@);
        }
        encode_to_string(self.bytes.as_slice())
    }

    /// Decode the wire form. Fails unless the string is well-formed unpadded
    /// URL-safe base64 of exactly sixteen bytes.
    pub fn from_base64(s: &str) -> (r: Option<State>)
        ensures
            match r {
                Some(st) => b64_decode_chars(s@) == Some(st@) && st@.len() == 16,
                None => (b64_decode_chars(s@) matches Some(b) ==> b.len() != 16),
            },
    {
        let decoded = match decode_from_str(s) {
            Some(v) => v,
            None => {
                return None;
            },
        };
        if decoded.len() != 16 {
            return None;
        }
        let mut bytes: [u8; 16] = [0u8; 16];
        let mut i: usize = 0;
        while i < 16
            invariant
                0 <= i <= 16,
                decoded@.len() == 16,
                bytes@.len() == 16,
                forall|j: int| 0 <= j < i ==> bytes@[j] == decoded@[j],
            decreases 16 - i,
        {
            bytes[i] = decoded[i];
            i += 1;
        }
        proof {
            assert(bytes@ =~= decoded@);
        }
        Some(State { bytes })
    }

    /// Fixed placeholder shown in place of the bytes in diagnostics.
    pub fn redacted(&self) -> (r: &'static str)
        ensures
            r@ == "State([redacted])"@,
    {
        "State([redacted])"
    }
}

/// Base64 round trip of a CSRF state: decoding the wire form of any state
/// gives its sixteen bytes back, so `from_base64` restores exactly the state
/// that `to_base64` serialized.
pub proof fn lemma_state_round_trip(st: State)
    requires
        st@.len() == 16,
    ensures
        b64_decode_chars(b64_chars(st@)) == Some(st@),
{
    lemma_b64_chars_round_trip(st@);
}

/// The wire form tells states apart: two states with the same encoding hold
/// the same bytes, so the CSRF comparison loses nothing by happening on
/// decoded values.
pub proof fn lemma_state_encoding_injective(a: State, b: State)
    requires
        a@.len() == 16,
        b@.len() == 16,
        b64_chars(a@) == b64_chars(b@),
    ensures
        a@ == b@,
{
    lemma_state_round_trip(a);
    lemma_state_round_trip(b);
}

} // verus!
