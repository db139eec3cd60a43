//! PKCE, Proof Key for Code Exchange (RFC 7636), with the S256 method: a
//! random code verifier of 43 to 128 characters, and a code challenge that is
//! the unpadded URL-safe base64 of the verifier's SHA-256 digest.

use vstd::prelude::*;

verus! {

use vstd::utf8::encode_utf8;
use vstd::arithmetic::div_mod::lemma_fundamental_div_mod;
use crate::b64::b64_chars;
use crate::b64::encode_to_string;
use crate::b64::is_b64_char;
use crate::b64::lemma_b64_chars_alphabet;
use crate::b64::lemma_b64_encode_len;
use crate::state::random_bytes;
use crate::types::PkceCodeChallengeMethod;
use crate::types::PkceCodeChallengeS256;

/// The SHA-256 digest of a byte sequence, as the sha2 crate computes it.
pub uninterp spec fn sha256_of(bytes: Seq<u8>) -> Seq<u8>;

/// Relies on `sha2::Sha256::digest`: the digest is a function of the input
/// bytes alone, and is always thirty-two bytes long.
#[verifier::external_body]
fn sha256(bytes: &[u8]) -> (r: Vec<u8>)
    ensures
        r@ == sha256_of(bytes@),
        r@.len() == 32,
{
    <sha2::Sha256 as sha2::Digest>::digest(bytes).to_vec()
}

/// The challenge string a verifier string derives: unpadded URL-safe base64
/// of the SHA-256 digest of the verifier's UTF-8 bytes.
pub open spec fn spec_code_challenge(verifier: Seq<char>) -> Seq<char> {
    b64_chars(sha256_of(encode_utf8(verifier)))
}

/// Code verifier used for PKCE protection via the `code_verifier` parameter.
/// The value has a minimum length of 43 and a maximum length of 128
/// characters, each ASCII alphanumeric or `-` or `_`.
pub struct PkceCodeVerifierS256 {
    text: String,
}

impl View for PkceCodeVerifierS256 {
    type V = Seq<char>;

    closed spec fn view(&self) -> Seq<char> {
        self.text@
    }
}

impl PkceCodeVerifierS256 {
    /// Wrap a verifier string carried over from elsewhere, for callers that
    /// persist one between the authorization request and the exchange.
    pub fn new(text: &str) -> (r: PkceCodeVerifierS256)
        ensures
            r@ == text@,
    {
        PkceCodeVerifierS256 { text: text.to_owned() }
    }

    /// Generate a new random code verifier from thirty-two random bytes:
    /// always 43 characters of the unpadded URL-safe base64 alphabet.
    pub fn new_random() -> (r: PkceCodeVerifierS256)
        ensures
            r@.len() == 43,
            forall|i: int| 0 <= i < r@.len() ==> is_b64_char(#[trigger] r@[i]),
    {
        PkceCodeVerifierS256::new_random_len(32)
    }

    /// Generate a new random code verifier from `num_bytes` random bytes,
    /// base64-encoded.
    ///
    /// RFC 7636 requires of the verifier "a minimum length of 43 characters
    /// and a maximum length of 128 characters", which 32 to 96 octets of
    /// random data give; a count outside that range is a programmer error,
    /// which this library rules out ahead of the call.
    pub fn new_random_len(num_bytes: u32) -> (r: PkceCodeVerifierS256)
        requires
            32 <= num_bytes <= 96,
        ensures
            r@.len() == 4 * (num_bytes as int / 3) + (if num_bytes % 3 == 0 {
                0int
            } else if num_bytes % 3 == 1 {
                2int
            } else {
                3int
            }),
            43 <= r@.len() <= 128,
            forall|i: int| 0 <= i < r@.len() ==> is_b64_char(#[trigger] r@[i]),
    {
        let bytes = random_bytes(num_bytes as usize);
        let code = encode_to_string(bytes.as_slice());
        proof {
            lemma_b64_encode_len(bytes@);
            lemma_fundamental_div_mod(num_bytes as int, 3);
            lemma_b64_chars_alphabet(bytes@);
        }
        PkceCodeVerifierS256 { text: code }
    }

    /// The verifier string itself, as the `code_verifier` parameter carries
    /// it to the token endpoint.
    pub fn as_str(&self) -> (r: &str)
        ensures
            r@ == self@,
    {
        self.text.as_str()
    }

    /// The code challenge for this verifier: base64url, without padding, of
    /// the verifier's SHA-256 digest — always 43 characters.
    pub fn code_challenge(&self) -> (r: PkceCodeChallengeS256)
        ensures
            r@ == spec_code_challenge(self@),
            r@.len() == 43,
    {
        let digest = sha256(self.text.as_str().as_bytes());
        proof {
            lemma_b64_encode_len(digest@);
        }
        let encoded = encode_to_string(digest.as_slice());
        PkceCodeChallengeS256::new(encoded.as_str())
    }

    /// The code challenge method this verifier is for: the constant `S256`.
    pub fn code_challenge_method() -> (r: PkceCodeChallengeMethod)
        ensures
            r@ == "S256"@,
    {
        PkceCodeChallengeMethod::new("S256")
    }

    /// The extension pairs to merge into an authorization URL when PKCE is
    /// wanted: the method, then the challenge. They are not auto-included by
    /// `authorize_url`; the caller appends them.
    pub fn authorize_url_params(&self) -> (r: Vec<(String, String)>)
        ensures
            r@.len() == 2,
            r@[0].0@ == "code_challenge_method"@,
            r@[0].1@ == "S256"@,
            r@[1].0@ == "code_challenge"@,
            r@[1].1@ == spec_code_challenge(self@),
    {
        let method = PkceCodeVerifierS256::code_challenge_method();
        let challenge = self.code_challenge();
        let mut out: Vec<(String, String)> = Vec::new();
        out.push(("code_challenge_method".to_owned(), method.as_str().to_owned()));
        out.push(("code_challenge".to_owned(), challenge.as_str().to_owned()));
        out
    }
}

/// Challenge derivation is deterministic: verifiers with the same text always
/// derive the same challenge.
pub proof fn lemma_code_challenge_deterministic(a: PkceCodeVerifierS256, b: PkceCodeVerifierS256)
    requires
        a@ == b@,
    ensures
        spec_code_challenge(a@) == spec_code_challenge(b@),
{
}

} // verus!
