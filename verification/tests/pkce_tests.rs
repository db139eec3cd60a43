use base64::Engine;
use oauth2::PkceCodeVerifierS256;
use sha2::Digest;

#[test]
fn verifier_length_bounds() {
    assert_eq!(PkceCodeVerifierS256::new_random_len(32).as_str().len(), 43);
    assert_eq!(PkceCodeVerifierS256::new_random_len(96).as_str().len(), 128);
    for num_bytes in 32..=96u32 {
        let len = PkceCodeVerifierS256::new_random_len(num_bytes).as_str().len();
        // The unpadded base64 length of `num_bytes` bytes, exactly.
        assert_eq!(len as u32, (4 * num_bytes + 2) / 3);
        assert!((43..=128).contains(&len));
    }
    let len = PkceCodeVerifierS256::new_random().as_str().len();
    assert_eq!(len, 43);
}

#[test]
fn verifier_characters_are_base64url() {
    for num_bytes in [32u32, 57, 96] {
        let verifier = PkceCodeVerifierS256::new_random_len(num_bytes);
        assert!(verifier
            .as_str()
            .chars()
            .all(|c| c.is_ascii_alphanumeric() || c == '-' || c == '_'));
    }
}

#[test]
fn code_challenge_rfc7636_appendix_b_vector() {
    let verifier = PkceCodeVerifierS256::new("dBjftJeZ4CVP-mB92K27uhbUJU1p1r_wW1gFWFOEjXk");
    let challenge = verifier.code_challenge();
    assert_eq!(challenge.as_str(), "E9Melhoa2OwvFrEMTJguCHaoeK1t8URWbuGJSstw-cM");
}

#[test]
fn code_challenge_matches_sha2_and_base64_crates() {
    let verifier = PkceCodeVerifierS256::new_random_len(64);
    let digest = sha2::Sha256::digest(verifier.as_str().as_bytes());
    let expected = base64::engine::general_purpose::URL_SAFE_NO_PAD.encode(digest);
    assert_eq!(verifier.code_challenge().as_str(), expected);
    assert_eq!(verifier.code_challenge().as_str().len(), 43);
}

#[test]
fn code_challenge_is_stable() {
    let verifier = PkceCodeVerifierS256::new_random();
    let first = verifier.code_challenge();
    let second = verifier.code_challenge();
    assert_eq!(first, second);
}

#[test]
fn independent_verifiers_differ() {
    let a = PkceCodeVerifierS256::new_random();
    let b = PkceCodeVerifierS256::new_random();
    assert_ne!(a.as_str(), b.as_str());
    assert_ne!(a.code_challenge(), b.code_challenge());
}

#[test]
fn code_challenge_method_is_s256() {
    assert_eq!(PkceCodeVerifierS256::code_challenge_method().as_str(), "S256");
}

#[test]
fn authorize_url_params_hold_method_then_challenge() {
    let verifier = PkceCodeVerifierS256::new_random();
    let params = verifier.authorize_url_params();
    assert_eq!(params.len(), 2);
    assert_eq!(params[0].0, "code_challenge_method");
    assert_eq!(params[0].1, "S256");
    assert_eq!(params[1].0, "code_challenge");
    assert_eq!(params[1].1, verifier.code_challenge().as_str());
}
