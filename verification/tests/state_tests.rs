use base64::Engine;
use oauth2::State;

#[test]
fn state_base64_round_trip_random() {
    let state = State::new_random();
    let encoded = state.to_base64();
    let decoded = State::from_base64(encoded.as_str()).expect("well-formed encoding");
    assert!(decoded == state);
}

#[test]
fn state_base64_round_trip_fixed() {
    let bytes: [u8; 16] = [0, 1, 2, 3, 4, 5, 6, 7, 8, 9, 10, 11, 12, 13, 14, 15];
    let state = State::from_bytes(bytes);
    let encoded = state.to_base64();
    let decoded = State::from_base64(encoded.as_str()).expect("well-formed encoding");
    assert_eq!(decoded.as_bytes(), &bytes);
}

#[test]
fn state_to_base64_matches_base64_crate() {
    let bytes: [u8; 16] = [0, 255, 7, 128, 63, 64, 91, 17, 200, 250, 45, 95, 1, 2, 254, 33];
    let state = State::from_bytes(bytes);
    let expected = base64::engine::general_purpose::URL_SAFE_NO_PAD.encode(bytes);
    assert_eq!(state.to_base64(), expected);
}

#[test]
fn state_to_base64_known_value() {
    let bytes: [u8; 16] = [0, 1, 2, 3, 4, 5, 6, 7, 8, 9, 10, 11, 12, 13, 14, 15];
    let state = State::from_bytes(bytes);
    assert_eq!(state.to_base64(), "AAECAwQFBgcICQoLDA0ODw");
    assert_eq!(state.to_base64().len(), 22);
}

#[test]
fn state_from_base64_rejects_wrong_length() {
    // Four alphabet characters decode to three bytes, not sixteen.
    assert!(State::from_base64("AAAA").is_none());
    // Twenty-two characters of a fifteen- or seventeen-byte payload cannot
    // exist, but a valid 24-character string gives eighteen bytes.
    assert!(State::from_base64("AAAAAAAAAAAAAAAAAAAAAAAA").is_none());
}

#[test]
fn state_from_base64_rejects_bad_characters() {
    assert!(State::from_base64("!!!!!!!!!!!!!!!!!!!!!!").is_none());
    // Standard-alphabet characters `+` and `/` are not in the URL-safe set.
    assert!(State::from_base64("+AECAwQFBgcICQoLDA0ODw").is_none());
    // A length of one more than a multiple of four is never an encoding.
    assert!(State::from_base64("AAECAwQFBgcICQoLDA0ODwA").is_none());
}

#[test]
fn state_equality_is_byte_for_byte() {
    let a = State::from_bytes([7; 16]);
    let b = State::from_bytes([7; 16]);
    let mut third = [7u8; 16];
    third[15] = 8;
    let c = State::from_bytes(third);
    assert!(a == b);
    assert!(a != c);
}

#[test]
fn state_new_random_draws_fresh_tokens() {
    let a = State::new_random();
    let b = State::new_random();
    assert!(a != b);
}

#[test]
fn distinct_states_have_distinct_encodings() {
    let a = State::from_bytes([1; 16]);
    let mut other = [1u8; 16];
    other[0] = 2;
    let b = State::from_bytes(other);
    assert_ne!(a.to_base64(), b.to_base64());
}

#[test]
fn state_redacted_placeholder() {
    let state = State::new_random();
    assert_eq!(state.redacted(), "State([redacted])");
}
