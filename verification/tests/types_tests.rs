use base64::Engine;
use oauth2::AccessToken;
use oauth2::AuthorizationCode;
use oauth2::ClientSecret;
use oauth2::RefreshToken;
use oauth2::Scope;
use oauth2::b64;
use oauth2::text;

#[test]
fn secret_types_redact_to_fixed_placeholders() {
    assert_eq!(ClientSecret::new("hunter2").redacted(), "ClientSecret([redacted])");
    assert_eq!(AuthorizationCode::new("c0de").redacted(), "AuthorizationCode([redacted])");
    assert_eq!(RefreshToken::new("rt").redacted(), "RefreshToken([redacted])");
    assert_eq!(AccessToken::new("at").redacted(), "AccessToken([redacted])");
}

#[test]
fn newtypes_keep_their_text_for_deliberate_access() {
    assert_eq!(ClientSecret::new("hunter2").as_str(), "hunter2");
    assert_eq!(Scope::new("read").as_str(), "read");
}

#[test]
fn split_spaces_keeps_empty_pieces() {
    assert_eq!(text::split_spaces("a b"), vec!["a".to_owned(), "b".to_owned()]);
    assert_eq!(text::split_spaces(""), vec!["".to_owned()]);
    assert_eq!(text::split_spaces(" "), vec!["".to_owned(), "".to_owned()]);
    assert_eq!(
        text::split_spaces("a  b"),
        vec!["a".to_owned(), "".to_owned(), "b".to_owned()]
    );
}

#[test]
fn split_inverts_join_for_spaceless_scopes() {
    let scopes = vec![
        Scope::new("read"),
        Scope::new("write"),
        Scope::new("admin:org"),
    ];
    let joined = oauth2::types::join_scopes(&scopes);
    assert_eq!(joined, "read write admin:org");
    let back = text::split_spaces(&joined);
    assert_eq!(back, vec!["read".to_owned(), "write".to_owned(), "admin:org".to_owned()]);
}

#[test]
fn base64_encoding_matches_base64_crate() {
    let cases: Vec<Vec<u8>> = vec![
        vec![],
        vec![0],
        vec![255],
        vec![1, 2],
        vec![251, 252, 253],
        vec![0, 63, 128, 191, 255, 7, 9],
        (0..=255u8).collect(),
    ];
    for bytes in cases {
        let mine = b64::encode_to_string(bytes.as_slice());
        let theirs = base64::engine::general_purpose::URL_SAFE_NO_PAD.encode(&bytes);
        assert_eq!(mine, theirs);
        let back = b64::decode_from_str(mine.as_str()).expect("round trip");
        assert_eq!(back, bytes);
    }
}

#[test]
fn base64_decode_rejects_ill_formed_input() {
    // A length of one more than a multiple of four is never an encoding.
    assert!(b64::decode_from_str("A").is_none());
    assert!(b64::decode_from_str("AAAAB").is_none());
    // Characters outside the URL-safe alphabet.
    assert!(b64::decode_from_str("A+").is_none());
    assert!(b64::decode_from_str("A/").is_none());
    assert!(b64::decode_from_str("A=").is_none());
    assert!(b64::decode_from_str("Aé").is_none());
}

#[test]
fn form_encoding_matches_url_crate_byte_serializer() {
    let cases = [
        "plain",
        "two words",
        "*-._ keep",
        "reserved &?=/+%",
        "unicode müller 東京",
        "",
    ];
    for case in cases {
        let mine = String::from_utf8(oauth2::form::form_encode_str(case)).unwrap();
        let theirs: String = url::form_urlencoded::byte_serialize(case.as_bytes()).collect();
        assert_eq!(mine, theirs, "encoding of {:?}", case);
    }
}
