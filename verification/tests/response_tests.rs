use oauth2::ErrorField;
use oauth2::RequestTokenError;
use oauth2::StandardToken;
use oauth2::Token;
use oauth2::TokenType;
use oauth2::decode_response;

fn decode(status: u16, body: &str) -> Result<StandardToken, RequestTokenError> {
    decode_response::<StandardToken>(status, body.as_bytes().to_vec())
}

fn decode_err(status: u16, body: &str) -> RequestTokenError {
    match decode(status, body) {
        Err(e) => e,
        Ok(_) => panic!("an error outcome was expected"),
    }
}

#[test]
fn success_body_decodes_standard_token() {
    let token = decode(
        200,
        r#"{"access_token":"abc","token_type":"bearer","expires_in":3600,"scope":"read write"}"#,
    )
    .expect("token expected");
    assert_eq!(token.access_token().as_str(), "abc");
    assert_eq!(*token.token_type(), TokenType::Bearer);
    assert_eq!(token.expires_in(), Some(3600));
    assert!(token.refresh_token().is_none());
    let scopes = token.scopes().expect("scopes expected");
    assert_eq!(scopes.len(), 2);
    assert_eq!(scopes[0].as_str(), "read");
    assert_eq!(scopes[1].as_str(), "write");
}

#[test]
fn token_type_is_case_insensitive() {
    for written in ["bearer", "Bearer", "BEARER", "BeArEr"] {
        let body = format!(r#"{{"access_token":"a","token_type":"{}"}}"#, written);
        let token = decode(200, &body).expect("token expected");
        assert_eq!(*token.token_type(), TokenType::Bearer);
    }
    let token = decode(200, r#"{"access_token":"a","token_type":"MAC"}"#).unwrap();
    assert_eq!(*token.token_type(), TokenType::Mac);
}

#[test]
fn unknown_token_type_is_malformed() {
    let r = decode(200, r#"{"access_token":"a","token_type":"hawk"}"#);
    assert!(matches!(r, Err(RequestTokenError::BadResponse { status: 200, .. })));
}

#[test]
fn optional_fields_default_to_none() {
    let token = decode(200, r#"{"access_token":"a","token_type":"bearer"}"#).unwrap();
    assert_eq!(token.expires_in(), None);
    assert!(token.refresh_token().is_none());
    assert!(token.scopes().is_none());
}

#[test]
fn refresh_token_is_carried_over() {
    let token = decode(
        200,
        r#"{"access_token":"a","token_type":"bearer","refresh_token":"next"}"#,
    )
    .unwrap();
    assert_eq!(token.refresh_token().expect("refresh token").as_str(), "next");
}

#[test]
fn empty_scope_string_is_one_empty_scope() {
    let token = decode(200, r#"{"access_token":"a","token_type":"bearer","scope":""}"#).unwrap();
    let scopes = token.scopes().expect("scopes expected");
    assert_eq!(scopes.len(), 1);
    assert_eq!(scopes[0].as_str(), "");
}

#[test]
fn error_body_yields_structured_error() {
    let r = decode(
        400,
        r#"{"error":"invalid_grant","error_description":"expired code"}"#,
    );
    match r {
        Err(RequestTokenError::ErrorResponse { status, error }) => {
            assert_eq!(status, 400);
            assert_eq!(error.error, ErrorField::InvalidGrant);
            assert_eq!(error.error_description.as_deref(), Some("expired code"));
            assert_eq!(error.error_uri, None);
        }
        _ => panic!("unexpected outcome"),
    }
}

#[test]
fn nonstandard_error_code_is_kept_verbatim() {
    let r = decode(403, r#"{"error":"slow_down","error_uri":"http://why"}"#);
    match r {
        Err(RequestTokenError::ErrorResponse { error, .. }) => {
            assert_eq!(error.error, ErrorField::Other("slow_down".to_owned()));
            assert_eq!(error.error_uri.as_deref(), Some("http://why"));
        }
        _ => panic!("unexpected outcome"),
    }
}

#[test]
fn empty_body_wins_over_status() {
    for status in [200u16, 204, 400, 503] {
        let r = decode(status, "");
        match r {
            Err(RequestTokenError::EmptyResponse { status: got }) => assert_eq!(got, status),
            _ => panic!("unexpected outcome"),
        }
    }
}

#[test]
fn unparseable_success_body_is_malformed_with_raw_bytes() {
    let r = decode(200, "this is not json");
    match r {
        Err(RequestTokenError::BadResponse { status, body }) => {
            assert_eq!(status, 200);
            assert_eq!(body, b"this is not json".to_vec());
        }
        _ => panic!("unexpected outcome"),
    }
}

#[test]
fn unparseable_error_body_is_malformed() {
    let r = decode(500, r#"{"message":"oops"}"#);
    assert!(matches!(r, Err(RequestTokenError::BadResponse { status: 500, .. })));
    // A description of the wrong type fails the error schema as a whole.
    let r = decode(400, r#"{"error":"invalid_scope","error_description":7}"#);
    assert!(matches!(r, Err(RequestTokenError::BadResponse { status: 400, .. })));
}

#[test]
fn error_schema_is_not_tried_on_success_status() {
    // A body in the error shape under a 200 fails the token schema instead.
    let r = decode(200, r#"{"error":"invalid_grant"}"#);
    assert!(matches!(r, Err(RequestTokenError::BadResponse { status: 200, .. })));
}

#[test]
fn token_schema_is_not_tried_on_failing_status() {
    let r = decode(400, r#"{"access_token":"a","token_type":"bearer"}"#);
    assert!(matches!(r, Err(RequestTokenError::BadResponse { status: 400, .. })));
}

#[test]
fn expires_in_must_be_an_unsigned_integer() {
    let r = decode(200, r#"{"access_token":"a","token_type":"bearer","expires_in":"3600"}"#);
    assert!(matches!(r, Err(RequestTokenError::BadResponse { .. })));
    let r = decode(200, r#"{"access_token":"a","token_type":"bearer","expires_in":-1}"#);
    assert!(matches!(r, Err(RequestTokenError::BadResponse { .. })));
}

#[test]
fn error_accessors_report_status_and_body() {
    let bad = decode_err(502, "garbage");
    assert_eq!(bad.status(), Some(502));
    assert_eq!(bad.body().map(|b| b.as_slice()), Some(b"garbage".as_slice()));

    let empty = decode_err(404, "");
    assert_eq!(empty.status(), Some(404));
    assert!(empty.body().is_none());
}

#[test]
fn error_response_to_text_joins_all_parts() {
    let r = decode(
        400,
        r#"{"error":"invalid_grant","error_description":"expired code","error_uri":"http://why"}"#,
    );
    match r {
        Err(RequestTokenError::ErrorResponse { error, .. }) => {
            assert_eq!(error.to_text(), "invalid_grant: expired code / See http://why");
            assert_eq!(error.error.to_text(), "invalid_grant");
        }
        _ => panic!("unexpected outcome"),
    }
}
