use oauth2::AuthType;
use oauth2::AuthorizationCode;
use oauth2::Client;
use oauth2::RefreshToken;
use oauth2::Url;
use oauth2::request::accept_header_value;
use oauth2::request::content_type_header_value;

fn client() -> Client {
    Client::new(
        "the client",
        Url::new("http://example.com/auth"),
        Url::new("http://example.com/token"),
    )
}

#[test]
fn exchange_code_body_keeps_parameter_order() {
    let prepared = client()
        .exchange_code(AuthorizationCode::new("X"))
        .param("a", "b")
        .prepare();
    assert_eq!(
        prepared.body,
        b"grant_type=authorization_code&code=X&a=b".to_vec()
    );
    assert_eq!(prepared.url.as_str(), "http://example.com/token");
}

#[test]
fn redirect_uri_is_always_last() {
    let mut c = client();
    c.set_redirect_url(Url::new("http://localhost/cb"));
    let prepared = c
        .exchange_code(AuthorizationCode::new("X"))
        .param("a", "b")
        .prepare();
    assert_eq!(
        prepared.body,
        b"grant_type=authorization_code&code=X&a=b&redirect_uri=http%3A%2F%2Flocalhost%2Fcb"
            .to_vec()
    );
}

#[test]
fn basic_auth_credentials_stay_out_of_body() {
    let mut c = client();
    c.set_client_secret("se cret&");
    // BasicAuth is the default mode.
    let prepared = c.exchange_client_credentials().prepare();
    let (user, pass) = prepared.basic_auth.expect("Basic credentials expected");
    assert_eq!(user, "the+client");
    assert_eq!(pass.as_deref(), Some("se+cret%26"));
    assert_eq!(prepared.body, b"grant_type=client_credentials".to_vec());
}

#[test]
fn basic_auth_encoding_matches_url_crate_byte_serializer() {
    let raw = "sp ced/&?=müller";
    let mut c = Client::new(
        raw,
        Url::new("http://a"),
        Url::new("http://t"),
    );
    c.set_client_secret(raw);
    let prepared = c.exchange_client_credentials().prepare();
    let expected: String = url::form_urlencoded::byte_serialize(raw.as_bytes()).collect();
    let (user, pass) = prepared.basic_auth.expect("Basic credentials expected");
    assert_eq!(user, expected);
    assert_eq!(pass.as_deref(), Some(expected.as_str()));
}

#[test]
fn request_body_auth_puts_credentials_in_body() {
    let mut c = client();
    c.set_client_secret("secret");
    c.set_auth_type(AuthType::RequestBody);
    let prepared = c.exchange_code(AuthorizationCode::new("Z")).prepare();
    assert!(prepared.basic_auth.is_none());
    assert_eq!(
        prepared.body,
        b"client_id=the+client&client_secret=secret&grant_type=authorization_code&code=Z"
            .to_vec()
    );
}

#[test]
fn request_body_auth_without_secret_sends_only_client_id() {
    let mut c = client();
    c.set_auth_type(AuthType::RequestBody);
    let prepared = c.exchange_client_credentials().prepare();
    assert!(prepared.basic_auth.is_none());
    assert_eq!(
        prepared.body,
        b"client_id=the+client&grant_type=client_credentials".to_vec()
    );
}

#[test]
fn exchange_password_carries_scope_space_joined() {
    let mut c = client();
    c.add_scope("read");
    c.add_scope("write");
    let prepared = c.exchange_password("user name", "pass word").prepare();
    let body = String::from_utf8(prepared.body).unwrap();
    assert_eq!(
        body,
        "grant_type=password&username=user+name&password=pass+word&scope=read+write"
    );
}

#[test]
fn exchange_password_omits_scope_when_none_added() {
    let prepared = client().exchange_password("u", "p").prepare();
    let body = String::from_utf8(prepared.body).unwrap();
    assert_eq!(body, "grant_type=password&username=u&password=p");
}

#[test]
fn exchange_client_credentials_uses_scopes_key() {
    let mut c = client();
    c.add_scope("read");
    let prepared = c.exchange_client_credentials().prepare();
    let body = String::from_utf8(prepared.body).unwrap();
    assert_eq!(body, "grant_type=client_credentials&scopes=read");
}

#[test]
fn exchange_refresh_token_body() {
    let prepared = client()
        .exchange_refresh_token(&RefreshToken::new("rt-1"))
        .prepare();
    let body = String::from_utf8(prepared.body).unwrap();
    assert_eq!(body, "grant_type=refresh_token&refresh_token=rt-1");
}

#[test]
fn fixed_header_values() {
    assert_eq!(accept_header_value(), "application/json");
    assert_eq!(
        content_type_header_value(),
        "application/x-www-form-urlencoded"
    );
}
