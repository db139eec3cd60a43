use base64::Engine;
use oauth2::Client;
use oauth2::State;
use oauth2::Url;

fn fixed_state() -> State {
    State::from_bytes([0, 1, 2, 3, 4, 5, 6, 7, 8, 9, 10, 11, 12, 13, 14, 15])
}

#[test]
fn authorize_url_fixed_order_and_encoding() {
    let mut client = Client::new(
        "client id",
        Url::new("http://example.com/auth"),
        Url::new("http://example.com/token"),
    );
    client.set_redirect_url(Url::new("http://localhost:8080/cb"));
    client.add_scope("read");
    client.add_scope("write");
    let state = fixed_state();
    let url = client.authorize_url(&state);
    assert_eq!(
        url.as_str(),
        "http://example.com/auth?response_type=code&client_id=client+id\
         &redirect_uri=http%3A%2F%2Flocalhost%3A8080%2Fcb&scope=read+write\
         &state=AAECAwQFBgcICQoLDA0ODw"
    );
}

#[test]
fn authorize_url_matches_url_crate_serializer() {
    let mut client = Client::new(
        "cli&nt",
        Url::new("http://example.com/auth"),
        Url::new("http://example.com/token"),
    );
    client.set_redirect_url(Url::new("http://redirect/path?x=1"));
    client.add_scope("sc ope");
    client.add_scope("plain");
    let state = fixed_state();
    let url = client.authorize_url(&state);

    let mut expected = url::Url::parse("http://example.com/auth").unwrap();
    expected
        .query_pairs_mut()
        .append_pair("response_type", "code")
        .append_pair("client_id", "cli&nt")
        .append_pair("redirect_uri", "http://redirect/path?x=1")
        .append_pair("scope", "sc ope plain")
        .append_pair(
            "state",
            &base64::engine::general_purpose::URL_SAFE_NO_PAD
                .encode([0, 1, 2, 3, 4, 5, 6, 7, 8, 9, 10, 11, 12, 13, 14, 15]),
        );
    assert_eq!(url.as_str(), expected.as_str());
}

#[test]
fn authorize_url_omits_scope_when_none_added() {
    let client = Client::new(
        "id",
        Url::new("http://example.com/auth"),
        Url::new("http://example.com/token"),
    );
    let url = client.authorize_url(&fixed_state());
    assert!(!url.as_str().contains("scope"));
    assert_eq!(
        url.as_str(),
        "http://example.com/auth?response_type=code&client_id=id&state=AAECAwQFBgcICQoLDA0ODw"
    );
}

#[test]
fn authorize_url_keeps_scope_insertion_order_and_duplicates() {
    let mut client = Client::new(
        "id",
        Url::new("http://auth"),
        Url::new("http://token"),
    );
    client.add_scope("b");
    client.add_scope("a");
    client.add_scope("b");
    let url = client.authorize_url(&fixed_state());
    assert!(url.as_str().contains("scope=b+a+b"));
}

#[test]
fn authorize_url_implicit_requests_token_response_type() {
    let client = Client::new(
        "id",
        Url::new("http://example.com/auth"),
        Url::new("http://example.com/token"),
    );
    let url = client.authorize_url_implicit(&fixed_state());
    assert!(url.as_str().starts_with("http://example.com/auth?response_type=token&client_id=id"));
}

#[test]
fn authorize_url_appends_to_existing_query() {
    let client = Client::new(
        "id",
        Url::new("http://example.com/auth?tenant=7"),
        Url::new("http://example.com/token"),
    );
    let url = client.authorize_url(&fixed_state());
    assert!(url.as_str().starts_with("http://example.com/auth?tenant=7&response_type=code"));
}
