//! The token-request builder and its wire form: the exact
//! `application/x-www-form-urlencoded` body of RFC 6749 sections 4.1.3 to
//! 4.4.2 and 6, and the client-authentication encoding of section 2.3.1 —
//! credentials either as body fields or as separately form-encoded Basic-auth
//! username and password, never both.

use vstd::prelude::*;

verus! {

use crate::client::Url;
use crate::client::AuthType;
use crate::form::form_body;
use crate::form::form_encode_to_string;
use crate::form::form_encoded_str;
use crate::form::pair_views;
use crate::form::serialize_form_pairs;
use crate::text::ascii_chars;
use crate::types::ClientSecret;

/// A token request in progress: the frozen client fields it was built from
/// and the ordered extra parameters. Each [`Request::param`] call consumes
/// the builder and returns a new one; execution consumes it for good, so a
/// request cannot be executed twice.
pub struct Request {
    pub(crate) token_url: Url,
    pub(crate) auth_type: AuthType,
    pub(crate) client_id: String,
    pub(crate) client_secret: Option<ClientSecret>,
    pub(crate) redirect_url: Option<Url>,
    pub(crate) params: Vec<(String, String)>,
}

/// The shape of a [`Request`].
pub struct RequestV {
    /// The token endpoint.
    pub token_url: Seq<char>,
    /// The chosen client-authentication mode.
    pub auth_type: AuthType,
    /// The client identifier.
    pub client_id: Seq<char>,
    /// The client secret, when the client has one.
    pub client_secret: Option<Seq<char>>,
    /// The redirect URL, when the client has one.
    pub redirect_url: Option<Seq<char>>,
    /// The extra parameters, in insertion order.
    pub params: Seq<(Seq<char>, Seq<char>)>,
}

impl View for Request {
    type V = RequestV;

    closed spec fn view(&self) -> RequestV {
        RequestV {
            token_url: self.token_url@,
            auth_type: self.auth_type,
            client_id: self.client_id@,
            client_secret: match self.client_secret {
                Some(ref s) => Some(s@),
                None => None,
            },
            redirect_url: match self.redirect_url {
                Some(ref u) => Some(u@),
                None => None,
            },
            params: pair_views(self.params@),
        }
    }
}

impl Request {
    /// A builder over the given frozen client fields, with no parameters
    /// yet.
    pub(crate) fn make(
        token_url: Url,
        auth_type: AuthType,
        client_id: String,
        client_secret: Option<ClientSecret>,
        redirect_url: Option<Url>,
    ) -> (r: Request)
        ensures
            r@ == (RequestV {
                token_url: token_url@,
                auth_type,
                client_id: client_id@,
                client_secret: match client_secret {
                    Some(s) => Some(s@),
                    None => None,
                },
                redirect_url: match redirect_url {
                    Some(u) => Some(u@),
                    None => None,
                },
                params: Seq::empty(),
            }),
    {
        let r = Request {
            token_url,
            auth_type,
            client_id,
            client_secret,
            redirect_url,
            params: Vec::new(),
        };
        proof {
            assert(pair_views(r.params@) =~~= Seq::<(Seq<char>, Seq<char>)>::empty());
        }
        r
    }

    /// Append one extra request parameter; order is preserved and decides
    /// the wire encoding order.
    pub fn param(self, key: &str, value: &str) -> (r: Request)
        ensures
            r@ == (RequestV { params: self@.params.push((key@, value@)), ..self@ }),
    {
        let mut params = self.params;
        let ghost prev = params@;
        params.push((key.to_owned(), value.to_owned()));
        proof {
            assert(pair_views(params@) =~~= pair_views(prev).push((key@, value@)));
        }
        Request {
            token_url: self.token_url,
            auth_type: self.auth_type,
            client_id: self.client_id,
            client_secret: self.client_secret,
            redirect_url: self.redirect_url,
            params,
        }
    }

    /// Make the request concrete: the POST target, the Basic credentials
    /// when that mode is chosen, and the exact form body. Consumes the
    /// request, so it cannot be executed twice.
    pub fn prepare(self) -> (r: PreparedRequest)
        ensures
            r.url@ == self@.token_url,
            (match r.basic_auth {
                Some((ref u, Some(ref p))) => spec_basic_auth(self@) == Some(
                    (u@, Some(p@)),
                ),
                Some((ref u, None)) => spec_basic_auth(self@) == Some(
                    (u@, None::<Seq<char>>),
                ),
                None => spec_basic_auth(self@) is None,
            }),
            r.body@ == form_body(spec_body_pairs(self@)),
    {
        let ghost rv = self@;
        let mut pairs: Vec<(String, String)> = Vec::new();
        let basic_auth: Option<(String, Option<String>)> = match self.auth_type {
            AuthType::RequestBody => {
                pairs.push(("client_id".to_owned(), self.client_id.clone()));
                match &self.client_secret {
                    Some(secret) => {
                        pairs.push(("client_secret".to_owned(), secret.as_str().to_owned()));
                    },
                    None => {},
                }
                None
            },
            AuthType::BasicAuth => {
                let username = form_encode_to_string(self.client_id.as_str());
                let password = match &self.client_secret {
                    Some(secret) => Some(form_encode_to_string(secret.as_str())),
                    None => None,
                };
                Some((username, password))
            },
        };
        proof {
            assert(pair_views(pairs@) =~~= spec_credential_pairs(rv));
        }
        let mut params = self.params;
        let ghost before = pairs@;
        pairs.append(&mut params);
        proof {
            assert(pair_views(pairs@) =~~= spec_credential_pairs(rv) + rv.params);
        }
        match &self.redirect_url {
            Some(redirect) => {
                let ghost mid = pairs@;
                pairs.push(("redirect_uri".to_owned(), redirect.as_str().to_owned()));
                proof {
                    assert(pair_views(pairs@) =~~= pair_views(mid).push(
                        ("redirect_uri"@, redirect@),
                    ));
                    assert(pair_views(pairs@) =~~= spec_body_pairs(rv));
                }
            },
            None => {
                proof {
                    assert(spec_credential_pairs(rv) + rv.params + Seq::<
                        (Seq<char>, Seq<char>),
                    >::empty() =~~= spec_credential_pairs(rv) + rv.params);
                    assert(pair_views(pairs@) =~~= spec_body_pairs(rv));
                }
            },
        }
        let body = serialize_form_pairs(&pairs);
        PreparedRequest { url: self.token_url, basic_auth, body }
    }
}

/// A token request made concrete, ready for a transport to send: an HTTP
/// POST to `url` with `body`, the `Accept` and `Content-Type` headers of
/// [`accept_header_value`] and [`content_type_header_value`], and Basic
/// authentication exactly when `basic_auth` is set.
pub struct PreparedRequest {
    /// The token endpoint to POST to.
    pub url: Url,
    /// The Basic-auth username and optional password, each separately form
    /// encoded per RFC 6749 section 2.3.1; `None` when the credentials ride
    /// in the body instead.
    pub basic_auth: Option<(String, Option<String>)>,
    /// The `application/x-www-form-urlencoded` body.
    pub body: Vec<u8>,
}

/// The value of the `Accept` header every token request carries: RFC 6749
/// section 5.1 only permits JSON responses, and off-spec providers with
/// non-JSON defaults must still be asked for JSON explicitly.
pub fn accept_header_value() -> (r: &'static str)
    ensures
        r@ == "application/json"@,
{
    "application/json"
}

/// The value of the `Content-Type` header on the token-request body.
pub fn content_type_header_value() -> (r: &'static str)
    ensures
        r@ == "application/x-www-form-urlencoded"@,
{
    "application/x-www-form-urlencoded"
}

/// The pairs that carry the client credentials in the body: `client_id` and,
/// when a secret is set, `client_secret` — only in the RequestBody mode.
/// With Basic authentication the body carries no credential pair.
pub open spec fn spec_credential_pairs(r: RequestV) -> Seq<(Seq<char>, Seq<char>)> {
    match r.auth_type {
        AuthType::RequestBody => seq![("client_id"@, r.client_id)] + (match r.client_secret {
            Some(s) => seq![("client_secret"@, s)],
            None => Seq::empty(),
        }),
        AuthType::BasicAuth => Seq::empty(),
    }
}

/// All pairs of the form body, in wire order: the credential pairs, then the
/// extra parameters in insertion order, then `redirect_uri` — always last —
/// when a redirect URL is set.
pub open spec fn spec_body_pairs(r: RequestV) -> Seq<(Seq<char>, Seq<char>)> {
    spec_credential_pairs(r) + r.params + (match r.redirect_url {
        Some(u) => seq![("redirect_uri"@, u)],
        None => Seq::empty(),
    })
}

/// The Basic-auth credentials: with Basic authentication, the client id and
/// the secret (when set), each separately form encoded; none in the
/// RequestBody mode.
pub open spec fn spec_basic_auth(r: RequestV) -> Option<(Seq<char>, Option<Seq<char>>)> {
    match r.auth_type {
        AuthType::BasicAuth => Some(
            (
                ascii_chars(form_encoded_str(r.client_id)),
                match r.client_secret {
                    Some(s) => Some(ascii_chars(form_encoded_str(s))),
                    None => None,
                },
            ),
        ),
        AuthType::RequestBody => None,
    }
}

/// With Basic authentication the credentials go into the Authorization
/// header and never into the body: the body pairs are exactly the extra
/// parameters followed by the trailing redirect pair, and none of them is a
/// credential pair unless a caller added one as an extra parameter itself.
pub proof fn lemma_basic_auth_credentials_out_of_body(r: RequestV)
    requires
        r.auth_type is BasicAuth,
        forall|i: int|
            0 <= i < r.params.len() ==> (#[trigger] r.params[i]).0 != "client_id"@ && r.params[
                i
            ].0 != "client_secret"@,
    ensures
        spec_basic_auth(r) is Some,
        forall|i: int|
            0 <= i < spec_body_pairs(r).len() ==> (#[trigger] spec_body_pairs(r)[i]).0
                != "client_id"@ && spec_body_pairs(r)[i].0 != "client_secret"@,
{
    reveal_strlit("client_id");
    reveal_strlit("client_secret");
    reveal_strlit("redirect_uri");
    assert("redirect_uri"@.len() == 12 && "client_id"@.len() == 9 && "client_secret"@.len()
        == 13);
    let pairs = spec_body_pairs(r);
    assert(spec_credential_pairs(r) =~~= Seq::<(Seq<char>, Seq<char>)>::empty());
    assert forall|i: int| 0 <= i < pairs.len() implies (#[trigger] pairs[i]).0 != "client_id"@
        && pairs[i].0 != "client_secret"@ by {
        if i < r.params.len() {
            assert(pairs[i] == r.params[i]);
        } else {
            assert(pairs[i].0 == "redirect_uri"@);
        }
    }
}

/// In the RequestBody mode there are no Basic-auth credentials and the body
/// opens with the credential pairs: `client_id` first, then `client_secret`
/// when a secret is set.
pub proof fn lemma_request_body_credentials_in_body(r: RequestV)
    requires
        r.auth_type is RequestBody,
    ensures
        spec_basic_auth(r) is None,
        spec_body_pairs(r).len() >= 1,
        spec_body_pairs(r)[0] == ("client_id"@, r.client_id),
        (r.client_secret matches Some(s) ==> spec_body_pairs(r).len() >= 2 && spec_body_pairs(
            r,
        )[1] == ("client_secret"@, s)),
{
}

/// The extra parameters keep their insertion order on the wire: they stand
/// unchanged between the credential pairs and the trailing redirect pair.
pub proof fn lemma_body_preserves_param_order(r: RequestV)
    ensures
        spec_body_pairs(r).subrange(
            spec_credential_pairs(r).len() as int,
            spec_credential_pairs(r).len() + r.params.len() as int,
        ) == r.params,
{
    assert(spec_body_pairs(r).subrange(
        spec_credential_pairs(r).len() as int,
        spec_credential_pairs(r).len() + r.params.len() as int,
    ) =~~= r.params);
}

} // verus!
