//! The OAuth2 client configuration: endpoint URLs, client credentials, the
//! authentication mode, scopes and redirect URL, with authorization-URL
//! construction (RFC 6749 sections 4.1.1 and 4.2.1) and the builders for the
//! four token grants.

use vstd::prelude::*;

verus! {

use vstd::string::StringExecFns;
use crate::b64::b64_chars;
use crate::form::form_body;
use crate::form::lemma_form_body_ascii;
use crate::form::pair_views;
use crate::form::serialize_form_pairs;
use crate::request::Request;
use crate::state::State;
use crate::text::ascii_chars;
use crate::text::ascii_to_string;
use crate::text::spec_join_spaces;
use crate::types::AuthorizationCode;
use crate::types::ClientSecret;
use crate::types::RefreshToken;
use crate::types::Scope;
use crate::types::join_scopes;
use crate::types::scope_views;

/// Indicates whether requests to the authorization server should use Basic
/// authentication or carry the credentials in the request body, where either
/// is valid.
///
/// The default is `BasicAuth`, following the recommendation of RFC 6749
/// section 2.3.1.
#[derive(Clone, Copy, Debug, PartialEq, Eq, Structural)]
pub enum AuthType {
    /// `client_id` and `client_secret` are included as body fields.
    RequestBody,
    /// `client_id` and `client_secret` are sent with the Basic
    /// authentication scheme.
    BasicAuth,
}

/// An endpoint URL, kept as its serialized text. Parsing and validation are
/// a collaborator's concern; this library only clones the text and appends
/// query parameters to it.
#[derive(Clone, Debug, PartialEq, Eq)]
pub struct Url {
    text: String,
}

impl View for Url {
    type V = Seq<char>;

    closed spec fn view(&self) -> Seq<char> {
        self.text@
    }
}

impl Url {
    /// Wrap a URL's text.
    pub fn new(text: &str) -> (r: Url)
        ensures
            r@ == text@,
    {
        Url { text: text.to_owned() }
    }

    /// The URL text itself.
    pub fn as_str(&self) -> (r: &str)
        ensures
            r@ == self@,
    {
        self.text.as_str()
    }

    /// An owned copy.
    pub fn duplicate(&self) -> (r: Url)
        ensures
            r@ == self@,
    {
        Url { text: self.text.clone() }
    }
}

/// Whether a string holds a character.
fn has_char(s: &str, c: char) -> (r: bool)
    ensures
        r == s@.contains(c),
{
    let len = s.unicode_len();
    let mut i: usize = 0;
    while i < len
        invariant
            0 <= i <= len,
            len == s@.len(),
            forall|j: int| 0 <= j < i ==> s@[j] != c,
        decreases len - i,
    {
        if s.get_char(i) == c {
            assert(s@.contains(c));
            return true;
        }
        i += 1;
    }
    assert(forall|j: int| 0 <= j < s@.len() ==> s@[j] != c);
    false
}

/// The separator a query needs before it is appended to a URL's text:
/// nothing after a trailing `?` or `&`, `&` when a query is already there,
/// `?` otherwise.
pub open spec fn spec_query_sep(url: Seq<char>) -> Seq<char> {
    if url.len() > 0 && (url.last() == '?' || url.last() == '&') {
        Seq::empty()
    } else if url.contains('?') {
        seq!['&']
    } else {
        seq!['?']
    }
}

/// A URL's text with form-encoded query pairs appended — unchanged when
/// there is no pair.
pub open spec fn spec_with_query(url: Seq<char>, pairs: Seq<(Seq<char>, Seq<char>)>) -> Seq<
    char,
> {
    if pairs.len() == 0 {
        url
    } else {
        url + spec_query_sep(url) + ascii_chars(form_body(pairs))
    }
}

/// Append form-encoded query pairs to a URL. The pairs go to the end of the
/// text: an endpoint URL is expected to carry no fragment, and one that did
/// would see the query appended after it.
pub fn with_query(url: &Url, pairs: &Vec<(String, String)>) -> (r: Url)
    ensures
        r@ == spec_with_query(url@, pair_views(pairs@)),
{
    if pairs.len() == 0 {
        proof {
            assert(pair_views(pairs@).len() == 0);
        }
        return url.duplicate();
    }
    let s = url.as_str();
    let len = s.unicode_len();
    let mut text = s.to_owned();
    if len > 0 && {
        let last = s.get_char(len - 1);
        last == '?' || last == '&'
    } {
        proof {
            assert(spec_query_sep(url@) =~= Seq::<char>::empty());
            assert(text@ + Seq::<char>::empty() =~= text@);
        }
    } else if has_char(s, '?') {
        text.append("&");
        proof {
            reveal_strlit("&");
            assert("&"@ =~= seq!['&']);
        }
    } else {
        text.append("?");
        proof {
            reveal_strlit("?");
            assert("?"@ =~= seq!['?']);
        }
    }
    let body = serialize_form_pairs(pairs);
    proof {
        lemma_form_body_ascii(pair_views(pairs@));
    }
    let query = ascii_to_string(body);
    text.append(query.as_str());
    Url { text }
}

/// The static configuration of an OAuth2 client.
#[derive(Clone)]
pub struct Client {
    client_id: String,
    client_secret: Option<ClientSecret>,
    auth_url: Url,
    auth_type: AuthType,
    token_url: Url,
    scopes: Vec<Scope>,
    redirect_url: Option<Url>,
}

/// The shape of a [`Client`].
pub struct ClientV {
    /// The client identifier.
    pub client_id: Seq<char>,
    /// The client secret, once set.
    pub client_secret: Option<Seq<char>>,
    /// The authorization endpoint, fixed at construction.
    pub auth_url: Seq<char>,
    /// The chosen client-authentication mode.
    pub auth_type: AuthType,
    /// The token endpoint, fixed at construction.
    pub token_url: Seq<char>,
    /// The scopes, in insertion order, duplicates kept.
    pub scopes: Seq<Seq<char>>,
    /// The redirect URL, once set.
    pub redirect_url: Option<Seq<char>>,
}

impl View for Client {
    type V = ClientV;

    closed spec fn view(&self) -> ClientV {
        ClientV {
            client_id: self.client_id@,
            client_secret: match self.client_secret {
                Some(ref s) => Some(s@),
                None => None,
            },
            auth_url: self.auth_url@,
            auth_type: self.auth_type,
            token_url: self.token_url@,
            scopes: scope_views(self.scopes@),
            redirect_url: match self.redirect_url {
                Some(ref u) => Some(u@),
                None => None,
            },
        }
    }
}

/// The query pairs of an authorization URL, in their fixed order:
/// `response_type`, `client_id`, `redirect_uri` (only when set), `scope`
/// (only when scopes were added, space-joined in insertion order), `state`.
pub open spec fn spec_authorize_pairs(
    c: ClientV,
    response_type: Seq<char>,
    state: Seq<char>,
) -> Seq<(Seq<char>, Seq<char>)> {
    seq![("response_type"@, response_type), ("client_id"@, c.client_id)] + (
    match c.redirect_url {
        Some(r) => seq![("redirect_uri"@, r)],
        None => Seq::empty(),
    }) + (if c.scopes.len() > 0 {
        seq![("scope"@, spec_join_spaces(c.scopes))]
    } else {
        Seq::empty()
    }) + seq![("state"@, state)]
}

/// The full authorization URL: the authorization endpoint with the query
/// pairs of [`spec_authorize_pairs`] appended.
pub open spec fn spec_authorize_url(
    c: ClientV,
    response_type: Seq<char>,
    state: Seq<char>,
) -> Seq<char> {
    spec_with_query(c.auth_url, spec_authorize_pairs(c, response_type, state))
}

impl Client {
    /// An OAuth2 client over the fields common to most flows: no secret, no
    /// scope, no redirect URL, Basic authentication.
    ///
    /// `auth_url` is the authorization endpoint, used to obtain authorization
    /// from the resource owner via user-agent redirection; `token_url` is the
    /// token endpoint, used to exchange an authorization grant for an access
    /// token. Construction performs no I/O and cannot fail.
    pub fn new(client_id: &str, auth_url: Url, token_url: Url) -> (r: Client)
        ensures
            r@ == (ClientV {
                client_id: client_id@,
                client_secret: None,
                auth_url: auth_url@,
                auth_type: AuthType::BasicAuth,
                token_url: token_url@,
                scopes: Seq::empty(),
                redirect_url: None,
            }),
    {
        let r = Client {
            client_id: client_id.to_owned(),
            client_secret: None,
            auth_url,
            auth_type: AuthType::BasicAuth,
            token_url,
            scopes: Vec::new(),
            redirect_url: None,
        };
        proof {
            assert(scope_views(r.scopes@) =~~= Seq::<Seq<char>>::empty());
        }
        r
    }

    /// Configure the client secret to use.
    pub fn set_client_secret(&mut self, client_secret: &str)
        ensures
            final(self)@ == (ClientV {
                client_secret: Some(client_secret@),
                ..old(self)@
            }),
    {
        self.client_secret = Some(ClientSecret::new(client_secret));
    }

    /// Append a scope. Order is kept and duplicates are not removed.
    pub fn add_scope(&mut self, scope: &str)
        ensures
            final(self)@ == (ClientV { scopes: old(self)@.scopes.push(scope@), ..old(self)@ }),
    {
        let ghost prev = self.scopes@;
        self.scopes.push(Scope::new(scope));
        proof {
            assert(scope_views(self.scopes@) =~~= scope_views(prev).push(scope@));
        }
    }

    /// Configure the client-authentication mode used with the authorization
    /// server. The default is Basic authentication, as RFC 6749 section
    /// 2.3.1 recommends.
    pub fn set_auth_type(&mut self, auth_type: AuthType)
        ensures
            final(self)@ == (ClientV { auth_type, ..old(self)@ }),
    {
        self.auth_type = auth_type;
    }

    /// Set the redirect URL used by the authorization endpoint.
    pub fn set_redirect_url(&mut self, redirect_url: Url)
        ensures
            final(self)@ == (ClientV { redirect_url: Some(redirect_url@), ..old(self)@ }),
    {
        self.redirect_url = Some(redirect_url);
    }

    /// The full authorization URL of the Authorization Code grant (RFC 6749
    /// section 4.1): `response_type` is `code`. Deterministic in its inputs,
    /// no network.
    ///
    /// Use a fresh, unpredictable `state` for each authorization request,
    /// and check the `state` the server passes back against it: a mismatch
    /// is a CSRF attack, not a retryable error.
    pub fn authorize_url(&self, state: &State) -> (r: Url)
        ensures
            r@ == spec_authorize_url(self@, "code"@, b64_chars(state@)),
    {
        self.authorize_url_impl("code", state)
    }

    /// The full authorization URL of the Implicit grant (RFC 6749 section
    /// 4.2): `response_type` is `token`. The same security warning as for
    /// [`Client::authorize_url`] applies.
    pub fn authorize_url_implicit(&self, state: &State) -> (r: Url)
        ensures
            r@ == spec_authorize_url(self@, "token"@, b64_chars(state@)),
    {
        self.authorize_url_impl("token", state)
    }

    /// Shared construction of the two authorization URLs.
    fn authorize_url_impl(&self, response_type: &str, state: &State) -> (r: Url)
        ensures
            r@ == spec_authorize_url(self@, response_type@, b64_chars(state@)),
    {
        let mut pairs: Vec<(String, String)> = Vec::new();
        pairs.push(("response_type".to_owned(), response_type.to_owned()));
        pairs.push(("client_id".to_owned(), self.client_id.clone()));
        match &self.redirect_url {
            Some(redirect) => {
                pairs.push(("redirect_uri".to_owned(), redirect.as_str().to_owned()));
            },
            None => {},
        }
        if self.scopes.len() > 0 {
            pairs.push(("scope".to_owned(), join_scopes(&self.scopes)));
        }
        pairs.push(("state".to_owned(), state.to_base64()));
        proof {
            assert(pair_views(pairs@) =~~= spec_authorize_pairs(
                self@,
                response_type@,
                b64_chars(state@),
            ));
        }
        with_query(&self.auth_url, &pairs)
    }

    /// A request builder for the token endpoint, with the client fields
    /// frozen in and no parameters yet.
    fn request_token(&self) -> (r: Request)
        ensures
            r@.token_url == self@.token_url,
            r@.auth_type == self@.auth_type,
            r@.client_id == self@.client_id,
            r@.client_secret == self@.client_secret,
            r@.redirect_url == self@.redirect_url,
            r@.params == Seq::<(Seq<char>, Seq<char>)>::empty(),
    {
        Request::make(
            self.token_url.duplicate(),
            self.auth_type,
            self.client_id.clone(),
            match &self.client_secret {
                Some(s) => Some(ClientSecret::new(s.as_str())),
                None => None,
            },
            match &self.redirect_url {
                Some(u) => Some(u.duplicate()),
                None => None,
            },
        )
    }

    /// Exchange a code from a successful authorization for an access token
    /// (RFC 6749 section 4.1.3). Takes the code by value: an authorization
    /// code is good for at most one exchange.
    pub fn exchange_code(&self, code: AuthorizationCode) -> (r: Request)
        ensures
            r@.token_url == self@.token_url,
            r@.auth_type == self@.auth_type,
            r@.client_id == self@.client_id,
            r@.client_secret == self@.client_secret,
            r@.redirect_url == self@.redirect_url,
            r@.params =~~= seq![
                ("grant_type"@, "authorization_code"@),
                ("code"@, code@),
            ],
    {
        self.request_token().param("grant_type", "authorization_code").param(
            "code",
            code.as_str(),
        )
    }

    /// Request an access token for the Resource Owner Password Credentials
    /// grant (RFC 6749 section 4.3.2): `username`, `password`, and the
    /// space-joined scopes under `scope` when any were added.
    pub fn exchange_password(&self, username: &str, password: &str) -> (r: Request)
        ensures
            r@.token_url == self@.token_url,
            r@.auth_type == self@.auth_type,
            r@.client_id == self@.client_id,
            r@.client_secret == self@.client_secret,
            r@.redirect_url == self@.redirect_url,
            r@.params =~~= seq![
                ("grant_type"@, "password"@),
                ("username"@, username@),
                ("password"@, password@),
            ] + (if self@.scopes.len() > 0 {
                seq![("scope"@, spec_join_spaces(self@.scopes))]
            } else {
                Seq::empty()
            }),
    {
        let builder = self.request_token().param("grant_type", "password").param(
            "username",
            username,
        ).param("password", password);
        if self.scopes.len() > 0 {
            let joined = join_scopes(&self.scopes);
            builder.param("scope", joined.as_str())
        } else {
            builder
        }
    }

    /// Request an access token for the Client Credentials grant (RFC 6749
    /// section 4.4.2). When scopes were added they ride under the key
    /// `scopes` — an asymmetry with the password grant and the authorization
    /// URL, which use `scope`, kept as the protocol mapping of this library;
    /// confirm it against the target provider's expectations.
    pub fn exchange_client_credentials(&self) -> (r: Request)
        ensures
            r@.token_url == self@.token_url,
            r@.auth_type == self@.auth_type,
            r@.client_id == self@.client_id,
            r@.client_secret == self@.client_secret,
            r@.redirect_url == self@.redirect_url,
            r@.params =~~= seq![("grant_type"@, "client_credentials"@)] + (
            if self@.scopes.len() > 0 {
                seq![("scopes"@, spec_join_spaces(self@.scopes))]
            } else {
                Seq::empty()
            }),
    {
        let builder = self.request_token().param("grant_type", "client_credentials");
        if self.scopes.len() > 0 {
            let joined = join_scopes(&self.scopes);
            builder.param("scopes", joined.as_str())
        } else {
            builder
        }
    }

    /// Exchange a refresh token for an access token (RFC 6749 section 6).
    pub fn exchange_refresh_token(&self, refresh_token: &RefreshToken) -> (r: Request)
        ensures
            r@.token_url == self@.token_url,
            r@.auth_type == self@.auth_type,
            r@.client_id == self@.client_id,
            r@.client_secret == self@.client_secret,
            r@.redirect_url == self@.redirect_url,
            r@.params =~~= seq![
                ("grant_type"@, "refresh_token"@),
                ("refresh_token"@, refresh_token@),
            ],
    {
        self.request_token().param("grant_type", "refresh_token").param(
            "refresh_token",
            refresh_token.as_str(),
        )
    }
}

/// The authorization URL carries the scopes exactly as inserted: one `scope`
/// pair holding the space-joined scopes in insertion order when any were
/// added, and no `scope` pair at all otherwise.
pub proof fn lemma_authorize_scope_pair(c: ClientV, response_type: Seq<char>, state: Seq<char>)
    ensures
        c.scopes.len() > 0 ==> spec_authorize_pairs(c, response_type, state).contains(
            ("scope"@, spec_join_spaces(c.scopes)),
        ),
        c.scopes.len() == 0 ==> forall|i: int|
            0 <= i < spec_authorize_pairs(c, response_type, state).len() ==> (
            #[trigger] spec_authorize_pairs(c, response_type, state)[i]).0 != "scope"@,
{
    let pairs = spec_authorize_pairs(c, response_type, state);
    if c.scopes.len() > 0 {
        let at = 2int + (match c.redirect_url {
            Some(_) => 1int,
            None => 0int,
        });
        assert(pairs[at] == ("scope"@, spec_join_spaces(c.scopes)));
        assert(pairs.contains(("scope"@, spec_join_spaces(c.scopes))));
    } else {
        reveal_strlit("scope");
        reveal_strlit("state");
        reveal_strlit("response_type");
        reveal_strlit("client_id");
        reveal_strlit("redirect_uri");
        assert("response_type"@.len() == 13 && "client_id"@.len() == 9 && "redirect_uri"@.len()
            == 12 && "scope"@.len() == 5 && "state"@.len() == 5);
        assert("state"@[2] == 'a' && "scope"@[2] == 'o');
        assert forall|i: int| 0 <= i < pairs.len() implies (#[trigger] pairs[i]).0
            != "scope"@ by {
            assert(pairs[pairs.len() - 1].0 == "state"@);
        }
    }
}

} // verus!
