//! Newtype wrappers that give each protocol string a distinct type, so that a
//! secret, a code and a token cannot be confused with one another or with a
//! plain string.
//!
//! The secret-bearing wrappers deliberately do not derive `Debug`: diagnostics
//! reach the underlying string only through [`redacted`] methods that yield a
//! fixed placeholder. Wire encoding reaches it through the explicit `as_str`.

use vstd::prelude::*;

verus! {

use crate::text::spec_join_spaces;
use vstd::string::StringExecFns;

/// Access token scope, as defined by the authorization server.
#[derive(Clone, Debug, PartialEq, Eq, Hash)]
pub struct Scope {
    text: String,
}

impl View for Scope {
    type V = Seq<char>;

    closed spec fn view(&self) -> Seq<char> {
        self.text@
    }
}

impl Scope {
    /// Wrap a scope string.
    pub fn new(text: &str) -> (r: Scope)
        ensures
            r@ == text@,
    {
        Scope { text: text.to_owned() }
    }

    /// The scope string itself.
    pub fn as_str(&self) -> (r: &str)
        ensures
            r@ == self@,
    {
        self.text.as_str()
    }
}

/// The views of the scopes in a list, in order.
pub open spec fn scope_views(scopes: Seq<Scope>) -> Seq<Seq<char>> {
    scopes.map(|_i: int, s: Scope| s@)
}

/// Space-join a scope list in insertion order, as the `scope` request
/// parameter and the authorization-URL query parameter are encoded.
pub fn join_scopes(scopes: &Vec<Scope>) -> (r: String)
    ensures
        r@ == spec_join_spaces(scope_views(scopes@)),
{
    let mut r = String::new();
    let mut i: usize = 0;
    proof {
        assert(scope_views(scopes@).take(0) =~~= Seq::<Seq<char>>::empty());
    }
    while i < scopes.len()
        invariant
            0 <= i <= scopes@.len(),
            r@ == spec_join_spaces(scope_views(scopes@).take(i as int)),
        decreases scopes@.len() - i,
    {
        if i > 0 {
            r.append(" ");
            proof {
                reveal_strlit(" ");
                assert(" "@ =~= seq![' ']);
            }
        }
        let sc = &scopes[i];
        r.append(sc.as_str());
        proof {
            let views = scope_views(scopes@);
            assert(views[i as int] == scopes@[i as int]@);
            assert(views.take(i + 1).drop_last() =~~= views.take(i as int));
            assert(views.take(i + 1).last() == views[i as int]);
            if i == 0 {
                assert(r@ =~= views[0]);
            }
        }
        i += 1;
    }
    proof {
        assert(scope_views(scopes@).take(scopes@.len() as int) =~~= scope_views(scopes@));
    }
    r
}

/// Client password issued to the client during registration
/// (RFC 6749 section 2.2). Redacted in diagnostics.
#[derive(Clone, PartialEq, Eq)]
pub struct ClientSecret {
    text: String,
}

impl View for ClientSecret {
    type V = Seq<char>;

    closed spec fn view(&self) -> Seq<char> {
        self.text@
    }
}

impl ClientSecret {
    /// Wrap a client secret.
    pub fn new(text: &str) -> (r: ClientSecret)
        ensures
            r@ == text@,
    {
        ClientSecret { text: text.to_owned() }
    }

    /// Deliberate access to the secret, for wire encoding only.
    pub fn as_str(&self) -> (r: &str)
        ensures
            r@ == self@,
    {
        self.text.as_str()
    }

    /// Fixed placeholder shown in place of the secret in diagnostics.
    pub fn redacted(&self) -> (r: &'static str)
        ensures
            r@ == "ClientSecret([redacted])"@,
    {
        "ClientSecret([redacted])"
    }
}

/// Authorization code returned from the authorization endpoint.
/// Redacted in diagnostics.
#[derive(Clone, PartialEq, Eq, Hash)]
pub struct AuthorizationCode {
    text: String,
}

impl View for AuthorizationCode {
    type V = Seq<char>;

    closed spec fn view(&self) -> Seq<char> {
        self.text@
    }
}

impl AuthorizationCode {
    /// Wrap an authorization code.
    pub fn new(text: &str) -> (r: AuthorizationCode)
        ensures
            r@ == text@,
    {
        AuthorizationCode { text: text.to_owned() }
    }

    /// Deliberate access to the code, for wire encoding only.
    pub fn as_str(&self) -> (r: &str)
        ensures
            r@ == self@,
    {
        self.text.as_str()
    }

    /// Fixed placeholder shown in place of the code in diagnostics.
    pub fn redacted(&self) -> (r: &'static str)
        ensures
            r@ == "AuthorizationCode([redacted])"@,
    {
        "AuthorizationCode([redacted])"
    }
}

/// Refresh token used to obtain a new access token. Redacted in diagnostics.
#[derive(Clone, PartialEq, Eq, Hash)]
pub struct RefreshToken {
    text: String,
}

impl View for RefreshToken {
    type V = Seq<char>;

    closed spec fn view(&self) -> Seq<char> {
        self.text@
    }
}

impl RefreshToken {
    /// Wrap a refresh token.
    pub fn new(text: &str) -> (r: RefreshToken)
        ensures
            r@ == text@,
    {
        RefreshToken { text: text.to_owned() }
    }

    /// Deliberate access to the token, for wire encoding only.
    pub fn as_str(&self) -> (r: &str)
        ensures
            r@ == self@,
    {
        self.text.as_str()
    }

    /// Fixed placeholder shown in place of the token in diagnostics.
    pub fn redacted(&self) -> (r: &'static str)
        ensures
            r@ == "RefreshToken([redacted])"@,
    {
        "RefreshToken([redacted])"
    }
}

/// Access token returned by the token endpoint and used to access protected
/// resources. Redacted in diagnostics.
#[derive(Clone, PartialEq, Eq, Hash)]
pub struct AccessToken {
    text: String,
}

impl View for AccessToken {
    type V = Seq<char>;

    closed spec fn view(&self) -> Seq<char> {
        self.text@
    }
}

impl AccessToken {
    /// Wrap an access token.
    pub fn new(text: &str) -> (r: AccessToken)
        ensures
            r@ == text@,
    {
        AccessToken { text: text.to_owned() }
    }

    /// Deliberate access to the token, for wire encoding only.
    pub fn as_str(&self) -> (r: &str)
        ensures
            r@ == self@,
    {
        self.text.as_str()
    }

    /// Fixed placeholder shown in place of the token in diagnostics.
    pub fn redacted(&self) -> (r: &'static str)
        ensures
            r@ == "AccessToken([redacted])"@,
    {
        "AccessToken([redacted])"
    }
}

/// Resource owner's password, used directly as an authorization grant to
/// obtain an access token. Never logged by this library.
pub struct ResourceOwnerPassword {
    text: String,
}

impl View for ResourceOwnerPassword {
    type V = Seq<char>;

    closed spec fn view(&self) -> Seq<char> {
        self.text@
    }
}

impl ResourceOwnerPassword {
    /// Wrap a password.
    pub fn new(text: &str) -> (r: ResourceOwnerPassword)
        ensures
            r@ == text@,
    {
        ResourceOwnerPassword { text: text.to_owned() }
    }

    /// Deliberate access to the password, for wire encoding only.
    pub fn as_str(&self) -> (r: &str)
        ensures
            r@ == self@,
    {
        self.text.as_str()
    }
}

/// Code challenge used for PKCE (RFC 7636) via the `code_challenge`
/// parameter.
#[derive(Clone, Debug, PartialEq, Eq, Hash)]
pub struct PkceCodeChallengeS256 {
    text: String,
}

impl View for PkceCodeChallengeS256 {
    type V = Seq<char>;

    closed spec fn view(&self) -> Seq<char> {
        self.text@
    }
}

impl PkceCodeChallengeS256 {
    /// Wrap a code challenge.
    pub fn new(text: &str) -> (r: PkceCodeChallengeS256)
        ensures
            r@ == text@,
    {
        PkceCodeChallengeS256 { text: text.to_owned() }
    }

    /// The challenge string itself.
    pub fn as_str(&self) -> (r: &str)
        ensures
            r@ == self@,
    {
        self.text.as_str()
    }
}

/// Code challenge method used for PKCE (RFC 7636) via the
/// `code_challenge_method` parameter.
#[derive(Clone, Debug, PartialEq, Eq, Hash)]
pub struct PkceCodeChallengeMethod {
    text: String,
}

impl View for PkceCodeChallengeMethod {
    type V = Seq<char>;

    closed spec fn view(&self) -> Seq<char> {
        self.text@
    }
}

impl PkceCodeChallengeMethod {
    /// Wrap a code challenge method.
    pub fn new(text: &str) -> (r: PkceCodeChallengeMethod)
        ensures
            r@ == text@,
    {
        PkceCodeChallengeMethod { text: text.to_owned() }
    }

    /// The method string itself.
    pub fn as_str(&self) -> (r: &str)
        ensures
            r@ == self@,
    {
        self.text.as_str()
    }
}

} // verus!
