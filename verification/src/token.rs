//! Token responses: the token-type taxonomy, the capability every token
//! shape offers, and the standard RFC 6749 section 5.1 response.

use vstd::prelude::*;

verus! {

use crate::json::get_string_field;
use crate::json::get_u64_field;
use crate::json::json_string_field;
use crate::json::json_u64_field;
use crate::text::spec_split_spaces;
use crate::text::split_spaces;
use crate::types::AccessToken;
use crate::types::RefreshToken;
use crate::types::Scope;
use crate::types::scope_views;

/// Basic OAuth2 authorization token types.
#[derive(Clone, Copy, Debug, PartialEq, Eq, Structural)]
pub enum TokenType {
    /// Bearer token (RFC 6750).
    Bearer,
    /// MAC token (OAuth 2.0 Message Authentication Code tokens draft).
    Mac,
}

/// One character ASCII-lowercased: `A`..`Z` fold to `a`..`z`, all else is
/// unchanged.
pub open spec fn lower_char(c: char) -> char {
    if 65 <= c as u32 <= 90 {
        ((c as u32) + 32) as char
    } else {
        c
    }
}

/// A character sequence ASCII-lowercased.
pub open spec fn lower_ascii(s: Seq<char>) -> Seq<char> {
    s.map(|_i: int, c: char| lower_char(c))
}

/// The token type a `token_type` field stands for. The value is
/// case-insensitive: it folds to `bearer` or `mac`, or it is unknown.
pub open spec fn spec_token_type(s: Seq<char>) -> Option<TokenType> {
    if lower_ascii(s) == "bearer"@ {
        Some(TokenType::Bearer)
    } else if lower_ascii(s) == "mac"@ {
        Some(TokenType::Mac)
    } else {
        None
    }
}

/// Whether `s`, ASCII-lowercased, is exactly `t`.
fn lower_matches(s: &str, t: &str) -> (r: bool)
    ensures
        r == (lower_ascii(s@) == t@),
{
    let slen = s.unicode_len();
    let tlen = t.unicode_len();
    if slen != tlen {
        proof {
            assert(lower_ascii(s@).len() == s@.len());
        }
        return false;
    }
    let mut i: usize = 0;
    while i < slen
        invariant
            0 <= i <= slen,
            slen == s@.len(),
            slen == t@.len(),
            forall|j: int| 0 <= j < i ==> lower_ascii(s@)[j] == t@[j],
        decreases slen - i,
    {
        let c = s.get_char(i);
        let e = t.get_char(i);
        let u = c as u32;
        let v = e as u32;
        let matches_here = if 65 <= u && u <= 90 {
            u + 32 == v
        } else {
            u == v
        };
        proof {
            vstd::utf8::char_is_scalar(c);
            vstd::utf8::char_is_scalar(e);
            if 65 <= u <= 90 && u + 32 == v {
                vstd::utf8::char_u32_cast(e, (u + 32) as u32);
            }
            if !(65 <= u <= 90) && u == v {
                vstd::utf8::char_u32_cast(e, u);
            }
            assert(matches_here == (lower_char(c) == e));
            assert(lower_ascii(s@)[i as int] == lower_char(c));
        }
        if !matches_here {
            return false;
        }
        i += 1;
    }
    proof {
        assert(lower_ascii(s@) =~= t@);
    }
    true
}

impl TokenType {
    /// Classify a `token_type` field value, case-insensitively.
    pub fn parse(s: &str) -> (r: Option<TokenType>)
        ensures
            r == spec_token_type(s@),
    {
        if lower_matches(s, "bearer") {
            Some(TokenType::Bearer)
        } else if lower_matches(s, "mac") {
            Some(TokenType::Mac)
        } else {
            None
        }
    }
}

/// Common capability of every OAuth2 token response shape (RFC 6749 section
/// 5.1). It exists separately from [`StandardToken`] so that clients of
/// providers with nonstandard response shapes can decode their own.
pub trait Token: View + Sized {
    /// What a response body parses to under this token shape; `None` when
    /// the body does not hold one.
    spec fn spec_parse(body: Seq<u8>) -> Option<Self::V>;

    /// Decode a token response body.
    fn parse_response(body: &[u8]) -> (r: Option<Self>)
        ensures
            match r {
                Some(t) => Self::spec_parse(body@) == Some(t@),
                None => Self::spec_parse(body@) is None,
            },
    ;

    /// REQUIRED. The access token issued by the authorization server.
    fn access_token(&self) -> &AccessToken;

    /// REQUIRED. The type of the token issued (RFC 6749 section 7.1).
    fn token_type(&self) -> &TokenType;

    /// RECOMMENDED. The lifetime of the access token, in seconds.
    fn expires_in(&self) -> Option<u64>;

    /// OPTIONAL. The refresh token usable to obtain new access tokens with
    /// the same grant (RFC 6749 section 6).
    fn refresh_token(&self) -> Option<&RefreshToken>;

    /// OPTIONAL when identical to what the client requested, otherwise
    /// REQUIRED: the scope of the access token (RFC 6749 section 3.3).
    fn scopes(&self) -> Option<&Vec<Scope>>;
}

/// Standard OAuth2 token response (RFC 6749 section 5.1).
#[derive(Clone, PartialEq, Eq)]
pub struct StandardToken {
    access_token: AccessToken,
    token_type: TokenType,
    expires_in: Option<u64>,
    refresh_token: Option<RefreshToken>,
    scopes: Option<Vec<Scope>>,
}

/// The shape of a [`StandardToken`].
pub struct StandardTokenV {
    /// The access token text.
    pub access_token: Seq<char>,
    /// The token type.
    pub token_type: TokenType,
    /// The lifetime in seconds, when the server sent one.
    pub expires_in: Option<u64>,
    /// The refresh token text, when the server sent one.
    pub refresh_token: Option<Seq<char>>,
    /// The scopes, when the server sent a `scope` field: the space-delimited
    /// wire string split in order.
    pub scopes: Option<Seq<Seq<char>>>,
}

impl View for StandardToken {
    type V = StandardTokenV;

    closed spec fn view(&self) -> StandardTokenV {
        StandardTokenV {
            access_token: self.access_token@,
            token_type: self.token_type,
            expires_in: self.expires_in,
            refresh_token: match self.refresh_token {
                Some(ref t) => Some(t@),
                None => None,
            },
            scopes: match self.scopes {
                Some(ref v) => Some(scope_views(v@)),
                None => None,
            },
        }
    }
}

/// What a standard token-response body parses to. The body must be a JSON
/// object; `access_token` and `token_type` are required strings, the token
/// type must fold to a known one, `expires_in` is an unsigned integer when
/// present, `refresh_token` is a string when present, and `scope` is a
/// space-delimited string when present, split in order.
pub open spec fn spec_parse_standard_token(body: Seq<u8>) -> Option<StandardTokenV> {
    match (
        json_string_field(body, "access_token"@),
        json_string_field(body, "token_type"@),
        json_u64_field(body, "expires_in"@),
        json_string_field(body, "refresh_token"@),
        json_string_field(body, "scope"@),
    ) {
        (Ok(Some(at)), Ok(Some(tt)), Ok(ei), Ok(rt), Ok(sc)) => match spec_token_type(tt) {
            Some(ttv) => Some(
                StandardTokenV {
                    access_token: at,
                    token_type: ttv,
                    expires_in: ei,
                    refresh_token: rt,
                    scopes: match sc {
                        Some(s) => Some(spec_split_spaces(s)),
                        None => None,
                    },
                },
            ),
            None => None,
        },
        _ => None,
    }
}

/// Wrap split scope strings.
fn scopes_from_strings(parts: Vec<String>) -> (r: Vec<Scope>)
    ensures
        scope_views(r@) == parts.deep_view(),
{
    let mut out: Vec<Scope> = Vec::new();
    let mut i: usize = 0;
    proof {
        assert(scope_views(out@) =~~= parts.deep_view().take(0));
    }
    while i < parts.len()
        invariant
            0 <= i <= parts@.len(),
            scope_views(out@) == parts.deep_view().take(i as int),
        decreases parts@.len() - i,
    {
        let sc = Scope::new(parts[i].as_str());
        let ghost prev = out@;
        out.push(sc);
        proof {
            assert(parts.deep_view()[i as int] == parts@[i as int]@);
            assert(scope_views(prev) == parts.deep_view().take(i as int));
            assert(prev.len() == i as int) by {
                assert(scope_views(prev).len() == prev.len());
            }
            assert(out@ == prev.push(sc));
            assert forall|j: int| 0 <= j < i + 1 implies scope_views(out@)[j]
                == parts.deep_view().take(i + 1)[j] by {
                if j < i {
                    assert(scope_views(prev)[j] == parts.deep_view().take(i as int)[j]);
                    assert(out@[j] == prev[j]);
                } else {
                    assert(out@[j] == sc);
                }
            }
            assert(scope_views(out@) =~~= parts.deep_view().take(i + 1));
        }
        i += 1;
    }
    proof {
        assert(parts.deep_view().take(parts@.len() as int) =~~= parts.deep_view());
    }
    out
}

impl Token for StandardToken {
    open spec fn spec_parse(body: Seq<u8>) -> Option<StandardTokenV> {
        spec_parse_standard_token(body)
    }

    fn parse_response(body: &[u8]) -> (r: Option<StandardToken>)
        ensures
            match r {
                Some(t) => spec_parse_standard_token(body@) == Some(t@),
                None => spec_parse_standard_token(body@) is None,
            },
    {
        let access_token = match get_string_field(body, "access_token") {
            Ok(Some(s)) => AccessToken::new(s.as_str()),
            _ => {
                return None;
            },
        };
        let token_type = match get_string_field(body, "token_type") {
            Ok(Some(s)) => match TokenType::parse(s.as_str()) {
                Some(t) => t,
                None => {
                    return None;
                },
            },
            _ => {
                return None;
            },
        };
        let expires_in = match get_u64_field(body, "expires_in") {
            Ok(e) => e,
            Err(()) => {
                return None;
            },
        };
        let refresh_token = match get_string_field(body, "refresh_token") {
            Ok(Some(s)) => Some(RefreshToken::new(s.as_str())),
            Ok(None) => None,
            Err(()) => {
                return None;
            },
        };
        let scopes = match get_string_field(body, "scope") {
            Ok(Some(s)) => Some(scopes_from_strings(split_spaces(s.as_str()))),
            Ok(None) => None,
            Err(()) => {
                return None;
            },
        };
        Some(StandardToken { access_token, token_type, expires_in, refresh_token, scopes })
    }

    fn access_token(&self) -> (r: &AccessToken)
        ensures
            r@ == self@.access_token,
    {
        &self.access_token
    }

    fn token_type(&self) -> (r: &TokenType)
        ensures
            *r == self@.token_type,
    {
        &self.token_type
    }

    fn expires_in(&self) -> (r: Option<u64>)
        ensures
            r == self@.expires_in,
    {
        self.expires_in
    }

    fn refresh_token(&self) -> (r: Option<&RefreshToken>)
        ensures
            match r {
                Some(t) => self@.refresh_token == Some(t@),
                None => self@.refresh_token is None,
            },
    {
        match &self.refresh_token {
            Some(t) => Some(t),
            None => None,
        }
    }

    fn scopes(&self) -> (r: Option<&Vec<Scope>>)
        ensures
            match r {
                Some(v) => self@.scopes == Some(scope_views(v@)),
                None => self@.scopes is None,
            },
    {
        match &self.scopes {
            Some(v) => Some(v),
            None => None,
        }
    }
}

} // verus!
