//! Client side of the OAuth 2.0 authorization framework (RFC 6749):
//! authorization-URL construction, exchange of grants for access tokens, and
//! typed handling of the secrets and tokens involved.
//!
//! The wire formats the protocol prescribes — the
//! `application/x-www-form-urlencoded` request body, the URL-safe base64
//! `state` parameter, the PKCE challenge derivation, and the classification of
//! token-endpoint responses — are implemented and specified here; the network
//! transport itself is a collaborator that a caller supplies.

pub mod b64;
pub mod client;
pub mod error;
pub mod form;
pub mod json;
pub mod pkce;
pub mod request;
pub mod response;
pub mod state;
pub mod token;
pub mod text;
pub mod types;

pub use client::AuthType;
pub use client::Client;
pub use client::Url;
pub use error::ErrorField;
pub use error::ErrorResponse;
pub use error::RequestTokenError;
pub use pkce::PkceCodeVerifierS256;
pub use request::PreparedRequest;
pub use request::Request;
pub use response::decode_response;
pub use state::State;
pub use token::StandardToken;
pub use token::Token;
pub use token::TokenType;
pub use types::AccessToken;
pub use types::AuthorizationCode;
pub use types::ClientSecret;
pub use types::PkceCodeChallengeMethod;
pub use types::PkceCodeChallengeS256;
pub use types::RefreshToken;
pub use types::ResourceOwnerPassword;
pub use types::Scope;
