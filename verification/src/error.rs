//! The RFC 6749 section 5.2 error taxonomy — the structured body an
//! authorization server sends with a failing status — and the outcomes a
//! token exchange can end in.

use vstd::prelude::*;

verus! {

use vstd::string::StringExecFns;
use crate::json::get_string_field;
use crate::json::json_string_field;
use crate::text::str_eq;

/// A single ASCII error code, as defined in RFC 6749 section 5.2. Servers
/// may send codes outside the six standard ones; those are kept verbatim.
#[derive(Clone, Debug, PartialEq, Eq)]
pub enum ErrorField {
    /// The request is missing a required parameter, includes an unsupported
    /// parameter value, repeats a parameter, includes multiple credentials,
    /// uses more than one client authentication mechanism, or is otherwise
    /// malformed.
    InvalidRequest,
    /// Client authentication failed.
    InvalidClient,
    /// The provided grant or refresh token is invalid, expired, revoked, does
    /// not match the redirection URI used in the authorization request, or
    /// was issued to another client.
    InvalidGrant,
    /// The authenticated client is not authorized to use this grant type.
    UnauthorizedClient,
    /// The grant type is not supported by the authorization server.
    UnsupportedGrantType,
    /// The requested scope is invalid, unknown, malformed, or exceeds what
    /// the resource owner granted.
    InvalidScope,
    /// Any other error code, kept verbatim for forward compatibility.
    Other(String),
}

/// The shape of an [`ErrorField`], with the code text of the catch-all case.
pub enum ErrorFieldV {
    /// See [`ErrorField::InvalidRequest`].
    InvalidRequest,
    /// See [`ErrorField::InvalidClient`].
    InvalidClient,
    /// See [`ErrorField::InvalidGrant`].
    InvalidGrant,
    /// See [`ErrorField::UnauthorizedClient`].
    UnauthorizedClient,
    /// See [`ErrorField::UnsupportedGrantType`].
    UnsupportedGrantType,
    /// See [`ErrorField::InvalidScope`].
    InvalidScope,
    /// See [`ErrorField::Other`].
    Other(Seq<char>),
}

impl View for ErrorField {
    type V = ErrorFieldV;

    open spec fn view(&self) -> ErrorFieldV {
        match self {
            ErrorField::InvalidRequest => ErrorFieldV::InvalidRequest,
            ErrorField::InvalidClient => ErrorFieldV::InvalidClient,
            ErrorField::InvalidGrant => ErrorFieldV::InvalidGrant,
            ErrorField::UnauthorizedClient => ErrorFieldV::UnauthorizedClient,
            ErrorField::UnsupportedGrantType => ErrorFieldV::UnsupportedGrantType,
            ErrorField::InvalidScope => ErrorFieldV::InvalidScope,
            ErrorField::Other(s) => ErrorFieldV::Other(s@),
        }
    }
}

/// The error field an `error` code string stands for: one of the six
/// standard codes, anything else kept verbatim.
pub open spec fn spec_error_field(s: Seq<char>) -> ErrorFieldV {
    if s == "invalid_request"@ {
        ErrorFieldV::InvalidRequest
    } else if s == "invalid_client"@ {
        ErrorFieldV::InvalidClient
    } else if s == "invalid_grant"@ {
        ErrorFieldV::InvalidGrant
    } else if s == "unauthorized_client"@ {
        ErrorFieldV::UnauthorizedClient
    } else if s == "unsupported_grant_type"@ {
        ErrorFieldV::UnsupportedGrantType
    } else if s == "invalid_scope"@ {
        ErrorFieldV::InvalidScope
    } else {
        ErrorFieldV::Other(s)
    }
}

/// The wire text of an error field: the snake_case code, or the verbatim
/// text of a nonstandard one.
pub open spec fn spec_error_field_text(e: ErrorFieldV) -> Seq<char> {
    match e {
        ErrorFieldV::InvalidRequest => "invalid_request"@,
        ErrorFieldV::InvalidClient => "invalid_client"@,
        ErrorFieldV::InvalidGrant => "invalid_grant"@,
        ErrorFieldV::UnauthorizedClient => "unauthorized_client"@,
        ErrorFieldV::UnsupportedGrantType => "unsupported_grant_type"@,
        ErrorFieldV::InvalidScope => "invalid_scope"@,
        ErrorFieldV::Other(s) => s,
    }
}

impl ErrorField {
    /// Classify an `error` code string.
    pub fn parse(s: &str) -> (r: ErrorField)
        ensures
            r@ == spec_error_field(s@),
    {
        if str_eq(s, "invalid_request") {
            ErrorField::InvalidRequest
        } else if str_eq(s, "invalid_client") {
            ErrorField::InvalidClient
        } else if str_eq(s, "invalid_grant") {
            ErrorField::InvalidGrant
        } else if str_eq(s, "unauthorized_client") {
            ErrorField::UnauthorizedClient
        } else if str_eq(s, "unsupported_grant_type") {
            ErrorField::UnsupportedGrantType
        } else if str_eq(s, "invalid_scope") {
            ErrorField::InvalidScope
        } else {
            ErrorField::Other(s.to_owned())
        }
    }

    /// The wire text of the code, as diagnostics print it.
    pub fn to_text(&self) -> (r: String)
        ensures
            r@ == spec_error_field_text(self@),
    {
        match self {
            ErrorField::InvalidRequest => "invalid_request".to_owned(),
            ErrorField::InvalidClient => "invalid_client".to_owned(),
            ErrorField::InvalidGrant => "invalid_grant".to_owned(),
            ErrorField::UnauthorizedClient => "unauthorized_client".to_owned(),
            ErrorField::UnsupportedGrantType => "unsupported_grant_type".to_owned(),
            ErrorField::InvalidScope => "invalid_scope".to_owned(),
            ErrorField::Other(s) => s.clone(),
        }
    }
}

/// Error response returned by a server after a token request, as defined in
/// RFC 6749 section 5.2.
#[derive(Clone, Debug, PartialEq, Eq)]
pub struct ErrorResponse {
    /// A single ASCII error code.
    pub error: ErrorField,
    /// Human-readable ASCII text with additional information about the error.
    pub error_description: Option<String>,
    /// A URI of a human-readable web page with information about the error.
    pub error_uri: Option<String>,
}

/// The shape of an [`ErrorResponse`].
pub struct ErrorResponseV {
    /// The error code.
    pub error: ErrorFieldV,
    /// The human-readable description, when the server sent one.
    pub error_description: Option<Seq<char>>,
    /// The explanatory URI, when the server sent one.
    pub error_uri: Option<Seq<char>>,
}

impl View for ErrorResponse {
    type V = ErrorResponseV;

    open spec fn view(&self) -> ErrorResponseV {
        ErrorResponseV {
            error: self.error@,
            error_description: match self.error_description {
                Some(ref d) => Some(d@),
                None => None,
            },
            error_uri: match self.error_uri {
                Some(ref u) => Some(u@),
                None => None,
            },
        }
    }
}

/// What an error-response body parses to: the body must be a JSON object
/// whose `error` field is a string; `error_description` and `error_uri` are
/// strings when present.
pub open spec fn spec_parse_error_response(body: Seq<u8>) -> Option<ErrorResponseV> {
    match (
        json_string_field(body, "error"@),
        json_string_field(body, "error_description"@),
        json_string_field(body, "error_uri"@),
    ) {
        (Ok(Some(e)), Ok(d), Ok(u)) => Some(
            ErrorResponseV { error: spec_error_field(e), error_description: d, error_uri: u },
        ),
        _ => None,
    }
}

impl ErrorResponse {
    /// Parse an error-response body; `None` when the body does not hold the
    /// RFC 6749 section 5.2 shape.
    pub fn parse(body: &[u8]) -> (r: Option<ErrorResponse>)
        ensures
            match r {
                Some(e) => spec_parse_error_response(body@) == Some(e@),
                None => spec_parse_error_response(body@) is None,
            },
    {
        let error = match get_string_field(body, "error") {
            Ok(Some(e)) => ErrorField::parse(e.as_str()),
            _ => {
                return None;
            },
        };
        let error_description = match get_string_field(body, "error_description") {
            Ok(d) => d,
            Err(()) => {
                return None;
            },
        };
        let error_uri = match get_string_field(body, "error_uri") {
            Ok(u) => u,
            Err(()) => {
                return None;
            },
        };
        Some(ErrorResponse { error, error_description, error_uri })
    }

    /// The wire text of the code, the description and the URI in one
    /// readable line, as diagnostics print it.
    pub fn to_text(&self) -> (r: String)
        ensures
            r@ == spec_error_response_text(self@),
    {
        let mut out = self.error.to_text();
        match &self.error_description {
            Some(d) => {
                out.append(": ");
                out.append(d.as_str());
            },
            None => {},
        }
        match &self.error_uri {
            Some(u) => {
                out.append(" / See ");
                out.append(u.as_str());
            },
            None => {},
        }
        out
    }
}

/// The readable one-line text of an error response.
pub open spec fn spec_error_response_text(e: ErrorResponseV) -> Seq<char> {
    let head = spec_error_field_text(e.error) + (match e.error_description {
        Some(d) => ": "@ + d,
        None => Seq::<char>::empty(),
    });
    head + (match e.error_uri {
        Some(u) => " / See "@ + u,
        None => Seq::<char>::empty(),
    })
}

/// Everything a token exchange can end in short of a token: a transport
/// failure, an empty body, a structured OAuth error, or a body that fits
/// neither schema.
#[derive(Debug)]
pub enum RequestTokenError {
    /// The underlying send failed (network, DNS, TLS); the transport's own
    /// description is kept, with the status code when one was received.
    ReqwestError {
        /// The status code of the failed exchange, when one was received.
        status: Option<u16>,
        /// The transport's description of the failure.
        message: String,
    },
    /// The body could not be parsed under the expected schema — the error
    /// schema on a failing status, the token schema on a successful one. The
    /// raw body is kept and is the parse failure's whole detail here: the
    /// schemas are checked field by field, so no single underlying error
    /// object exists, and many providers deviate from RFC 6749, so callers
    /// may want to inspect the body themselves.
    BadResponse {
        /// The status code of the response.
        status: u16,
        /// The body that could not be decoded.
        body: Vec<u8>,
    },
    /// A response with a non-successful status code and a body that parsed
    /// as a standard OAuth error.
    ErrorResponse {
        /// The status code of the response.
        status: u16,
        /// The structured error the server sent.
        error: ErrorResponse,
    },
    /// The response body was empty, whatever the status code.
    EmptyResponse {
        /// The status code of the response.
        status: u16,
    },
}

/// The shape of a [`RequestTokenError`].
pub enum RequestTokenErrorV {
    /// See [`RequestTokenError::ReqwestError`].
    ReqwestError {
        /// The status code, when one was received.
        status: Option<u16>,
        /// The transport's description.
        message: Seq<char>,
    },
    /// See [`RequestTokenError::BadResponse`].
    BadResponse {
        /// The status code.
        status: u16,
        /// The undecodable body.
        body: Seq<u8>,
    },
    /// See [`RequestTokenError::ErrorResponse`].
    ErrorResponse {
        /// The status code.
        status: u16,
        /// The structured error.
        error: ErrorResponseV,
    },
    /// See [`RequestTokenError::EmptyResponse`].
    EmptyResponse {
        /// The status code.
        status: u16,
    },
}

impl View for RequestTokenError {
    type V = RequestTokenErrorV;

    open spec fn view(&self) -> RequestTokenErrorV {
        match self {
            RequestTokenError::ReqwestError { status, message } => RequestTokenErrorV::ReqwestError {
                status: *status,
                message: message@,
            },
            RequestTokenError::BadResponse { status, body } => RequestTokenErrorV::BadResponse {
                status: *status,
                body: body@,
            },
            RequestTokenError::ErrorResponse { status, error } => RequestTokenErrorV::ErrorResponse {
                status: *status,
                error: error@,
            },
            RequestTokenError::EmptyResponse { status } => RequestTokenErrorV::EmptyResponse {
                status: *status,
            },
        }
    }
}

impl RequestTokenError {
    /// The status code of the error, when one is available.
    pub fn status(&self) -> (r: Option<u16>)
        ensures
            r == (match self@ {
                RequestTokenErrorV::ReqwestError { status, .. } => status,
                RequestTokenErrorV::BadResponse { status, .. } => Some(status),
                RequestTokenErrorV::ErrorResponse { status, .. } => Some(status),
                RequestTokenErrorV::EmptyResponse { status } => Some(status),
            }),
    {
        match self {
            RequestTokenError::ReqwestError { status, .. } => *status,
            RequestTokenError::BadResponse { status, .. } => Some(*status),
            RequestTokenError::ErrorResponse { status, .. } => Some(*status),
            RequestTokenError::EmptyResponse { status } => Some(*status),
        }
    }

    /// The original response body, kept only on the malformed-response
    /// outcome.
    pub fn body(&self) -> (r: Option<&Vec<u8>>)
        ensures
            match r {
                Some(b) => self@ matches RequestTokenErrorV::BadResponse { body, .. } && b@
                    == body,
                None => !(self@ is BadResponse),
            },
    {
        match self {
            RequestTokenError::BadResponse { body, .. } => Some(body),
            _ => None,
        }
    }
}

} // verus!
