//! Classification of a token-endpoint response into a typed outcome
//! (RFC 6749 sections 5.1 and 5.2).
//!
//! The order of the checks matters and is fixed here: an empty body is
//! reported first, whatever the status; then the status decides which schema
//! is attempted — the error schema on a failing status, the token schema on a
//! successful one — and never both.

use vstd::prelude::*;

verus! {

use crate::error::ErrorResponse;
use crate::error::RequestTokenError;
use crate::error::RequestTokenErrorV;
use crate::error::spec_parse_error_response;
use crate::token::Token;

/// Whether a status code counts as success: the 2xx range.
pub open spec fn spec_is_success(status: u16) -> bool {
    200 <= status < 300
}

/// The outcome a complete response decodes to under the token shape `T`:
/// an empty body gives the empty-response error whatever the status; a
/// non-empty body with a failing status gives the structured OAuth error
/// when it parses as one and the malformed-response error otherwise; a
/// non-empty body with a successful status gives the token when it parses
/// as one and the malformed-response error otherwise.
pub open spec fn spec_decode_response<T: Token>(status: u16, body: Seq<u8>) -> Result<
    T::V,
    RequestTokenErrorV,
> {
    if body.len() == 0 {
        Err(RequestTokenErrorV::EmptyResponse { status })
    } else if !spec_is_success(status) {
        match spec_parse_error_response(body) {
            Some(error) => Err(RequestTokenErrorV::ErrorResponse { status, error }),
            None => Err(RequestTokenErrorV::BadResponse { status, body }),
        }
    } else {
        match T::spec_parse(body) {
            Some(t) => Ok(t),
            None => Err(RequestTokenErrorV::BadResponse { status, body }),
        }
    }
}

/// Decode a complete token-endpoint response — status code and full body —
/// into a token of shape `T` or a typed error, exactly as
/// [`spec_decode_response`] describes.
pub fn decode_response<T: Token>(status: u16, body: Vec<u8>) -> (r: Result<T, RequestTokenError>)
    ensures
        match r {
            Ok(t) => spec_decode_response::<T>(status, body@) == Ok::<T::V, RequestTokenErrorV>(
                t@,
            ),
            Err(e) => spec_decode_response::<T>(status, body@) == Err::<
                T::V,
                RequestTokenErrorV,
            >(e@),
        },
{
    if body.len() == 0 {
        return Err(RequestTokenError::EmptyResponse { status });
    }
    if !(200 <= status && status < 300) {
        return match ErrorResponse::parse(body.as_slice()) {
            Some(error) => Err(RequestTokenError::ErrorResponse { status, error }),
            None => Err(RequestTokenError::BadResponse { status, body }),
        };
    }
    match T::parse_response(body.as_slice()) {
        Some(t) => Ok(t),
        None => Err(RequestTokenError::BadResponse { status, body }),
    }
}

} // verus!
