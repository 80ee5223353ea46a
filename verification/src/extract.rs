//! Taking the assertion out of a request, and answering the request.

use crate::error::{InvalidTokenError, RequestError};
use crate::jwks::{admission_under, refused_with, Admission, JwkSet};
use crate::token::{text_view, token_header, token_entries, Claims, PinnedAlgorithm};
use vstd::prelude::*;

verus! {

/// The raw assertion that came with a request.
#[derive(Debug)]
pub struct ExtractAssertionToken(pub String);

/// The name of the header that carries the assertion.
pub const ASSERTION_HEADER: &'static str = "cf-access-jwt-assertion";

/// The name of the header that carries the verified identity onward.
pub const IDENTITY_HEADER: &'static str = "x-auth-user";

/// What a `HeaderMap` holds: each name under which `HeaderMap::get` finds a
/// value, with the bytes of that value, the first where there are several.
pub uninterp spec fn header_values(headers: axum::http::HeaderMap) -> Map<Seq<char>, Seq<u8>>;

/// Whether `byte` is a visible ASCII character, a space or a tab.
pub open spec fn is_visible_ascii(byte: u8) -> bool {
    32 <= byte < 127 || byte == 9
}

/// The bytes of a header value as text, where each of them is visible ASCII.
pub open spec fn visible_text(bytes: Seq<u8>) -> Option<Seq<char>> {
    if forall|i: int| 0 <= i < bytes.len() ==> is_visible_ascii(#[trigger] bytes[i]) {
        Some(Seq::new(bytes.len(), |i: int| bytes[i] as char))
    } else {
        None
    }
}

/// `HeaderMap::get` under `name`, then `HeaderValue::to_str`. Trusted: the
/// outcome is `None` where `header_values` holds nothing under `name`, and
/// else the value found there as text, which it is only where all of its
/// bytes are visible ASCII.
#[verifier::external_body]
fn header_text(headers: &axum::http::HeaderMap, name: &str) -> (text: Option<Option<String>>)
    ensures
        match text {
            None => !header_values(*headers).contains_key(name@),
            Some(found) => header_values(*headers).contains_key(name@) && text_view(found)
                == visible_text(header_values(*headers)[name@]),
        },
{
    headers.get(name).map(|value| value.to_str().ok().map(|text| text.to_owned()))
}

impl ExtractAssertionToken {
    /// The assertion in a header value: a missing header is missing
    /// credentials, a value that is no text is a malformed token.
    pub fn from_header(value: Option<Option<String>>) -> (token: Result<
        ExtractAssertionToken,
        RequestError,
    >)
        ensures
            match value {
                None => token == Err::<ExtractAssertionToken, RequestError>(
                    RequestError::MissingCredentials,
                ),
                Some(None) => token == Err::<ExtractAssertionToken, RequestError>(
                    RequestError::InvalidToken(InvalidTokenError::Malformed),
                ),
                Some(Some(text)) => token == Ok::<ExtractAssertionToken, RequestError>(
                    ExtractAssertionToken(text),
                ),
            },
    {
        match value {
            None => Err(RequestError::MissingCredentials),
            Some(None) => Err(RequestError::InvalidToken(InvalidTokenError::Malformed)),
            Some(Some(text)) => Ok(ExtractAssertionToken(text)),
        }
    }

    /// Whether `token` is what the header values `values` give: missing
    /// credentials where the assertion header is absent, a malformed token
    /// where its value is no visible ASCII text, and else that text.
    pub open spec fn is_read_from(
        values: Map<Seq<char>, Seq<u8>>,
        token: Result<ExtractAssertionToken, RequestError>,
    ) -> bool {
        if !values.contains_key(ASSERTION_HEADER@) {
            token == Err::<ExtractAssertionToken, RequestError>(RequestError::MissingCredentials)
        } else {
            match visible_text(values[ASSERTION_HEADER@]) {
                None => token == Err::<ExtractAssertionToken, RequestError>(
                    RequestError::InvalidToken(InvalidTokenError::Malformed),
                ),
                Some(text) => token matches Ok(found) && found.0@ == text,
            }
        }
    }

    /// The assertion among the headers of a request.
    pub fn from_request_parts(headers: &axum::http::HeaderMap) -> (token: Result<
        ExtractAssertionToken,
        RequestError,
    >)
        ensures
            Self::is_read_from(header_values(*headers), token),
            token matches Err(error) ==> error == RequestError::MissingCredentials || error
                == RequestError::InvalidToken(InvalidTokenError::Malformed),
    {
        ExtractAssertionToken::from_header(header_text(headers, ASSERTION_HEADER))
    }
}

/// The identity to pass on for a verified token, or the reason to refuse
/// the request.
pub fn forward(verified: Result<Claims, InvalidTokenError>) -> (answer: Result<
    String,
    RequestError,
>)
    ensures
        match verified {
            Ok(claims) => answer == Ok::<String, RequestError>(claims.email),
            Err(error) => answer == Err::<String, RequestError>(
                RequestError::InvalidToken(error),
            ),
        },
{
    match verified {
        Ok(claims) => Ok(claims.email),
        Err(error) => Err(RequestError::from(error)),
    }
}

/// Answers a request that brought `token` for `audience`: the subject's
/// email where the token verifies, else the reason to refuse it.
pub fn handler(token: ExtractAssertionToken, audience: &str, jwks: &JwkSet) -> (answer: Result<
    String,
    RequestError,
>)
    ensures
        answer is Ok ==> admission_under(
            token_header(token.0@),
            jwks.key_ids(),
            PinnedAlgorithm::Rs256,
        ) == Admission::KeyFound,
        answer matches Ok(email) ==> Claims::gives_email(
            token_entries(token.0@),
            audience@,
            jwks.issuer(),
            email@,
        ),
        answer matches Err(error) ==> error matches RequestError::InvalidToken(reason)
            && refused_with(
            admission_under(token_header(token.0@), jwks.key_ids(), PinnedAlgorithm::Rs256),
            reason,
        ),
{
    forward(jwks.decode(token.0.as_str(), audience))
}

} // verus!
