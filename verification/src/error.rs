//! The ways in which a request or its token is turned down, and what the
//! caller is told about each.

use vstd::prelude::*;

verus! {

/// The category of a failure reported by the token decoder.
#[derive(Clone, Copy, Debug, PartialEq, Eq, Structural)]
pub enum FailureKind {
    /// The token does not split into header, payload and signature.
    InvalidToken,
    /// The signature does not match the signed part.
    InvalidSignature,
    /// The header names another algorithm than the pinned one, or the key
    /// belongs to another family.
    InvalidAlgorithm,
    /// `exp` lies in the past.
    ExpiredSignature,
    /// `nbf` lies in the future.
    ImmatureSignature,
    /// `aud` is not the expected audience.
    InvalidAudience,
    /// `iss` is not the trusted issuer.
    InvalidIssuer,
    /// A claim that must be present is absent.
    MissingRequiredClaim,
    /// Anything else: bad key material, bad base64, bad JSON.
    Other,
}

/// A failure of the token decoder: its category and its own words.
#[derive(Clone, Debug, PartialEq, Eq)]
pub struct DecodeFailure {
    pub kind: FailureKind,
    pub detail: String,
}

#[verifier::external_type_specification]
#[verifier::external_body]
pub struct ExDecodeError(jsonwebtoken::errors::Error);

impl FailureKind {
    /// The decoder's words for a failure of this kind, where the kind alone
    /// decides them: the kind's own name.
    pub open spec fn words(self) -> Option<Seq<char>> {
        match self {
            FailureKind::InvalidToken => Some("InvalidToken"@),
            FailureKind::InvalidSignature => Some("InvalidSignature"@),
            FailureKind::InvalidAlgorithm => Some("InvalidAlgorithm"@),
            FailureKind::ExpiredSignature => Some("ExpiredSignature"@),
            FailureKind::ImmatureSignature => Some("ImmatureSignature"@),
            FailureKind::InvalidAudience => Some("InvalidAudience"@),
            FailureKind::InvalidIssuer => Some("InvalidIssuer"@),
            FailureKind::MissingRequiredClaim => None,
            FailureKind::Other => None,
        }
    }
}

/// The category of a decoder error: what `jsonwebtoken::errors::Error::kind`
/// gives for it, each kind that stands in `FailureKind` as itself and every
/// other as `Other`.
pub uninterp spec fn kind_of(error: jsonwebtoken::errors::Error) -> FailureKind;

/// The words of a decoder error: its `Display` text.
pub uninterp spec fn words_of(error: jsonwebtoken::errors::Error) -> Seq<char>;

/// `jsonwebtoken::errors::Error::kind`, told apart by variant, beside the
/// `Display` text of the same error. Trusted: they are what `kind_of` and
/// `words_of` name; for a kind that carries nothing the text is the kind's
/// name, and for a missing required claim it is `Missing required claim: `
/// and the claim's name. Nothing is claimed of the text of the other kinds.
#[verifier::external_body]
fn failure_parts(error: &jsonwebtoken::errors::Error) -> (parts: (FailureKind, String))
    ensures
        parts.0 == kind_of(*error),
        parts.1@ == words_of(*error),
        parts.0.words() matches Some(words) ==> parts.1@ == words,
        parts.0 == FailureKind::MissingRequiredClaim ==> exists|claim: Seq<char>|
            parts.1@ == DecodeFailure::missing_claim_text(claim),
{
    let kind = match error.kind() {
        jsonwebtoken::errors::ErrorKind::InvalidToken => FailureKind::InvalidToken,
        jsonwebtoken::errors::ErrorKind::InvalidSignature => FailureKind::InvalidSignature,
        jsonwebtoken::errors::ErrorKind::InvalidAlgorithm => FailureKind::InvalidAlgorithm,
        jsonwebtoken::errors::ErrorKind::ExpiredSignature => FailureKind::ExpiredSignature,
        jsonwebtoken::errors::ErrorKind::ImmatureSignature => FailureKind::ImmatureSignature,
        jsonwebtoken::errors::ErrorKind::InvalidAudience => FailureKind::InvalidAudience,
        jsonwebtoken::errors::ErrorKind::InvalidIssuer => FailureKind::InvalidIssuer,
        jsonwebtoken::errors::ErrorKind::MissingRequiredClaim(_) => FailureKind::MissingRequiredClaim,
        _ => FailureKind::Other,
    };
    (kind, format!("{}", error))
}

impl DecodeFailure {
    /// The decoder's words for a required claim `claim` that a token lacks.
    pub open spec fn missing_claim_text(claim: Seq<char>) -> Seq<char> {
        "Missing required claim: "@ + claim
    }

    /// Whether the words are the decoder's for a failure of this kind, as
    /// far as the kind decides them: the kind's name, or, for a missing
    /// required claim, the sentence that names the claim.
    pub open spec fn in_decoder_words(self) -> bool {
        &&& self.kind.words() matches Some(words) ==> self.detail@ == words
        &&& self.kind == FailureKind::MissingRequiredClaim ==> exists|claim: Seq<char>|
            self.detail@ == Self::missing_claim_text(claim)
    }

    /// Whether this failure is the decoder error `error`: of its category
    /// and in its words.
    pub open spec fn is_of(self, error: jsonwebtoken::errors::Error) -> bool {
        self.kind == kind_of(error) && self.detail@ == words_of(error)
    }

    /// The category of a failure of the decoder, and the decoder's own words
    /// for it.
    pub fn from_error(error: &jsonwebtoken::errors::Error) -> (failure: DecodeFailure)
        ensures
            failure.is_of(*error),
            failure.in_decoder_words(),
    {
        let parts = failure_parts(error);
        DecodeFailure { kind: parts.0, detail: parts.1 }
    }

    /// The words for a token that declares an algorithm that is not allowed.
    pub open spec fn invalid_algorithm_text() -> Seq<char> {
        "InvalidAlgorithm"@
    }

    /// The failure for a token that declares an algorithm that is not
    /// allowed.
    pub fn invalid_algorithm() -> (failure: DecodeFailure)
        ensures
            failure.kind == FailureKind::InvalidAlgorithm,
            failure.detail@ == Self::invalid_algorithm_text(),
    {
        DecodeFailure { kind: FailureKind::InvalidAlgorithm, detail: "InvalidAlgorithm".to_owned() }
    }

    /// The words for a token from another issuer than the trusted one.
    pub open spec fn invalid_issuer_text() -> Seq<char> {
        "InvalidIssuer"@
    }

    /// The failure for a token from another issuer than the trusted one.
    pub fn invalid_issuer() -> (failure: DecodeFailure)
        ensures
            failure.kind == FailureKind::InvalidIssuer,
            failure.detail@ == Self::invalid_issuer_text(),
    {
        DecodeFailure { kind: FailureKind::InvalidIssuer, detail: "InvalidIssuer".to_owned() }
    }

    /// The words for a token that is meant for another audience.
    pub open spec fn invalid_audience_text() -> Seq<char> {
        "InvalidAudience"@
    }

    /// The failure for a token that is meant for another audience.
    pub fn invalid_audience() -> (failure: DecodeFailure)
        ensures
            failure.kind == FailureKind::InvalidAudience,
            failure.detail@ == Self::invalid_audience_text(),
    {
        DecodeFailure { kind: FailureKind::InvalidAudience, detail: "InvalidAudience".to_owned() }
    }

    /// The words for a payload that lacks the field `name`.
    pub open spec fn missing_field_text(name: Seq<char>) -> Seq<char> {
        "JSON error: missing field `"@ + name + "`"@
    }

    /// The failure for a payload that lacks the field `name`.
    pub fn missing_field(name: &str) -> (failure: DecodeFailure)
        ensures
            failure.kind == FailureKind::Other,
            failure.detail@ == Self::missing_field_text(name@),
    {
        let detail = "JSON error: missing field `".to_owned().concat(name).concat("`");
        DecodeFailure { kind: FailureKind::Other, detail }
    }

    /// The words for a payload that holds something else than a string under
    /// the field `name`.
    pub open spec fn wrong_type_text(name: Seq<char>) -> Seq<char> {
        "JSON error: invalid type, expected a string for field `"@ + name + "`"@
    }

    /// The failure for a payload that holds something else than a string
    /// under the field `name`.
    pub fn wrong_type(name: &str) -> (failure: DecodeFailure)
        ensures
            failure.kind == FailureKind::Other,
            failure.detail@ == Self::wrong_type_text(name@),
    {
        let detail = "JSON error: invalid type, expected a string for field `".to_owned().concat(
            name,
        ).concat("`");
        DecodeFailure { kind: FailureKind::Other, detail }
    }
}

#[non_exhaustive]
#[derive(Clone, Debug, PartialEq, Eq)]
pub enum InvalidTokenError {
    Malformed,
    Decode(DecodeFailure),
    /// The token header carries no `kid`.
    KeyIdMissing,
    /// No trusted key carries the token's `kid`.
    UnknownSigner,
    /// There is no trusted key at all.
    NoSigners,
}

#[non_exhaustive]
#[derive(Clone, Debug, PartialEq, Eq)]
pub enum RequestError {
    /// The assertion header is missing.
    MissingCredentials,
    /// The token is not valid.
    InvalidToken(InvalidTokenError),
}

/// Status of a request that the client got wrong.
pub const BAD_REQUEST: u16 = 400;

/// Status of a request that may succeed later.
pub const SERVICE_UNAVAILABLE: u16 = 503;

impl InvalidTokenError {
    /// The text that describes this error.
    pub open spec fn message_spec(self) -> Seq<char> {
        match self {
            InvalidTokenError::Malformed => "Malformed"@,
            InvalidTokenError::Decode(failure) => "Decode error: "@ + failure.detail@,
            InvalidTokenError::KeyIdMissing => "Missing 'kid'"@,
            InvalidTokenError::UnknownSigner => "Unknown signer"@,
            InvalidTokenError::NoSigners => "No signer keys"@,
        }
    }

    /// The text that describes this error.
    pub fn message(&self) -> (text: String)
        ensures
            text@ == self.message_spec(),
    {
        match self {
            InvalidTokenError::Malformed => "Malformed".to_owned(),
            InvalidTokenError::Decode(failure) => {
                "Decode error: ".to_owned().concat(failure.detail.as_str())
            },
            InvalidTokenError::KeyIdMissing => "Missing 'kid'".to_owned(),
            InvalidTokenError::UnknownSigner => "Unknown signer".to_owned(),
            InvalidTokenError::NoSigners => "No signer keys".to_owned(),
        }
    }
}

impl From<InvalidTokenError> for RequestError {
    /// Wraps a token error as the reason a request is refused.
    fn from(error: InvalidTokenError) -> (wrapped: RequestError) {
        RequestError::InvalidToken(error)
    }
}

impl vstd::std_specs::convert::FromSpecImpl<InvalidTokenError> for RequestError {
    open spec fn obeys_from_spec() -> bool {
        true
    }

    open spec fn from_spec(error: InvalidTokenError) -> RequestError {
        RequestError::InvalidToken(error)
    }
}

impl RequestError {
    /// The response status: an empty key store asks the client to come back,
    /// everything else is the client's fault.
    pub open spec fn status_spec(self) -> u16 {
        match self {
            RequestError::InvalidToken(InvalidTokenError::NoSigners) => SERVICE_UNAVAILABLE,
            _ => BAD_REQUEST,
        }
    }

    /// The response body.
    pub open spec fn body_spec(self) -> Seq<char> {
        match self {
            RequestError::MissingCredentials => "Missing credentials"@,
            RequestError::InvalidToken(InvalidTokenError::NoSigners) => "Please try again later"@,
            RequestError::InvalidToken(error) => "Invalid token: "@ + error.message_spec(),
        }
    }

    /// The response status for this error.
    pub fn status(&self) -> (code: u16)
        ensures
            code == self.status_spec(),
            code == BAD_REQUEST || code == SERVICE_UNAVAILABLE,
            code == SERVICE_UNAVAILABLE <==> *self == RequestError::InvalidToken(
                InvalidTokenError::NoSigners,
            ),
    {
        match self {
            RequestError::InvalidToken(InvalidTokenError::NoSigners) => SERVICE_UNAVAILABLE,
            _ => BAD_REQUEST,
        }
    }

    /// The response body for this error.
    pub fn body(&self) -> (text: String)
        ensures
            text@ == self.body_spec(),
    {
        match self {
            RequestError::MissingCredentials => "Missing credentials".to_owned(),
            RequestError::InvalidToken(InvalidTokenError::NoSigners) => {
                "Please try again later".to_owned()
            },
            RequestError::InvalidToken(error) => {
                let message = error.message();
                "Invalid token: ".to_owned().concat(message.as_str())
            },
        }
    }

    /// Status and body of the response that refuses the request.
    pub fn into_response(self) -> (response: (u16, String))
        ensures
            response.0 == self.status_spec(),
            response.1@ == self.body_spec(),
    {
        (self.status(), self.body())
    }
}

} // verus!
