//! What a token declares and asserts: the header that names its key and
//! algorithm, the policy it is held to, and the identity in its payload.

use crate::error::{kind_of, DecodeFailure, FailureKind, InvalidTokenError};
use vstd::prelude::*;

verus! {

#[verifier::external_type_specification]
#[verifier::external_body]
pub struct ExJsonValue(serde_json::Value);

/// The signature algorithms that a token header can declare.
#[derive(Clone, Copy, Debug, PartialEq, Eq, Structural)]
pub enum TokenAlgorithm {
    Hs256,
    Hs384,
    Hs512,
    Es256,
    Es384,
    Rs256,
    Rs384,
    Rs512,
    Ps256,
    Ps384,
    Ps512,
    EdDsa,
}

/// What `jsonwebtoken::decode_header` finds in a token: the `kid` of the
/// header, which may be absent, and its `alg`; or, where it fails, the kind
/// of its failure.
pub uninterp spec fn token_header(token: Seq<char>) -> Result<
    (Option<Seq<char>>, TokenAlgorithm),
    FailureKind,
>;

/// The view of a text that may be absent.
pub open spec fn text_view(id: Option<String>) -> Option<Seq<char>> {
    match id {
        Some(text) => Some(text@),
        None => None,
    }
}

/// `jsonwebtoken::decode_header`, keeping the fields `kid` and `alg` of the
/// header. Trusted: the outcome is what `token_header` names, the key
/// identifier and the algorithm, or an error of the kind named there.
#[verifier::external_body]
pub(crate) fn read_header(token: &str) -> (header: Result<
    (Option<String>, TokenAlgorithm),
    jsonwebtoken::errors::Error,
>)
    ensures
        match header {
            Ok(found) => token_header(token@) matches Ok(named) && named == (
                text_view(found.0),
                found.1,
            ),
            Err(error) => token_header(token@) matches Err(kind) && kind == kind_of(error),
        },
{
    jsonwebtoken::decode_header(token).map(|header| (header.kid, match header.alg {
        jsonwebtoken::Algorithm::HS256 => TokenAlgorithm::Hs256,
        jsonwebtoken::Algorithm::HS384 => TokenAlgorithm::Hs384,
        jsonwebtoken::Algorithm::HS512 => TokenAlgorithm::Hs512,
        jsonwebtoken::Algorithm::ES256 => TokenAlgorithm::Es256,
        jsonwebtoken::Algorithm::ES384 => TokenAlgorithm::Es384,
        jsonwebtoken::Algorithm::RS256 => TokenAlgorithm::Rs256,
        jsonwebtoken::Algorithm::RS384 => TokenAlgorithm::Rs384,
        jsonwebtoken::Algorithm::RS512 => TokenAlgorithm::Rs512,
        jsonwebtoken::Algorithm::PS256 => TokenAlgorithm::Ps256,
        jsonwebtoken::Algorithm::PS384 => TokenAlgorithm::Ps384,
        jsonwebtoken::Algorithm::PS512 => TokenAlgorithm::Ps512,
        jsonwebtoken::Algorithm::EdDSA => TokenAlgorithm::EdDsa,
    }))
}

/// The signature algorithms of the RSA family with PKCS#1 padding, one of
/// which a store pins.
#[derive(Clone, Copy, Debug, PartialEq, Eq, Structural)]
pub enum PinnedAlgorithm {
    Rs256,
    Rs384,
    Rs512,
}

impl PinnedAlgorithm {
    /// This algorithm, as a token header declares it.
    pub open spec fn declared(self) -> TokenAlgorithm {
        match self {
            PinnedAlgorithm::Rs256 => TokenAlgorithm::Rs256,
            PinnedAlgorithm::Rs384 => TokenAlgorithm::Rs384,
            PinnedAlgorithm::Rs512 => TokenAlgorithm::Rs512,
        }
    }

    /// Whether a token that declares `algorithm` is signed as pinned: no
    /// other algorithm will do, of the same family or not.
    pub fn admits(self, algorithm: TokenAlgorithm) -> (same: bool)
        ensures
            same == (self.declared() == algorithm),
    {
        match self {
            PinnedAlgorithm::Rs256 => algorithm == TokenAlgorithm::Rs256,
            PinnedAlgorithm::Rs384 => algorithm == TokenAlgorithm::Rs384,
            PinnedAlgorithm::Rs512 => algorithm == TokenAlgorithm::Rs512,
        }
    }
}

/// What a token is held to besides its signature.
#[derive(Clone, Debug, PartialEq, Eq)]
pub struct ValidationPolicy {
    /// The one algorithm a token may be signed with.
    pub algorithm: PinnedAlgorithm,
    /// The seconds by which `exp` may lie in the past and `nbf` in the future.
    pub leeway: u64,
    /// Whether an `exp` in the past is refused.
    pub validate_exp: bool,
    /// Whether a `nbf` in the future is refused.
    pub validate_nbf: bool,
    /// The one audience a token may be meant for.
    pub audience: String,
    /// The one issuer a token may come from.
    pub issuer: String,
    /// The claims a token must carry.
    pub required_claims: Vec<String>,
}

impl ValidationPolicy {
    /// The names of the claims every token must carry.
    pub open spec fn required_names() -> Seq<Seq<char>> {
        seq!["exp"@, "nbf"@, "aud"@, "iss"@]
    }

    /// Whether this is the policy for `audience` and `issuer`: RS256 only,
    /// `exp` and `nbf` held to the second, and expiry, maturity, audience
    /// and issuer all required.
    pub open spec fn pins(&self, audience: Seq<char>, issuer: Seq<char>) -> bool {
        &&& self.algorithm == PinnedAlgorithm::Rs256
        &&& self.leeway == 0
        &&& self.validate_exp
        &&& self.validate_nbf
        &&& self.audience@ == audience
        &&& self.issuer@ == issuer
        &&& self.required_claims@.len() == 4
        &&& forall|i: int|
            0 <= i < 4 ==> (#[trigger] self.required_claims@[i])@ == Self::required_names()[i]
    }
}

/// The identity that a verified token asserts.
#[derive(Clone, Debug, PartialEq, Eq)]
pub struct Claims {
    pub email: String,
    pub token_type: String,
    pub identity_nonce: String,
    pub sub: String,
    pub country: String,
}

impl Claims {
    /// The name of the first of the five fields that is absent, if any.
    pub open spec fn first_missing(
        email: Option<String>,
        token_type: Option<String>,
        identity_nonce: Option<String>,
        sub: Option<String>,
        country: Option<String>,
    ) -> Option<Seq<char>> {
        if email.is_none() {
            Some("email"@)
        } else if token_type.is_none() {
            Some("type"@)
        } else if identity_nonce.is_none() {
            Some("identity_nonce"@)
        } else if sub.is_none() {
            Some("sub"@)
        } else if country.is_none() {
            Some("country"@)
        } else {
            None
        }
    }

    /// Builds the identity from the five text fields of a payload. All five
    /// are owed: the first absent one is named in the error.
    pub fn from_fields(
        email: Option<String>,
        token_type: Option<String>,
        identity_nonce: Option<String>,
        sub: Option<String>,
        country: Option<String>,
    ) -> (claims: Result<Claims, InvalidTokenError>)
        ensures
            match Self::first_missing(email, token_type, identity_nonce, sub, country) {
                None => claims == Ok::<Claims, InvalidTokenError>(
                    Claims {
                        email: email.unwrap(),
                        token_type: token_type.unwrap(),
                        identity_nonce: identity_nonce.unwrap(),
                        sub: sub.unwrap(),
                        country: country.unwrap(),
                    },
                ),
                Some(name) => claims matches Err(InvalidTokenError::Decode(failure))
                    && failure.kind == FailureKind::Other
                    && failure.detail@ == DecodeFailure::missing_field_text(name),
            },
    {
        let Some(email) = email else {
            return Err(InvalidTokenError::Decode(DecodeFailure::missing_field("email")));
        };
        let Some(token_type) = token_type else {
            return Err(InvalidTokenError::Decode(DecodeFailure::missing_field("type")));
        };
        let Some(identity_nonce) = identity_nonce else {
            return Err(InvalidTokenError::Decode(DecodeFailure::missing_field("identity_nonce")));
        };
        let Some(sub) = sub else {
            return Err(InvalidTokenError::Decode(DecodeFailure::missing_field("sub")));
        };
        let Some(country) = country else {
            return Err(InvalidTokenError::Decode(DecodeFailure::missing_field("country")));
        };
        Ok(Claims { email, token_type, identity_nonce, sub, country })
    }

    /// The name of the first of the five identity fields under which
    /// `entries` holds no text, if any.
    pub open spec fn first_unread(entries: Map<Seq<char>, Option<Seq<char>>>) -> Option<
        Seq<char>,
    > {
        if text_under(entries, "email"@) is None {
            Some("email"@)
        } else if text_under(entries, "type"@) is None {
            Some("type"@)
        } else if text_under(entries, "identity_nonce"@) is None {
            Some("identity_nonce"@)
        } else if text_under(entries, "sub"@) is None {
            Some("sub"@)
        } else if text_under(entries, "country"@) is None {
            Some("country"@)
        } else {
            None
        }
    }

    /// The words for the field `name` under which `entries` holds no text:
    /// it is missing, or what stands there is no string.
    pub open spec fn unread_text(entries: Map<Seq<char>, Option<Seq<char>>>, name: Seq<char>) -> Seq<
        char,
    > {
        if entries.contains_key(name) {
            DecodeFailure::wrong_type_text(name)
        } else {
            DecodeFailure::missing_field_text(name)
        }
    }

    /// Whether `claims` is what a payload with the entries `entries` gives
    /// for `audience` and `issuer`: the failure of a payload that names other
    /// parties, else the failure that names the first identity field that
    /// is missing or no string, else the five fields as they stand.
    pub open spec fn is_read_from(
        entries: Map<Seq<char>, Option<Seq<char>>>,
        audience: Seq<char>,
        issuer: Seq<char>,
        claims: Result<Claims, InvalidTokenError>,
    ) -> bool {
        match party_failure(
            text_under(entries, "iss"@),
            text_under(entries, "aud"@),
            audience,
            issuer,
        ) {
            Some(kind) => claims matches Err(InvalidTokenError::Decode(failure)) && failure.kind
                == kind && failure.detail@ == party_text(kind),
            None => match Self::first_unread(entries) {
                Some(name) => claims matches Err(InvalidTokenError::Decode(failure))
                    && failure.kind == FailureKind::Other && failure.detail@
                    == Self::unread_text(entries, name),
                None => claims matches Ok(identity) && Some(identity.email@) == text_under(
                    entries,
                    "email"@,
                ) && Some(identity.token_type@) == text_under(entries, "type"@) && Some(
                    identity.identity_nonce@,
                ) == text_under(entries, "identity_nonce"@) && Some(identity.sub@) == text_under(
                    entries,
                    "sub"@,
                ) && Some(identity.country@) == text_under(entries, "country"@),
            },
        }
    }

    /// Whether `email` is the email of the identity that a payload with the
    /// entries `entries` gives for `audience` and `issuer`: the payload
    /// names both to the letter, holds all five identity fields as text, and
    /// `email` is the one it holds.
    pub open spec fn gives_email(
        entries: Map<Seq<char>, Option<Seq<char>>>,
        audience: Seq<char>,
        issuer: Seq<char>,
        email: Seq<char>,
    ) -> bool {
        &&& party_failure(
            text_under(entries, "iss"@),
            text_under(entries, "aud"@),
            audience,
            issuer,
        ) is None
        &&& Self::first_unread(entries) is None
        &&& text_under(entries, "email"@) == Some(email)
    }

    /// The failure for the field `name` of a payload under which no text
    /// stands.
    fn unread_field(payload: &serde_json::Value, name: &str) -> (error: InvalidTokenError)
        ensures
            error matches InvalidTokenError::Decode(failure) && failure.kind == FailureKind::Other
                && failure.detail@ == Self::unread_text(payload_entries(*payload), name@),
    {
        if claim_present(payload, name) {
            InvalidTokenError::Decode(DecodeFailure::wrong_type(name))
        } else {
            InvalidTokenError::Decode(DecodeFailure::missing_field(name))
        }
    }

    /// Reads the identity out of a payload that the decoder accepted, once
    /// the payload names `issuer` and `audience` and nobody else.
    pub fn from_payload(payload: &serde_json::Value, audience: &str, issuer: &str) -> (claims:
        Result<Claims, InvalidTokenError>)
        ensures
            Self::is_read_from(payload_entries(*payload), audience@, issuer@, claims),
            claims matches Err(error) ==> error matches InvalidTokenError::Decode(failure)
                && failure.in_decoder_words(),
    {
        match check_parties(claim_text(payload, "iss"), claim_text(payload, "aud"), audience, issuer) {
            Err(error) => { return Err(error); },
            Ok(()) => {},
        }
        let email = claim_text(payload, "email");
        if email.is_none() {
            return Err(Self::unread_field(payload, "email"));
        }
        let token_type = claim_text(payload, "type");
        if token_type.is_none() {
            return Err(Self::unread_field(payload, "type"));
        }
        let identity_nonce = claim_text(payload, "identity_nonce");
        if identity_nonce.is_none() {
            return Err(Self::unread_field(payload, "identity_nonce"));
        }
        let sub = claim_text(payload, "sub");
        if sub.is_none() {
            return Err(Self::unread_field(payload, "sub"));
        }
        let country = claim_text(payload, "country");
        if country.is_none() {
            return Err(Self::unread_field(payload, "country"));
        }
        Claims::from_fields(email, token_type, identity_nonce, sub, country)
    }
}

/// The words for a payload that names another party, by the kind of the
/// failure.
pub open spec fn party_text(kind: FailureKind) -> Seq<char> {
    if kind == FailureKind::InvalidIssuer {
        DecodeFailure::invalid_issuer_text()
    } else {
        DecodeFailure::invalid_audience_text()
    }
}

/// What is wrong with the parties that a payload names, if anything: `iss`
/// must be the trusted issuer and `aud` the expected audience, each as one
/// text and to the letter. The issuer is looked at first.
pub open spec fn party_failure(
    iss: Option<Seq<char>>,
    aud: Option<Seq<char>>,
    audience: Seq<char>,
    issuer: Seq<char>,
) -> Option<FailureKind> {
    if iss != Some(issuer) {
        Some(FailureKind::InvalidIssuer)
    } else if aud != Some(audience) {
        Some(FailureKind::InvalidAudience)
    } else {
        None
    }
}

/// Holds the `iss` and `aud` of a payload against the trusted issuer and the
/// expected audience. A prefix, a longer text, a list or an absent claim is
/// no match.
pub fn check_parties(iss: Option<String>, aud: Option<String>, audience: &str, issuer: &str) -> (
    checked: Result<(), InvalidTokenError>)
    ensures
        match party_failure(text_view(iss), text_view(aud), audience@, issuer@) {
            None => checked is Ok,
            Some(kind) => checked matches Err(InvalidTokenError::Decode(failure)) && failure.kind
                == kind && failure.detail@ == (if kind == FailureKind::InvalidIssuer {
                DecodeFailure::invalid_issuer_text()
            } else {
                DecodeFailure::invalid_audience_text()
            }),
        },
{
    let trusted = issuer.to_owned();
    let expected = audience.to_owned();
    let issuer_matches = match &iss {
        Some(text) => *text == trusted,
        None => false,
    };
    if !issuer_matches {
        return Err(InvalidTokenError::Decode(DecodeFailure::invalid_issuer()));
    }
    let audience_matches = match &aud {
        Some(text) => *text == expected,
        None => false,
    };
    if !audience_matches {
        return Err(InvalidTokenError::Decode(DecodeFailure::invalid_audience()));
    }
    Ok(())
}

/// What the payload of a token holds: the entries of the payload that
/// `jsonwebtoken::decode` hands back where it accepts the token. Whether it
/// accepts is not in the name.
pub uninterp spec fn token_entries(token: Seq<char>) -> Map<Seq<char>, Option<Seq<char>>>;

/// `jsonwebtoken::decode` under a `jsonwebtoken::Validation` that holds the
/// policy field for field (no subject is asked for, and the signature is
/// checked, as `Validation::new` sets them). Trusted: a payload that comes
/// back is the token's own, whose entries `token_entries` names. Nothing
/// is claimed of whether one comes back, which depends on the clock. It is
/// asked with no leeway: the decoder subtracts the leeway from the clock's
/// reading unguarded.
#[verifier::external_body]
pub(crate) fn decode_payload(
    token: &str,
    key: &jsonwebtoken::DecodingKey,
    policy: &ValidationPolicy,
) -> (payload: Result<serde_json::Value, jsonwebtoken::errors::Error>)
    requires
        policy.leeway == 0,
    ensures
        payload matches Ok(accepted) ==> payload_entries(accepted) == token_entries(token@),
{
    let mut validation = jsonwebtoken::Validation::new(
        match policy.algorithm {
            PinnedAlgorithm::Rs256 => jsonwebtoken::Algorithm::RS256,
            PinnedAlgorithm::Rs384 => jsonwebtoken::Algorithm::RS384,
            PinnedAlgorithm::Rs512 => jsonwebtoken::Algorithm::RS512,
        },
    );
    validation.leeway = policy.leeway;
    validation.validate_exp = policy.validate_exp;
    validation.validate_nbf = policy.validate_nbf;
    validation.set_audience(&[&policy.audience]);
    validation.set_issuer(&[&policy.issuer]);
    validation.set_required_spec_claims(&policy.required_claims);
    jsonwebtoken::decode::<serde_json::Value>(token, key, &validation).map(|data| data.claims)
}

/// What a `serde_json::Value` holds: where it is an object, each of its
/// keys, with the string that stands under it, or `None` where something
/// else stands there; nothing where it is no object.
pub uninterp spec fn payload_entries(payload: serde_json::Value) -> Map<
    Seq<char>,
    Option<Seq<char>>,
>;

/// The text under `name` among `entries`, if a text stands there.
pub open spec fn text_under(entries: Map<Seq<char>, Option<Seq<char>>>, name: Seq<char>) -> Option<
    Seq<char>,
> {
    if entries.contains_key(name) {
        entries[name]
    } else {
        None
    }
}

/// `serde_json::Value::get` followed by `serde_json::Value::as_str`.
/// Trusted: the outcome is the text under `name` among `payload_entries`, if
/// the payload is an object that holds a string there, and `None` else.
#[verifier::external_body]
fn claim_text(payload: &serde_json::Value, name: &str) -> (text: Option<String>)
    ensures
        text_view(text) == text_under(payload_entries(*payload), name@),
{
    payload.get(name).and_then(|value| value.as_str()).map(|text| text.to_owned())
}

/// `serde_json::Value::get`, asked whether it finds anything. Trusted: it
/// does exactly under the keys of `payload_entries`.
#[verifier::external_body]
fn claim_present(payload: &serde_json::Value, name: &str) -> (present: bool)
    ensures
        present == payload_entries(*payload).contains_key(name@),
{
    payload.get(name).is_some()
}

/// What a header that could not be read is refused with: a token that does
/// not split into its three parts is malformed, any other failure is passed
/// on as a decode error.
pub fn reject_header(failure: DecodeFailure) -> (error: InvalidTokenError)
    ensures
        failure.kind == FailureKind::InvalidToken ==> error == InvalidTokenError::Malformed,
        failure.kind != FailureKind::InvalidToken ==> error == InvalidTokenError::Decode(failure),
{
    match failure.kind {
        FailureKind::InvalidToken => InvalidTokenError::Malformed,
        _ => InvalidTokenError::Decode(failure),
    }
}

/// The identity in a payload that the decoder accepted, or the decode error
/// for a token that it refused, or for a payload that names other parties
/// or lacks a field.
pub fn identity_or_failure(
    decoded: Result<serde_json::Value, jsonwebtoken::errors::Error>,
    audience: &str,
    issuer: &str,
) -> (identity: Result<Claims, InvalidTokenError>)
    ensures
        decoded matches Ok(payload) ==> Claims::is_read_from(
            payload_entries(payload),
            audience@,
            issuer@,
            identity,
        ),
        decoded matches Err(refusal) ==> identity matches Err(
            InvalidTokenError::Decode(failure),
        ) && failure.is_of(refusal),
        identity matches Err(error) ==> error matches InvalidTokenError::Decode(failure)
            && failure.in_decoder_words(),
{
    match decoded {
        Ok(payload) => Claims::from_payload(&payload, audience, issuer),
        Err(error) => Err(InvalidTokenError::Decode(DecodeFailure::from_error(&error))),
    }
}

/// A payload whose `aud` is not the expected audience to the letter, or whose
/// `iss` is not the trusted issuer to the letter, has a party failure, and
/// so is refused by `check_parties` with the decode error of that kind.
pub proof fn other_party_is_refused(
    iss: Option<Seq<char>>,
    aud: Option<Seq<char>>,
    audience: Seq<char>,
    issuer: Seq<char>,
)
    ensures
        iss != Some(issuer) ==> party_failure(iss, aud, audience, issuer) == Some(
            FailureKind::InvalidIssuer,
        ),
        iss == Some(issuer) && aud != Some(audience) ==> party_failure(iss, aud, audience, issuer)
            == Some(FailureKind::InvalidAudience),
        party_failure(iss, aud, audience, issuer).is_none() <==> iss == Some(issuer) && aud
            == Some(audience),
{
}

} // verus!
