//! The store of trusted signing keys and the verification of a token
//! against it.

use crate::error::{DecodeFailure, FailureKind, InvalidTokenError};
use crate::token::{
    decode_payload, identity_or_failure, read_header, reject_header, text_view, token_header,
    token_entries, Claims, PinnedAlgorithm, TokenAlgorithm, ValidationPolicy,
};
use vstd::prelude::*;

verus! {

#[verifier::external_type_specification]
#[verifier::external_body]
pub struct ExJwk(jsonwebtoken::jwk::Jwk);

#[verifier::external_type_specification]
#[verifier::external_body]
pub struct ExDecodingKey(jsonwebtoken::DecodingKey);

/// The key identifier that a published key carries, if it carries one: its
/// field `common.key_id`.
pub uninterp spec fn published_id(jwk: jsonwebtoken::jwk::Jwk) -> Option<Seq<char>>;

/// Whether `jsonwebtoken::DecodingKey::from_jwk` makes a verification key
/// of a published key.
pub uninterp spec fn key_made(jwk: jsonwebtoken::jwk::Jwk) -> bool;

/// The field `common.key_id` of a `jsonwebtoken::jwk::Jwk`. Trusted: it is
/// what `published_id` names.
#[verifier::external_body]
fn jwk_key_id(jwk: &jsonwebtoken::jwk::Jwk) -> (kid: Option<String>)
    ensures
        text_view(kid) == published_id(*jwk),
{
    jwk.common.key_id.clone()
}

/// `jsonwebtoken::DecodingKey::from_jwk`. Trusted: it succeeds exactly where
/// `key_made` says so, which depends on the key material alone. Nothing is
/// claimed of the key or of the error.
#[verifier::external_body]
fn decoding_key(jwk: &jsonwebtoken::jwk::Jwk) -> (key: Result<
    jsonwebtoken::DecodingKey,
    jsonwebtoken::errors::Error,
>)
    ensures
        key is Ok <==> key_made(*jwk),
{
    jsonwebtoken::DecodingKey::from_jwk(jwk)
}

/// A trusted verification key: the key as published, and the identifier it
/// is found by.
#[derive(Debug)]
pub struct SigningKey {
    key_id: Option<String>,
    jwk: jsonwebtoken::jwk::Jwk,
}

impl SigningKey {
    /// The identifier this key is found by, if it has one.
    pub closed spec fn id(&self) -> Option<Seq<char>> {
        text_view(self.key_id)
    }

    /// The key as it was published.
    pub closed spec fn material(&self) -> jsonwebtoken::jwk::Jwk {
        self.jwk
    }

    /// Takes a published key into the library, under the identifier it
    /// carries.
    pub fn from_jwk(jwk: jsonwebtoken::jwk::Jwk) -> (key: SigningKey)
        ensures
            key.material() == jwk,
            key.id() == published_id(jwk),
    {
        let key_id = jwk_key_id(&jwk);
        SigningKey { key_id, jwk }
    }

    /// The identifier this key is found by, if it has one.
    pub fn key_id(&self) -> (kid: &Option<String>)
        ensures
            text_view(*kid) == self.id(),
    {
        &self.key_id
    }

    /// Whether this key carries exactly the identifier `kid`.
    pub fn has_id(&self, kid: &String) -> (same: bool)
        ensures
            same == (self.id() == Some(kid@)),
    {
        match &self.key_id {
            Some(own) => *own == *kid,
            None => false,
        }
    }
}

/// Where a token stands once its header was read and its key looked up.
pub enum Admission {
    /// The header could not be read, with a failure of this kind.
    BadHeader(FailureKind),
    /// The header names no key.
    KeyIdMissing,
    /// No key is trusted at all.
    NoSigners,
    /// Keys are trusted, but not the one that the header names.
    UnknownSigner,
    /// The key is trusted, but the header declares another algorithm than
    /// the pinned one.
    WrongAlgorithm,
    /// The key that the header names is trusted.
    KeyFound,
}

/// Whether some key of `ids` carries the identifier `kid`.
pub open spec fn has_match(ids: Seq<Option<Seq<char>>>, kid: Seq<char>) -> bool {
    exists|i: int| 0 <= i < ids.len() && #[trigger] ids[i] == Some(kid)
}

/// Whether `i` is the first place in `ids` that carries the identifier `kid`.
pub open spec fn first_match(ids: Seq<Option<Seq<char>>>, kid: Seq<char>, i: int) -> bool {
    &&& 0 <= i < ids.len()
    &&& ids[i] == Some(kid)
    &&& forall|j: int| 0 <= j < i ==> #[trigger] ids[j] != Some(kid)
}

/// The outcome of looking `kid` up among the identifiers `ids`: an empty store
/// is told apart from a store that lacks the key.
pub open spec fn resolve(ids: Seq<Option<Seq<char>>>, kid: Seq<char>) -> Admission {
    if ids.len() == 0 {
        Admission::NoSigners
    } else if has_match(ids, kid) {
        Admission::KeyFound
    } else {
        Admission::UnknownSigner
    }
}

/// How far a token gets before its signature is looked at: its header is
/// read first, the store is asked only for a key identifier that the header
/// holds.
pub open spec fn admission(
    header: Result<(Option<Seq<char>>, TokenAlgorithm), FailureKind>,
    ids: Seq<Option<Seq<char>>>,
) -> Admission {
    match header {
        Err(kind) => Admission::BadHeader(kind),
        Ok((None, _)) => Admission::KeyIdMissing,
        Ok((Some(kid), _)) => resolve(ids, kid),
    }
}

/// How far a token gets where `pinned` is the one algorithm allowed: the
/// algorithm that the header declares is held against it as soon as the key
/// is found, before the key or the signature is looked at.
pub open spec fn admission_under(
    header: Result<(Option<Seq<char>>, TokenAlgorithm), FailureKind>,
    ids: Seq<Option<Seq<char>>>,
    pinned: PinnedAlgorithm,
) -> Admission {
    match header {
        Ok((Some(kid), algorithm)) if has_match(ids, kid) && algorithm != pinned.declared() => {
            Admission::WrongAlgorithm
        },
        _ => admission(header, ids),
    }
}

/// Whether `error` is what a token that got as far as `stage` is refused
/// with. A header that could not be read because the token does not split
/// into its three parts is malformed; any other failure to read it is a
/// decode error of that kind. Once its key is found the decoder decides, and
/// every refusal is a decode error in the decoder's words.
pub open spec fn refused_with(stage: Admission, error: InvalidTokenError) -> bool {
    match stage {
        Admission::BadHeader(kind) => if kind == FailureKind::InvalidToken {
            error == InvalidTokenError::Malformed
        } else {
            error matches InvalidTokenError::Decode(failure) && failure.kind == kind
                && failure.in_decoder_words()
        },
        Admission::KeyIdMissing => error == InvalidTokenError::KeyIdMissing,
        Admission::NoSigners => error == InvalidTokenError::NoSigners,
        Admission::UnknownSigner => error == InvalidTokenError::UnknownSigner,
        Admission::WrongAlgorithm => error matches InvalidTokenError::Decode(failure)
            && failure.kind == FailureKind::InvalidAlgorithm && failure.detail@
            == DecodeFailure::invalid_algorithm_text(),
        Admission::KeyFound => error matches InvalidTokenError::Decode(failure)
            && failure.in_decoder_words(),
    }
}

/// The identifiers of `keys`, place by place.
pub open spec fn ids_of(keys: Seq<SigningKey>) -> Seq<Option<Seq<char>>> {
    Seq::new(keys.len(), |i: int| keys[i].id())
}

/// The set of keys that are trusted at the moment, and the issuer whose
/// tokens they sign.
#[derive(Debug)]
pub struct JwkSet {
    keys: Vec<SigningKey>,
    issuer: String,
}

impl JwkSet {
    /// The keys that are trusted, in the order they were published.
    pub closed spec fn snapshot(&self) -> Seq<SigningKey> {
        self.keys@
    }

    /// The trusted issuer.
    pub closed spec fn issuer(&self) -> Seq<char> {
        self.issuer@
    }

    /// The identifiers of the trusted keys.
    pub open spec fn key_ids(&self) -> Seq<Option<Seq<char>>> {
        ids_of(self.snapshot())
    }

    /// Whether the first trusted key under the identifier `kid` makes a
    /// verification key. It holds where no key carries `kid`.
    pub open spec fn first_key_is_made(&self, kid: Seq<char>) -> bool {
        forall|i: int|
            first_match(self.key_ids(), kid, i) ==> key_made(
                (#[trigger] self.snapshot()[i]).material(),
            )
    }

    /// A store for the tokens of `issuer` that trusts no key yet.
    pub fn new(issuer: &str) -> (set: JwkSet)
        ensures
            set.snapshot() == Seq::<SigningKey>::empty(),
            set.issuer() == issuer@,
    {
        JwkSet { keys: Vec::new(), issuer: issuer.to_owned() }
    }

    /// Whether no key is trusted.
    pub fn is_empty(&self) -> (empty: bool)
        ensures
            empty == (self.snapshot().len() == 0),
    {
        self.keys.len() == 0
    }

    /// The number of trusted keys.
    pub fn len(&self) -> (count: usize)
        ensures
            count == self.snapshot().len(),
    {
        self.keys.len()
    }

    /// Replaces the trusted keys by `new_keys`, all at once: none of the old
    /// keys stays, and the issuer is kept. The exclusive borrow is what keeps
    /// a reader from seeing a store that is half replaced.
    pub fn update_keys(&mut self, new_keys: Vec<SigningKey>)
        ensures
            final(self).snapshot() == new_keys@,
            final(self).issuer() == old(self).issuer(),
    {
        self.keys = new_keys;
    }

    /// Finds the first trusted key that carries the identifier `kid`. An
    /// empty store is an error of its own.
    pub fn find(&self, kid: &str) -> (found: Result<Option<&SigningKey>, InvalidTokenError>)
        ensures
            match found {
                Ok(Some(key)) => exists|i: int|
                    first_match(self.key_ids(), kid@, i) && *key == #[trigger] self.snapshot()[i],
                Ok(None) => resolve(self.key_ids(), kid@) == Admission::UnknownSigner,
                Err(error) => self.snapshot().len() == 0 && error == InvalidTokenError::NoSigners,
            },
            found is Err <==> self.snapshot().len() == 0,
            found matches Ok(Some(_)) <==> resolve(self.key_ids(), kid@) == Admission::KeyFound,
    {
        if self.keys.len() == 0 {
            return Err(InvalidTokenError::NoSigners);
        }
        let wanted = kid.to_owned();
        let mut at: usize = 0;
        while at < self.keys.len()
            invariant
                at <= self.keys.len(),
                wanted@ == kid@,
                forall|j: int| 0 <= j < at ==> #[trigger] self.key_ids()[j] != Some(kid@),
            decreases self.keys.len() - at,
        {
            if self.keys[at].has_id(&wanted) {
                assert(first_match(self.key_ids(), kid@, at as int));
                return Ok(Some(&self.keys[at]));
            }
            at = at + 1;
        }
        Ok(None)
    }

    /// Whether `header` names a key, and the first trusted key under that
    /// identifier makes a verification key.
    pub open spec fn named_key_is_made(
        &self,
        header: Result<(Option<Seq<char>>, TokenAlgorithm), FailureKind>,
    ) -> bool {
        match header {
            Ok((Some(kid), _)) => self.first_key_is_made(kid),
            _ => false,
        }
    }

    /// The verification key that carries the identifier `kid`: the one made
    /// of the first trusted key under that identifier, where its material
    /// makes one.
    pub fn get_key(&self, kid: &str) -> (key: Result<
        jsonwebtoken::DecodingKey,
        InvalidTokenError,
    >)
        ensures
            key matches Err(error) ==> refused_with(resolve(self.key_ids(), kid@), error),
            key is Ok <==> resolve(self.key_ids(), kid@) == Admission::KeyFound
                && self.first_key_is_made(kid@),
    {
        match self.find(kid) {
            Err(error) => Err(error),
            Ok(None) => Err(InvalidTokenError::UnknownSigner),
            Ok(Some(signing_key)) => self.key_of(kid, signing_key),
        }
    }

    /// The verification key made of `signing_key`, the first trusted key
    /// under `kid`.
    fn key_of(&self, kid: &str, signing_key: &SigningKey) -> (key: Result<
        jsonwebtoken::DecodingKey,
        InvalidTokenError,
    >)
        requires
            exists|i: int|
                first_match(self.key_ids(), kid@, i) && *signing_key
                    == #[trigger] self.snapshot()[i],
        ensures
            key matches Err(error) ==> error matches InvalidTokenError::Decode(failure)
                && failure.in_decoder_words(),
            key is Ok <==> self.first_key_is_made(kid@),
    {
        let key = key_or_failure(decoding_key(&signing_key.jwk));
        proof {
            let first = choose|i: int|
                first_match(self.key_ids(), kid@, i) && *signing_key
                    == #[trigger] self.snapshot()[i];
            assert forall|i: int| first_match(self.key_ids(), kid@, i) implies i == first by {
                if i < first {
                    assert(self.key_ids()[i] == Some(kid@));
                } else if first < i {
                    assert(self.key_ids()[first] == Some(kid@));
                }
            }
        }
        key
    }

    /// The trusted key that the header of `token` names, and the algorithm
    /// that the header declares.
    fn signer(&self, token: &str) -> (found: Result<(&SigningKey, String, TokenAlgorithm), InvalidTokenError>)
        ensures
            found matches Err(error) ==> admission(token_header(token@), self.key_ids())
                != Admission::KeyFound && refused_with(
                admission(token_header(token@), self.key_ids()),
                error,
            ),
            found matches Ok(signer) ==> token_header(token@) == Ok::<
                (Option<Seq<char>>, TokenAlgorithm),
                FailureKind,
            >((Some(signer.1@), signer.2)) && admission(token_header(token@), self.key_ids())
                == Admission::KeyFound && exists|i: int|
                first_match(self.key_ids(), signer.1@, i) && *signer.0
                    == #[trigger] self.snapshot()[i],
    {
        match read_header(token) {
            Err(error) => Err(reject_header(DecodeFailure::from_error(&error))),
            Ok((None, _)) => Err(InvalidTokenError::KeyIdMissing),
            Ok((Some(kid), algorithm)) => match self.find(kid.as_str()) {
                Err(error) => Err(error),
                Ok(None) => Err(InvalidTokenError::UnknownSigner),
                Ok(Some(signing_key)) => Ok((signing_key, kid, algorithm)),
            },
        }
    }

    /// The verification key that the header of `token` names: the one made
    /// of the first trusted key under the header's key identifier, where its
    /// material makes one. The algorithm that the header declares plays no
    /// part here.
    pub fn get_key_from_jwt(&self, token: &str) -> (key: Result<
        jsonwebtoken::DecodingKey,
        InvalidTokenError,
    >)
        ensures
            key matches Err(error) ==> refused_with(
                admission(token_header(token@), self.key_ids()),
                error,
            ),
            key is Ok <==> admission(token_header(token@), self.key_ids()) == Admission::KeyFound
                && self.named_key_is_made(token_header(token@)),
    {
        match self.signer(token) {
            Err(error) => Err(error),
            Ok((signing_key, kid, _)) => self.key_of(kid.as_str(), signing_key),
        }
    }

    /// What a token for `audience` is held to: this store's issuer, RS256,
    /// and all of expiry, maturity, audience and issuer, with no leeway.
    pub fn validation(&self, audience: &str) -> (policy: ValidationPolicy)
        ensures
            policy.pins(audience@, self.issuer()),
    {
        let mut required_claims: Vec<String> = Vec::new();
        required_claims.push("exp".to_owned());
        required_claims.push("nbf".to_owned());
        required_claims.push("aud".to_owned());
        required_claims.push("iss".to_owned());
        ValidationPolicy {
            algorithm: PinnedAlgorithm::Rs256,
            leeway: 0,
            validate_exp: true,
            validate_nbf: true,
            audience: audience.to_owned(),
            issuer: self.issuer.clone(),
            required_claims,
        }
    }

    /// Verifies `token` for `audience` and hands back the identity it
    /// asserts. The header is read and the key looked up first, then the
    /// declared algorithm is held against the pinned one and the key is made.
    /// A token that gets past all that is decided by the decoder, under the
    /// policy of `validation`; a payload that the decoder accepts must still
    /// name the issuer and the audience to the letter and hold the identity.
    pub fn decode(&self, token: &str, audience: &str) -> (identity: Result<
        Claims,
        InvalidTokenError,
    >)
        ensures
            identity matches Err(error) ==> refused_with(
                admission_under(token_header(token@), self.key_ids(), PinnedAlgorithm::Rs256),
                error,
            ),
            identity is Ok ==> admission_under(
                token_header(token@),
                self.key_ids(),
                PinnedAlgorithm::Rs256,
            ) == Admission::KeyFound,
            identity is Ok ==> self.named_key_is_made(token_header(token@)),
            identity is Ok ==> Claims::is_read_from(
                token_entries(token@),
                audience@,
                self.issuer(),
                identity,
            ),
    {
        let policy = self.validation(audience);
        let (signing_key, kid, algorithm) = match self.signer(token) {
            Err(error) => { return Err(error); },
            Ok(signer) => signer,
        };
        if !policy.algorithm.admits(algorithm) {
            return Err(InvalidTokenError::Decode(DecodeFailure::invalid_algorithm()));
        }
        match self.key_of(kid.as_str(), signing_key) {
            Err(error) => Err(error),
            Ok(key) => identity_or_failure(
                decode_payload(token, &key, &policy),
                audience,
                self.issuer.as_str(),
            ),
        }
    }
}

/// The verification key made from trusted key material, or the decode error
/// for material that makes none.
pub fn key_or_failure(
    made: Result<jsonwebtoken::DecodingKey, jsonwebtoken::errors::Error>,
) -> (key: Result<jsonwebtoken::DecodingKey, InvalidTokenError>)
    ensures
        match made {
            Ok(verification_key) => key == Ok::<jsonwebtoken::DecodingKey, InvalidTokenError>(
                verification_key,
            ),
            Err(refusal) => key matches Err(InvalidTokenError::Decode(failure)) && failure.is_of(
                refusal,
            ) && failure.in_decoder_words(),
        },
{
    match made {
        Ok(verification_key) => Ok(verification_key),
        Err(error) => Err(InvalidTokenError::Decode(DecodeFailure::from_error(&error))),
    }
}

/// An empty store refuses with `NoSigners` every token whose header names
/// a key, whatever else the token holds, and lets none through.
pub proof fn empty_store_refuses(
    header: Result<(Option<Seq<char>>, TokenAlgorithm), FailureKind>,
    ids: Seq<Option<Seq<char>>>,
    pinned: PinnedAlgorithm,
    error: InvalidTokenError,
)
    requires
        ids.len() == 0,
        header matches Ok((Some(_), _)),
    ensures
        admission_under(header, ids, pinned) == Admission::NoSigners,
        refused_with(admission_under(header, ids, pinned), error) <==> error
            == InvalidTokenError::NoSigners,
{
}

/// A store that trusts some key, but none under the identifier that the
/// token names, refuses the token with `UnknownSigner`, whatever algorithm
/// it declares.
pub proof fn absent_key_is_unknown_signer(
    kid: Seq<char>,
    algorithm: TokenAlgorithm,
    ids: Seq<Option<Seq<char>>>,
    pinned: PinnedAlgorithm,
    error: InvalidTokenError,
)
    requires
        ids.len() > 0,
        forall|i: int| 0 <= i < ids.len() ==> ids[i] != Some(kid),
    ensures
        admission_under(Ok((Some(kid), algorithm)), ids, pinned) == Admission::UnknownSigner,
        refused_with(admission_under(Ok((Some(kid), algorithm)), ids, pinned), error) <==> error
            == InvalidTokenError::UnknownSigner,
{
}

/// A token that declares another algorithm than the pinned one is refused
/// with a decode error that says so, as soon as its key is found: neither
/// the key nor the signature can change that.
pub proof fn other_algorithm_is_refused(
    kid: Seq<char>,
    algorithm: TokenAlgorithm,
    ids: Seq<Option<Seq<char>>>,
    pinned: PinnedAlgorithm,
    error: InvalidTokenError,
)
    requires
        has_match(ids, kid),
        algorithm != pinned.declared(),
    ensures
        admission_under(Ok((Some(kid), algorithm)), ids, pinned) == Admission::WrongAlgorithm,
        refused_with(admission_under(Ok((Some(kid), algorithm)), ids, pinned), error) ==> (
        error matches InvalidTokenError::Decode(failure) && failure.kind
            == FailureKind::InvalidAlgorithm),
{
}

/// Once a store holds `new_keys` and nothing else, as after `update_keys`,
/// only they count: an identifier among them is found, and one that only
/// the keys before carried is an unknown signer. The keys before play no
/// part. The new keys are not empty here: an empty store answers
/// `NoSigners` instead.
pub proof fn replacement_supersedes(
    before: JwkSet,
    after: JwkSet,
    new_keys: Seq<SigningKey>,
    kid: Seq<char>,
)
    requires
        after.snapshot() == new_keys,
        new_keys.len() > 0,
    ensures
        has_match(ids_of(new_keys), kid) ==> resolve(after.key_ids(), kid) == Admission::KeyFound,
        has_match(before.key_ids(), kid) && !has_match(ids_of(new_keys), kid) ==> resolve(
            after.key_ids(),
            kid,
        ) == Admission::UnknownSigner,
{
}

} // verus!
