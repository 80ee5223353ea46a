//! The schedule that keeps the key store fresh: what each fetch does to the
//! store, and how long to wait for the next one.

use crate::jwks::{JwkSet, SigningKey};
use axum::headers::Header;
use vstd::prelude::*;

verus! {

#[verifier::external_type_specification]
#[verifier::external_body]
#[verifier::reject_recursive_types(T)]
pub struct ExHeaderMap<T>(axum::http::HeaderMap<T>);

#[verifier::external_type_specification]
#[verifier::external_body]
pub struct ExHeaderValue(axum::http::HeaderValue);

/// Seconds to wait after a fetch that names no lifetime: ten minutes.
pub const DEFAULT_JWK_TTL_SECS: u64 = 600;

/// Seconds to wait after a fetch that failed.
pub const DEFAULT_JWK_RETRY_SECS: u64 = 6;

/// The lifetime that the `Cache-Control` values among `headers` name: the
/// whole seconds of their `max-age`, as `axum::headers::CacheControl` decodes
/// them; `None` where they do not decode or name none.
pub uninterp spec fn cache_max_age(headers: axum::http::HeaderMap) -> Option<u64>;

/// `HeaderMap::get_all` for `Cache-Control`, `axum::headers::CacheControl`'s
/// `decode` on those values, then `max_age` in whole seconds. Trusted: the
/// outcome is what `cache_max_age` names, which depends on the headers
/// alone.
#[verifier::external_body]
fn max_age_secs(headers: &axum::http::HeaderMap) -> (secs: Option<u64>)
    ensures
        secs == cache_max_age(*headers),
{
    let values = headers.get_all(axum::http::header::CACHE_CONTROL);
    let decoded = axum::headers::CacheControl::decode(&mut values.iter());
    decoded.ok().and_then(|cache_control| cache_control.max_age()).map(|age| age.as_secs())
}

/// How one attempt to fetch the key set ended.
#[derive(Debug)]
pub enum FetchOutcome {
    /// No answer, an answer that is no success, or a body that is no key set.
    Failed,
    /// The published keys, and the lifetime that the answer gave them.
    Fetched { max_age: Option<u64>, keys: Vec<SigningKey> },
}

impl FetchOutcome {
    /// Whether `status` is an HTTP status of success.
    pub open spec fn is_success(status: u16) -> bool {
        200 <= status < 300
    }

    /// The outcome of a fetch that was answered with `status`, a lifetime of
    /// `max_age` seconds if the answer named one, and `keys` if its body was a
    /// key set: it is a success only with a status of success and a key set.
    pub open spec fn classified(
        status: u16,
        max_age: Option<u64>,
        keys: Option<Vec<SigningKey>>,
    ) -> FetchOutcome {
        match keys {
            Some(brought) if Self::is_success(status) => FetchOutcome::Fetched {
                max_age,
                keys: brought,
            },
            _ => FetchOutcome::Failed,
        }
    }

    /// The outcome of a fetch that was answered with `status`, a lifetime of
    /// `max_age` seconds if the answer named one, and `keys` if its body was a
    /// key set.
    pub fn classify(status: u16, max_age: Option<u64>, keys: Option<Vec<SigningKey>>) -> (outcome:
        FetchOutcome)
        ensures
            outcome == Self::classified(status, max_age, keys),
    {
        match keys {
            Some(brought) if 200 <= status && status < 300 => FetchOutcome::Fetched {
                max_age,
                keys: brought,
            },
            _ => FetchOutcome::Failed,
        }
    }

    /// The outcome of a fetch that was answered with `status` and `headers`,
    /// and with `keys` if its body was a key set. The lifetime is the
    /// `max-age` of the answer's `Cache-Control`.
    pub fn from_response(
        status: u16,
        headers: &axum::http::HeaderMap,
        keys: Option<Vec<SigningKey>>,
    ) -> (outcome: FetchOutcome)
        ensures
            outcome == Self::classified(status, cache_max_age(*headers), keys),
    {
        FetchOutcome::classify(status, max_age_secs(headers), keys)
    }
}

/// The seconds to wait after a fetch that ended in `outcome`: the lifetime
/// that a successful answer names, ten minutes where it names none, and six
/// seconds after a failure, however long the wait before was.
pub open spec fn wait_after(outcome: FetchOutcome) -> u64 {
    match outcome {
        FetchOutcome::Failed => DEFAULT_JWK_RETRY_SECS,
        FetchOutcome::Fetched { max_age: Some(secs), .. } => secs,
        FetchOutcome::Fetched { max_age: None, .. } => DEFAULT_JWK_TTL_SECS,
    }
}

/// The keys that are trusted after a fetch that ended in `outcome`, where
/// `trusted` were before: a failure leaves them, a success replaces them
/// all, by no keys too.
pub open spec fn trusted_after(trusted: Seq<SigningKey>, outcome: FetchOutcome) -> Seq<
    SigningKey,
> {
    match outcome {
        FetchOutcome::Failed => trusted,
        FetchOutcome::Fetched { keys, .. } => keys@,
    }
}

/// The poller's own state: the wait before the next fetch, and how the last
/// fetch ended.
#[derive(Debug)]
pub struct Poll {
    jwk_ttl: u64,
    last_fetch: Option<bool>,
}

impl Poll {
    /// The seconds to wait before the next fetch.
    pub closed spec fn ttl(&self) -> u64 {
        self.jwk_ttl
    }

    /// Whether the last fetch succeeded; `None` before the first.
    pub closed spec fn last(&self) -> Option<bool> {
        self.last_fetch
    }

    /// A poller that fetches at once.
    pub fn new() -> (poll: Poll)
        ensures
            poll.ttl() == 0,
            poll.last() == None::<bool>,
    {
        Poll { jwk_ttl: 0, last_fetch: None }
    }

    /// Whether the last fetch succeeded; `None` before the first.
    pub fn last_fetch_succeeded(&self) -> (last: Option<bool>)
        ensures
            last == self.last(),
    {
        self.last_fetch
    }

    /// The seconds to wait before the next fetch.
    pub fn jwk_ttl(&self) -> (secs: u64)
        ensures
            secs == self.ttl(),
    {
        self.jwk_ttl
    }

    /// Sets the wait from the lifetime that a successful answer named.
    pub fn set_ttl(&mut self, max_age: Option<u64>)
        ensures
            max_age matches Some(secs) ==> final(self).ttl() == secs,
            max_age is None ==> final(self).ttl() == DEFAULT_JWK_TTL_SECS,
            final(self).last() == old(self).last(),
    {
        self.jwk_ttl =
        match max_age {
            Some(secs) => secs,
            None => DEFAULT_JWK_TTL_SECS,
        };
    }

    /// Takes in the outcome of one fetch. A failure touches nothing in the
    /// store and schedules the retry; a success replaces every trusted key
    /// and schedules the next fetch by the lifetime named.
    pub fn update(&mut self, jwks: &mut JwkSet, outcome: FetchOutcome)
        ensures
            final(self).ttl() == wait_after(outcome),
            final(self).last() == Some(outcome is Fetched),
            final(jwks).snapshot() == trusted_after(old(jwks).snapshot(), outcome),
            final(jwks).issuer() == old(jwks).issuer(),
            outcome is Failed ==> *final(jwks) == *old(jwks),
    {
        match outcome {
            FetchOutcome::Failed => {
                self.jwk_ttl = DEFAULT_JWK_RETRY_SECS;
                self.last_fetch = Some(false);
            },
            FetchOutcome::Fetched { max_age, keys } => {
                self.set_ttl(max_age);
                self.last_fetch = Some(true);
                jwks.update_keys(keys);
            },
        }
    }
}

/// The keys that are trusted after the fetches that ended in `outcomes`, one
/// after the other, where `trusted` were before the first.
pub open spec fn trusted_after_all(trusted: Seq<SigningKey>, outcomes: Seq<FetchOutcome>) -> Seq<
    SigningKey,
>
    decreases outcomes.len(),
{
    if outcomes.len() == 0 {
        trusted
    } else {
        trusted_after(trusted_after_all(trusted, outcomes.drop_last()), outcomes.last())
    }
}

/// Failed fetches never take trust away: however many fail in a row, the
/// keys of the last successful fetch stay the trusted ones.
pub proof fn failed_fetches_keep_keys(trusted: Seq<SigningKey>, outcomes: Seq<FetchOutcome>)
    requires
        forall|i: int| 0 <= i < outcomes.len() ==> #[trigger] outcomes[i] is Failed,
    ensures
        trusted_after_all(trusted, outcomes) == trusted,
    decreases outcomes.len(),
{
    if outcomes.len() > 0 {
        failed_fetches_keep_keys(trusted, outcomes.drop_last());
        assert(outcomes.last() is Failed);
    }
}

/// After a successful fetch the keys it brought are the trusted ones,
/// whatever was trusted before and whatever failed since.
pub proof fn last_success_decides(
    trusted: Seq<SigningKey>,
    max_age: Option<u64>,
    keys: Vec<SigningKey>,
    failures: Seq<FetchOutcome>,
)
    requires
        forall|i: int| 0 <= i < failures.len() ==> #[trigger] failures[i] is Failed,
    ensures
        trusted_after_all(
            trusted_after(trusted, FetchOutcome::Fetched { max_age, keys }),
            failures,
        ) == keys@,
{
    failed_fetches_keep_keys(
        trusted_after(trusted, FetchOutcome::Fetched { max_age, keys }),
        failures,
    );
}

} // verus!
