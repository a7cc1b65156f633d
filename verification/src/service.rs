use vstd::prelude::*;

use crate::errors::TokenServiceError;
use crate::exchange::ExchangeOutcome;
use crate::token::AccessToken;
use crate::token::TokenInfo;
use crate::token::TokenServiceConfig;

verus! {

/// A connector to the identity service that renews its token lazily once
/// its declared lifetime has passed.
///
/// It owns one cache slot, empty before the first successful exchange. A
/// caller drives one query in two steps: ask [`TokenService::cached_token`]
/// whether the slot still serves, and only if it does not, perform one
/// exchange and fold its outcome in with [`TokenService::apply_exchange`].
/// Exclusive access held across both steps — `&mut self`, or one lock held
/// over the whole query including the exchange — is what makes renewal
/// single-flight: of N concurrent callers that find the slot empty or stale,
/// one performs the exchange and the rest share its outcome.
pub struct TokenService {
    config: TokenServiceConfig,
    token_info: Option<TokenInfo>,
}

impl TokenService {
    /// The connection parameters, fixed at construction.
    pub closed spec fn spec_config(&self) -> TokenServiceConfig {
        self.config
    }

    /// The cache slot: absent before the first successful exchange.
    pub closed spec fn spec_token_info(&self) -> Option<TokenInfo> {
        self.token_info
    }

    /// The slot holds an entry that is still valid at `now`. The states
    /// `Empty` (no entry) and `Stale` (an entry whose expiry is at or
    /// before `now`) both call for a new exchange.
    pub open spec fn spec_is_fresh(&self, now: u64) -> bool {
        self.spec_token_info() matches Some(info) && now < info.expires_at
    }

    /// What a query at `now` is owed from the cache alone: the stored
    /// token while the entry is fresh, nothing otherwise.
    pub open spec fn spec_cached_token(&self, now: u64) -> Option<Seq<char>> {
        if self.spec_is_fresh(now) {
            Some(self.spec_token_info()->Some_0.access_token@)
        } else {
            None
        }
    }

    /// An exchange outcome that replaces the slot: a well-formed response
    /// whose server declared a duration. Every other outcome leaves the
    /// slot untouched.
    pub open spec fn spec_outcome_stores(outcome: ExchangeOutcome) -> bool {
        outcome matches ExchangeOutcome::Response { expires_in: Some(_), .. }
    }

    /// A service with an empty slot: the first query pays the login cost.
    /// Construction is lazy on purpose; there is no eager-login variant.
    pub fn new(config: TokenServiceConfig) -> (s: Self)
        ensures
            s.spec_config() == config,
            s.spec_token_info() is None,
    {
        TokenService { config, token_info: None }
    }

    /// The connection parameters, for the caller that performs the exchange.
    pub fn config(&self) -> (c: &TokenServiceConfig)
        ensures
            *c == self.spec_config(),
    {
        &self.config
    }

    /// Serves a query at time `now` from the cache alone.
    ///
    /// Returns the stored token exactly when the slot holds an entry whose
    /// expiry lies strictly after `now` — then no exchange is called for.
    /// Returns `None` when the slot is empty or stale; the caller then
    /// performs one exchange and folds its outcome in with
    /// [`Self::apply_exchange`].
    pub fn cached_token(&self, now: u64) -> (r: Option<AccessToken>)
        ensures
            r is Some <==> self.spec_is_fresh(now),
            r matches Some(t) ==> self.spec_cached_token(now) == Some(t@),
    {
        match &self.token_info {
            Some(info) => {
                if now < info.expires_at {
                    Some(info.access_token.clone())
                } else {
                    None
                }
            },
            None => None,
        }
    }

    /// Folds the outcome of one exchange, performed at time `now`, into the
    /// cache and answers the query that triggered it.
    ///
    /// A response carrying a declared duration replaces the slot wholesale
    /// with an entry that expires at `now + expires_in`, and returns that
    /// entry's token. Every other outcome fails the call and leaves the slot
    /// exactly as it was — a stored entry, even an already expired one, is
    /// never cleared by a failure. A response without a duration is rejected
    /// rather than cached with an assumed lifetime; a transport failure
    /// surfaces as `NetworkError`; an error-shaped server response, or one
    /// the protocol library did not recognize, as `TokenError`.
    pub fn apply_exchange(&mut self, now: u64, outcome: ExchangeOutcome) -> (r: Result<
        AccessToken,
        TokenServiceError,
    >)
        requires
            outcome matches ExchangeOutcome::Response { expires_in: Some(d), .. } ==> now + d
                <= u64::MAX,
        ensures
            final(self).spec_config() == old(self).spec_config(),
            !Self::spec_outcome_stores(outcome) ==> {
                &&& final(self).spec_token_info() == old(self).spec_token_info()
                &&& r is Err
            },
            outcome matches ExchangeOutcome::Response { access_token, expires_in: Some(d) } ==> {
                &&& final(self).spec_token_info() matches Some(info) && info.access_token@
                    == access_token@ && info.expires_at == now + d
                &&& r matches Ok(t) && t@ == access_token@
            },
            outcome matches ExchangeOutcome::Response { expires_in: None, .. } ==> (r matches Err(e)
                && e matches TokenServiceError::TokenError(m) && m@ == "Token has no duration"@),
            outcome matches ExchangeOutcome::TransportFailure(msg) ==> (r matches Err(e)
                && e matches TokenServiceError::NetworkError(m) && m@ == msg@),
            outcome matches ExchangeOutcome::ServerRejection(msg) ==> (r matches Err(e)
                && e matches TokenServiceError::TokenError(m) && m@ == msg@),
            outcome matches ExchangeOutcome::UnrecognizedFailure ==> (r matches Err(e)
                && e matches TokenServiceError::TokenError(m) && m@ == "Unexpected error"@),
    {
        match outcome {
            ExchangeOutcome::Response { access_token, expires_in } => {
                match expires_in {
                    Some(duration) => {
                        let token = AccessToken::new(access_token);
                        let returned = token.clone();
                        let info = TokenInfo { access_token: token, expires_at: now + duration };
                        self.token_info = Some(info);
                        Ok(returned)
                    },
                    None => Err(
                        TokenServiceError::TokenError("Token has no duration".to_owned()),
                    ),
                }
            },
            ExchangeOutcome::TransportFailure(message) => Err(
                TokenServiceError::NetworkError(message),
            ),
            ExchangeOutcome::ServerRejection(message) => Err(
                TokenServiceError::TokenError(message),
            ),
            ExchangeOutcome::UnrecognizedFailure => Err(
                TokenServiceError::TokenError("Unexpected error".to_owned()),
            ),
        }
    }

    /// For every query time strictly before the stored entry's expiry, the
    /// cache serves that very entry's token, so no exchange is called for.
    pub proof fn lemma_fresh_entry_serves_cache(self, t: u64)
        requires
            self.spec_token_info() matches Some(info) && t < info.expires_at,
        ensures
            self.spec_cached_token(t) == Some(self.spec_token_info()->Some_0.access_token@),
    {
    }

    /// An entry stored by an exchange that declared a lifetime of zero
    /// seconds expires at the very moment it was stored, so every query at
    /// or after that moment finds the slot stale and performs a new
    /// exchange.
    pub proof fn lemma_zero_duration_forces_next_exchange(self, stored_at: u64, later: u64)
        requires
            self.spec_token_info() matches Some(info) && info.expires_at <= stored_at,
            stored_at <= later,
        ensures
            !self.spec_is_fresh(later),
            self.spec_cached_token(later) is None,
    {
    }

    /// Callers served from one stored entry all receive the same token: the
    /// cached answer depends on the slot alone, not on the query time, so
    /// the waiters that suspended while a single exchange ran all resolve
    /// to that exchange's token.
    pub proof fn lemma_waiters_share_one_token(self, t1: u64, t2: u64)
        requires
            self.spec_is_fresh(t1),
            self.spec_is_fresh(t2),
        ensures
            self.spec_cached_token(t1) == self.spec_cached_token(t2),
    {
    }
}

} // verus!
