//! A client-side access-token manager for the OAuth2 client-credentials
//! grant: it caches the token obtained from the identity service and renews
//! it lazily once its declared lifetime has passed.
//!
//! The crate holds the token lifecycle itself — the cache slot, staleness
//! detection, the expiry arithmetic, the client-secret scheme and the error
//! taxonomy. The wire exchange is an external collaborator: the caller
//! performs it and hands its outcome back as an [`exchange::ExchangeOutcome`].

pub mod errors;
pub mod exchange;
pub mod service;
pub mod token;

pub use errors::TokenServiceError;
pub use exchange::ExchangeOutcome;
pub use service::TokenService;
pub use token::AccessToken;
pub use token::TokenInfo;
pub use token::TokenServiceConfig;
