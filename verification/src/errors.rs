use vstd::prelude::*;

verus! {

/// The two failure kinds a caller can see.
///
/// A transport-level failure reaching the identity service is a
/// `NetworkError`; every protocol-level failure — an error-shaped server
/// response, or a well-formed response missing a required field — is a
/// `TokenError`. The diagnostic message never contains the shared secret
/// or a token value.
#[derive(Debug)]
pub enum TokenServiceError {
    TokenError(String),
    NetworkError(String),
}

impl TokenServiceError {
    /// The human-diagnostic message carried by either kind.
    pub fn message(&self) -> (m: &String)
        ensures
            self matches TokenServiceError::TokenError(s) ==> m@ == s@,
            self matches TokenServiceError::NetworkError(s) ==> m@ == s@,
    {
        match self {
            TokenServiceError::TokenError(m) => m,
            TokenServiceError::NetworkError(m) => m,
        }
    }
}

} // verus!
