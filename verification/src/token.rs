use vstd::prelude::*;

verus! {

/// An opaque bearer-token secret.
///
/// The only thing a caller can observe of it is the secret string itself,
/// through [`AccessToken::secret`]; the type deliberately offers no equality,
/// ordering or formatting, so the secret cannot leak through a rendered
/// error message or a log line.
pub struct AccessToken {
    secret: String,
}

impl View for AccessToken {
    type V = Seq<char>;

    closed spec fn view(&self) -> Seq<char> {
        self.secret@
    }
}

impl AccessToken {
    /// Wraps a secret string handed back by the identity service.
    pub fn new(secret: String) -> (t: AccessToken)
        ensures
            t@ == secret@,
    {
        AccessToken { secret }
    }

    /// The secret value, for the caller to place in its own
    /// `Authorization: Bearer <token>` header.
    pub fn secret(&self) -> (s: &String)
        ensures
            s@ == self@,
    {
        &self.secret
    }
}

impl Clone for AccessToken {
    fn clone(&self) -> (t: Self)
        ensures
            t@ == self@,
    {
        AccessToken { secret: self.secret.clone() }
    }
}

/// One cache entry: a token together with the absolute time it expires.
///
/// The expiry is kept as whole seconds since the Unix epoch. An entry is
/// created only by a successful exchange, always with
/// `expires_at == acquisition time + server-declared duration`, and is only
/// ever replaced wholesale, never mutated field by field.
pub struct TokenInfo {
    pub access_token: AccessToken,
    pub expires_at: u64,
}

impl Clone for TokenInfo {
    fn clone(&self) -> (t: Self)
        ensures
            t.access_token@ == self.access_token@,
            t.expires_at == self.expires_at,
    {
        TokenInfo { access_token: self.access_token.clone(), expires_at: self.expires_at }
    }
}

/// Immutable connection parameters for the identity service, owned by the
/// service for its entire lifetime and never mutated after construction.
pub struct TokenServiceConfig {
    pub identity_service_base_url: String,
    pub username: String,
    pub token: String,
    pub client_id: String,
}

impl Clone for TokenServiceConfig {
    fn clone(&self) -> (c: Self)
        ensures
            c == *self,
    {
        TokenServiceConfig {
            identity_service_base_url: self.identity_service_base_url.clone(),
            username: self.username.clone(),
            token: self.token.clone(),
            client_id: self.client_id.clone(),
        }
    }
}

} // verus!
