use vstd::prelude::*;

verus! {

/// What the base64 crate's url-safe, padded engine makes of a string's
/// bytes. The encoding is a function of the input alone; nothing here states
/// what it is on given values, only the trusted wrapper below applies it.
pub uninterp spec fn base64url_of(s: Seq<char>) -> Seq<char>;

/// Relies on base64's `Engine::encode` with the
/// `engine::general_purpose::URL_SAFE` engine: the result depends on the
/// input bytes alone. The length bound keeps the engine's buffer-size
/// arithmetic, which panics on overflow, far from its limit.
#[verifier::external_body]
fn base64url_encode(s: &str) -> (r: String)
    requires
        s@.len() < 0x1000_0000_0000_0000,
    ensures
        r@ == base64url_of(s@),
{
    base64::Engine::encode(&base64::engine::general_purpose::URL_SAFE, s)
}

/// The plain text that the client secret encodes: `username ":" shared_secret`.
pub open spec fn client_secret_plain(username: Seq<char>, token: Seq<char>) -> Seq<char> {
    username + seq![':'] + token
}

/// The grant's client secret, submitted through request-body authentication:
/// `base64url(username ":" shared_secret)`.
///
/// This is a concatenation scheme, not encryption; confidentiality rests
/// entirely on the transport between this client and the identity service.
pub fn build_client_secret(username: &str, token: &str) -> (r: String)
    requires
        username@.len() + token@.len() + 1 < 0x1000_0000_0000_0000,
    ensures
        r@ == base64url_of(client_secret_plain(username@, token@)),
{
    let mut plain: String = username.to_owned();
    plain.append(":");
    plain.append(token);
    proof {
        reveal_strlit(":");
        assert(plain@ =~= client_secret_plain(username@, token@));
    }
    base64url_encode(plain.as_str())
}

/// The authorization endpoint, `POST {base_url}/authorize/`.
pub fn authorize_url(base_url: &str) -> (r: String)
    ensures
        r@ == base_url@ + "/authorize/"@,
{
    let mut url: String = base_url.to_owned();
    url.append("/authorize/");
    url
}

/// The token endpoint, `POST {base_url}/token/`, which answers the
/// client-credentials grant.
pub fn token_url(base_url: &str) -> (r: String)
    ensures
        r@ == base_url@ + "/token/"@,
{
    let mut url: String = base_url.to_owned();
    url.append("/token/");
    url
}

/// The normalized outcome of one client-credentials exchange, as observed
/// by the caller that performed it. One request in, one outcome out; no
/// retry at this layer.
pub enum ExchangeOutcome {
    /// A well-formed token response: the bearer secret and, if the server
    /// declared one, the token's validity in whole seconds.
    Response { access_token: String, expires_in: Option<u64> },
    /// A transport-level failure reaching either endpoint.
    TransportFailure(String),
    /// The server answered with an error-shaped response; the message is
    /// its rendering.
    ServerRejection(String),
    /// An error shape the underlying protocol library did not recognize.
    UnrecognizedFailure,
}

} // verus!
