//! Catalog credentials: the cached access token and its refresh decisions.
//!
//! The catalog service hands out short-lived access tokens. The manager
//! caches one and answers, for any clock reading, whether the cached token
//! may still be used or a fresh one must be fetched; the fetch itself is the
//! runtime's work, and its outcome is handed back in. Time is carried as
//! milliseconds of the runtime's monotonic clock.
use vstd::prelude::*;

verus! {

/// What base64 encoding of the standard alphabet makes of a string: a pure
/// function of the input.
pub uninterp spec fn base64_of(s: Seq<char>) -> Seq<char>;

/// Relies on base64's `Engine::encode` with the `STANDARD` engine: the
/// encoding is a pure function of the input bytes, and of an empty input it
/// is empty. The length bound keeps the engine's buffer-size calculation
/// within `usize`.
#[verifier::external_body]
fn base64_encode(s: &str) -> (r: String)
    requires
        s@.len() <= usize::MAX / 8,
    ensures
        r@ == base64_of(s@),
        s@.len() == 0 ==> r@.len() == 0,
{
    base64::Engine::encode(&base64::engine::general_purpose::STANDARD, s.as_bytes())
}

/// An access token with the clock reading at which it stops being usable.
pub struct SpotifyToken {
    pub access_token: String,
    pub expired_at: u64,
}

impl SpotifyToken {
    /// Whether the token has expired by the clock reading `now`.
    pub fn is_expired(&self, now: u64) -> (r: bool)
        ensures
            r == (now >= self.expired_at),
    {
        now >= self.expired_at
    }
}

/// The cache for the catalog access token.
pub struct SpotifyTokenManager {
    token: Option<SpotifyToken>,
}

impl SpotifyTokenManager {
    /// The cached token, if any.
    pub closed spec fn spec_token(self) -> Option<SpotifyToken> {
        self.token
    }

    pub fn new() -> (s: Self)
        ensures
            s.spec_token() is None,
    {
        Self { token: None }
    }

    /// The cached token's value, provided it is still fresh at `now`;
    /// `None` exactly when no token is cached or the cached one has expired,
    /// so that the caller must fetch a fresh one and store it.
    pub fn cached_token(&self, now: u64) -> (r: Option<String>)
        ensures
            self.spec_token() is Some && now < self.spec_token()->0.expired_at ==> (r matches Some(
                x,
            ) && x@ == self.spec_token()->0.access_token@),
            self.spec_token() is None || now >= self.spec_token()->0.expired_at ==> r is None,
    {
        match &self.token {
            Some(t) => {
                if !t.is_expired(now) {
                    Some(t.access_token.clone())
                } else {
                    None
                }
            },
            None => None,
        }
    }

    /// Caches a freshly fetched token, replacing whatever was cached.
    pub fn store_token(&mut self, token: SpotifyToken)
        ensures
            final(self).spec_token() == Some(token),
    {
        self.token = Some(token);
    }
}

/// The expiry clock reading for a token that lives `expires_in` seconds from
/// `now`, saturating at the numeric limit.
pub open spec fn spec_expiry(now: int, expires_in: int) -> int {
    let ms = if expires_in * 1000 <= u64::MAX {
        expires_in * 1000
    } else {
        u64::MAX as int
    };
    if now + ms <= u64::MAX {
        now + ms
    } else {
        u64::MAX as int
    }
}

/// A token built from the credential service's response: the granted access
/// token and its lifetime in seconds, anchored at the clock reading `now`.
pub fn token_from_response(access_token: String, expires_in: u64, now: u64) -> (t: SpotifyToken)
    ensures
        t.access_token == access_token,
        t.expired_at as int == spec_expiry(now as int, expires_in as int),
{
    let ms = match expires_in.checked_mul(1000) {
        Some(v) => v,
        None => u64::MAX,
    };
    let expired_at = now.saturating_add(ms);
    SpotifyToken { access_token, expired_at }
}

/// The authorization header value for the credential request: the client id
/// and secret joined by a colon, base64-encoded, after the basic-auth
/// marker.
pub fn basic_auth_value(client_id: &str, client_secret: &str) -> (r: String)
    requires
        client_id@.len() + client_secret@.len() + 1 <= usize::MAX / 8,
    ensures
        r@ == "Basic "@ + base64_of(client_id@ + ":"@ + client_secret@),
{
    let mut cred = String::from_str(client_id);
    cred.append(":");
    cred.append(client_secret);
    proof {
        reveal_strlit(":");
    }
    let encoded = base64_encode(cred.as_str());
    let mut r = String::from_str("Basic ");
    r.append(encoded.as_str());
    r
}

} // verus!
