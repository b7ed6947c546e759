//! OAuth: the configuration, the token cache that the client reads before each
//! call and refreshes in the background, and the authorization metadata of a call.
use vstd::prelude::*;
use crate::time::Duration;

verus! {

/// Seconds between two checks whether the token needs a refresh.
pub const OAUTH_REFRESH_INTERVAL_SEC: u64 = 10;

/// Seconds before its expiry at which a token counts as expired.
pub const OAUTH_REFRESH_MARGIN_SEC: u64 = 15;

/// The credentials and endpoint of the OAuth client-credentials flow.
#[derive(Debug)]
pub struct OAuthConfig {
    pub client_id: String,
    pub client_secret: String,
    pub auth_url: String,
    pub audience: String,
}

impl Clone for OAuthConfig {
    /// A configuration of the same credentials, endpoint and audience.
    fn clone(&self) -> (c: Self)
        ensures
            c == *self,
    {
        OAuthConfig {
            client_id: self.client_id.clone(),
            client_secret: self.client_secret.clone(),
            auth_url: self.auth_url.clone(),
            audience: self.audience.clone(),
        }
    }
}

impl OAuthConfig {
    /// A configuration of the given credentials, token endpoint and audience.
    pub fn new(client_id: String, client_secret: String, auth_url: String, audience: String) -> (c:
        Self)
        ensures
            c == (OAuthConfig { client_id, client_secret, auth_url, audience }),
    {
        OAuthConfig { client_id, client_secret, auth_url, audience }
    }
}

/// Errors of OAuth.
#[derive(Debug)]
pub enum OAuthError {
    /// The lock of the token could not be taken.
    LockUnavailable(String),
    /// The token request failed; the message says why.
    Request(String),
    /// The token request timed out.
    Timeout(tokio::time::error::Elapsed),
    /// No token has been fetched yet.
    TokenUnavailable,
}

/// The text that describes an OAuth error.
pub open spec fn oauth_error_text(e: OAuthError) -> Seq<char> {
    match e {
        OAuthError::LockUnavailable(_) => "failed to acquire token lock"@,
        OAuthError::Request(_) => "failed request"@,
        OAuthError::Timeout(_) => "timeout"@,
        OAuthError::TokenUnavailable => "token unavailable"@,
    }
}

impl OAuthError {
    /// The text that describes this error.
    pub fn message(&self) -> (s: String)
        ensures
            s@ == oauth_error_text(*self),
    {
        match self {
            OAuthError::LockUnavailable(_) => String::from_str("failed to acquire token lock"),
            OAuthError::Request(_) => String::from_str("failed request"),
            OAuthError::Timeout(_) => String::from_str("timeout"),
            OAuthError::TokenUnavailable => String::from_str("token unavailable"),
        }
    }
}

/// Nanoseconds in one second, as an integer of the width of a point in time.
pub const NANOS_PER_SEC_I128: i128 = 1_000_000_000;

/// A point in time that the system clock can show: nanoseconds since the UNIX
/// epoch, whole seconds fitting in an `i64`.
pub open spec fn is_system_time(t: int) -> bool {
    (i64::MIN as int) * 1_000_000_000 <= t < ((i64::MAX as int) + 1) * 1_000_000_000
}

/// When a token that was granted at `now` for `expires_in` counts as expired: the
/// margin before the end of its lifetime; no lifetime counts as none.
pub open spec fn token_expiry(now: int, expires_in: Option<Duration>) -> int {
    now + (match expires_in {
        Some(d) => d.total_nanos() as int,
        None => 0,
    }) - (OAUTH_REFRESH_MARGIN_SEC as int) * 1_000_000_000
}

/// A cached token: its secret and the point in time at which it counts as expired.
pub struct CachedTokenView {
    pub secret: Seq<char>,
    pub expire_at: int,
}

/// Whether a cache holds no token or one that has expired at `now`.
pub open spec fn cache_expired(cache: Option<CachedTokenView>, now: int) -> bool {
    match cache {
        Some(t) => t.expire_at <= now,
        None => true,
    }
}

/// The secret that a read of the cache gives, if any.
pub open spec fn cache_read(cache: Option<CachedTokenView>) -> Option<Seq<char>> {
    match cache {
        Some(t) => Some(t.secret),
        None => None,
    }
}

#[derive(Clone, Debug)]
struct CachedToken {
    secret: String,
    expire_at: i128,
}

/// The access token that a token request granted, and its lifetime if the
/// response told it.
#[derive(Clone, Debug)]
pub struct TokenGrant {
    pub access_token: String,
    pub expires_in: Option<Duration>,
}

/// The token that the client holds: none before the first grant, then the latest.
#[derive(Clone, Debug)]
pub struct TokenCache {
    cached: Option<CachedToken>,
}

impl View for TokenCache {
    type V = Option<CachedTokenView>;

    closed spec fn view(&self) -> Option<CachedTokenView> {
        match self.cached {
            Some(t) => Some(CachedTokenView { secret: t.secret@, expire_at: t.expire_at as int }),
            None => None,
        }
    }
}

/// The cache after a token request ended with `outcome` at `now`: a grant replaces
/// the token; a failure leaves the cache as it was.
pub open spec fn cache_after_refresh(
    cache: Option<CachedTokenView>,
    outcome: Result<Result<TokenGrant, String>, tokio::time::error::Elapsed>,
    now: int,
) -> Option<CachedTokenView> {
    match outcome {
        Ok(Ok(grant)) => Some(
            CachedTokenView {
                secret: grant.access_token@,
                expire_at: token_expiry(now, grant.expires_in),
            },
        ),
        _ => cache,
    }
}

/// A token that a refresh was granted is what the next read gives, and it counts
/// as expired exactly from the margin before the end of its lifetime on.
pub proof fn granted_token_is_read(
    cache: Option<CachedTokenView>,
    grant: TokenGrant,
    now: int,
    later: int,
)
    ensures
        cache_read(cache_after_refresh(cache, Ok(Ok(grant)), now)) == Some(grant.access_token@),
        cache_expired(cache_after_refresh(cache, Ok(Ok(grant)), now), later) <==> later
            >= token_expiry(now, grant.expires_in),
{
}

/// A refresh that failed or timed out leaves the token as it was: reads give what
/// they gave before, and it expires when it did.
pub proof fn failed_refresh_keeps_token(
    cache: Option<CachedTokenView>,
    outcome: Result<Result<TokenGrant, String>, tokio::time::error::Elapsed>,
    now: int,
    later: int,
)
    requires
        !(outcome matches Ok(Ok(_))),
    ensures
        cache_read(cache_after_refresh(cache, outcome, now)) == cache_read(cache),
        cache_expired(cache_after_refresh(cache, outcome, now), later) == cache_expired(
            cache,
            later,
        ),
{
}

impl TokenCache {
    /// A cache without a token.
    pub fn new() -> (c: TokenCache)
        ensures
            c@ is None,
    {
        TokenCache { cached: None }
    }

    /// The secret of the token, or `TokenUnavailable` before the first grant.
    pub fn read_token(&self) -> (r: Result<String, OAuthError>)
        ensures
            match cache_read(self@) {
                Some(secret) => r matches Ok(s) && s@ == secret,
                None => r matches Err(OAuthError::TokenUnavailable),
            },
    {
        match &self.cached {
            Some(token) => Ok(token.secret.clone()),
            None => Err(OAuthError::TokenUnavailable),
        }
    }

    /// Whether the cache holds no token, or one whose expiry is at or before `now`.
    pub fn cached_token_is_expired(&self, now: i128) -> (expired: bool)
        ensures
            expired == cache_expired(self@, now as int),
    {
        match &self.cached {
            Some(token) => token.expire_at <= now,
            None => true,
        }
    }

    /// Takes in the end of a token request made at `now`: a grant replaces the token,
    /// its expiry the margin before the end of its lifetime; an error of the request
    /// or its timeout leaves the cache unchanged and is returned.
    pub fn complete_refresh(
        &mut self,
        outcome: Result<Result<TokenGrant, String>, tokio::time::error::Elapsed>,
        now: i128,
    ) -> (r: Result<(), OAuthError>)
        requires
            is_system_time(now as int),
            outcome matches Ok(Ok(grant)) ==> is_system_time(
                now + match grant.expires_in {
                    Some(d) => d.total_nanos() as int,
                    None => 0,
                },
            ) && is_system_time(token_expiry(now as int, grant.expires_in)),
        ensures
            final(self)@ == cache_after_refresh(old(self)@, outcome, now as int),
            match outcome {
                Ok(Ok(_)) => r is Ok,
                Ok(Err(message)) => r matches Err(OAuthError::Request(m)) && m == message,
                Err(elapsed) => r matches Err(OAuthError::Timeout(e)) && e == elapsed,
            },
    {
        match outcome {
            Ok(Ok(grant)) => {
                let lifetime: i128 = match &grant.expires_in {
                    Some(d) => nanos_of(d),
                    None => 0,
                };
                let expire_at = now + lifetime - (OAUTH_REFRESH_MARGIN_SEC as i128) * NANOS_PER_SEC_I128;
                self.cached = Some(CachedToken { secret: grant.access_token, expire_at });
                Ok(())
            },
            Ok(Err(message)) => Err(OAuthError::Request(message)),
            Err(elapsed) => Err(OAuthError::Timeout(elapsed)),
        }
    }
}

/// The length of a span in nanoseconds.
fn nanos_of(d: &Duration) -> (n: i128)
    ensures
        n == d.total_nanos(),
{
    let secs = d.as_secs() as i128;
    let sub = d.subsec_nanos() as i128;
    assert(secs * NANOS_PER_SEC_I128 <= (u64::MAX as i128) * 1_000_000_000) by (nonlinear_arith)
        requires 0 <= secs <= u64::MAX;
    secs * NANOS_PER_SEC_I128 + sub
}

/// The value of the authorization metadata that carries a token.
pub open spec fn bearer(token: Seq<char>) -> Seq<char> {
    "Bearer "@ + token
}

/// The message with which a call is refused when the token cannot be read.
pub open spec fn token_failure_text(e: OAuthError) -> Seq<char> {
    "failed to get token: "@ + oauth_error_text(e)
}

/// The message with which a call is refused when the token cannot stand in metadata.
pub open spec fn invalid_token_text(token: Seq<char>) -> Seq<char> {
    "token is not a valid header value: "@ + token
}

/// Whether a character can stand in an ASCII metadata value: the encoding of every
/// character but the ASCII control characters other than tab is accepted.
pub open spec fn metadata_char_ok(c: char) -> bool {
    (c as u32 >= 32 && c as u32 != 127) || c == '\t'
}

/// Whether every character of a text can stand in an ASCII metadata value.
pub open spec fn metadata_text_ok(s: Seq<char>) -> bool {
    forall|i: int| 0 <= i < s.len() ==> metadata_char_ok(#[trigger] s[i])
}

/// The authorization of a token is `Bearer `, a space, and the whole token, however
/// long: seven characters more than the token, ending in all of it. It can stand in
/// metadata exactly when the token can, so every token whose characters may stand
/// in metadata is sent whole.
pub proof fn bearer_carries_the_whole_token(t: Seq<char>)
    ensures
        bearer(t).len() == 7 + t.len(),
        bearer(t).subrange(0, 7) == seq!['B', 'e', 'a', 'r', 'e', 'r', ' '],
        bearer(t).subrange(7, bearer(t).len() as int) == t,
        metadata_text_ok(bearer(t)) <==> metadata_text_ok(t),
{
    reveal_strlit("Bearer ");
    let b = bearer(t);
    assert(b.subrange(0, 7) =~= seq!['B', 'e', 'a', 'r', 'e', 'r', ' ']);
    assert(b.subrange(7, b.len() as int) =~= t);
    if metadata_text_ok(b) {
        assert forall|i: int| 0 <= i < t.len() implies metadata_char_ok(#[trigger] t[i]) by {
            assert(b[7 + i] == t[i]);
        }
    }
    if metadata_text_ok(t) {
        assert forall|i: int| 0 <= i < b.len() implies metadata_char_ok(#[trigger] b[i]) by {
            if i >= 7 {
                assert(b[i] == t[i - 7]);
            }
        }
    }
}

/// A refused call says why: without a token, the message is `failed to get token: `
/// followed by the error's own text, which tells the errors apart; with a token that
/// cannot stand in metadata, it ends with the whole token.
pub proof fn refusals_say_why(e: OAuthError, f: OAuthError, t: Seq<char>)
    ensures
        token_failure_text(e).len() == 21 + oauth_error_text(e).len(),
        token_failure_text(e).subrange(21, token_failure_text(e).len() as int) == oauth_error_text(e),
        oauth_error_text(e) == oauth_error_text(f) ==> (e is LockUnavailable <==> f is LockUnavailable)
            && (e is Request <==> f is Request) && (e is Timeout <==> f is Timeout) && (
        e is TokenUnavailable <==> f is TokenUnavailable),
        invalid_token_text(t).len() >= t.len(),
        invalid_token_text(t).subrange(invalid_token_text(t).len() - t.len(), invalid_token_text(t).len() as int) == t,
{
    reveal_strlit("failed to get token: ");
    reveal_strlit("token is not a valid header value: ");
    reveal_strlit("failed to acquire token lock");
    reveal_strlit("failed request");
    reveal_strlit("timeout");
    reveal_strlit("token unavailable");
    let m = token_failure_text(e);
    assert(m.subrange(21, m.len() as int) =~= oauth_error_text(e));
    let n = invalid_token_text(t);
    assert(n.subrange(n.len() - t.len(), n.len() as int) =~= t);
    if oauth_error_text(e) == oauth_error_text(f) {
        let a = oauth_error_text(e);
        assert(a.len() == oauth_error_text(f).len());
        assert(a[0] == oauth_error_text(f)[0]);
    }
}

/// Whether `tonic::metadata::AsciiMetadataValue::try_from` accepts a string. It
/// parses the string with `http::HeaderValue::from_str`, which refuses exactly the
/// strings with a UTF-8 byte below 32 other than tab, or equal to 127; every byte
/// of a character beyond ASCII is 128 or more and accepted. The contract claims
/// that: acceptance is the same as every character passing `metadata_char_ok`.
#[verifier::external_body]
fn is_metadata_value(s: &String) -> (ok: bool)
    ensures
        ok <==> metadata_text_ok(s@),
{
    tonic::metadata::AsciiMetadataValue::try_from(s).is_ok()
}

/// The authorization metadata of a gateway call, made of the token that was read:
/// `Bearer` and the token, a text that `tonic` takes as a metadata value, or the
/// message with which the call is refused.
pub fn authorization(token: Result<String, OAuthError>) -> (r: Result<String, String>)
    ensures
        match token {
            Err(e) => r matches Err(m) && m@ == token_failure_text(e),
            Ok(t) => if metadata_text_ok(bearer(t@)) {
                r matches Ok(h) && h@ == bearer(t@)
            } else {
                r matches Err(m) && m@ == invalid_token_text(t@)
            },
        },
{
    match token {
        Err(e) => {
            let mut m = String::from_str("failed to get token: ");
            let text = e.message();
            m.append(text.as_str());
            Err(m)
        },
        Ok(t) => {
            let mut header = String::from_str("Bearer ");
            header.append(t.as_str());
            if is_metadata_value(&header) {
                Ok(header)
            } else {
                let mut m = String::from_str("token is not a valid header value: ");
                m.append(t.as_str());
                Err(m)
            }
        },
    }
}

} // verus!
