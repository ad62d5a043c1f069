//! Data of the authentication lifecycle: tokens, profiles, stored
//! credentials, the PKCE triple, the session shown to the interface, and
//! the error taxonomy.
use vstd::prelude::*;
use vstd::string::StringExecFns;
use vstd::string::StrSliceExecFns;

verus! {

/// Earliest and latest timestamps (seconds since the Unix epoch) that the
/// library accepts; both lie well inside the range of calendar dates that
/// can be printed as RFC 3339 text.
pub const MIN_TIMESTAMP: i64 = -8_000_000_000_000;

pub const MAX_TIMESTAMP: i64 = 8_000_000_000_000;

pub open spec fn valid_timestamp(t: int) -> bool {
    MIN_TIMESTAMP <= t <= MAX_TIMESTAMP
}

/// OAuth tokens of the music service. `expires_at` is in seconds since the
/// Unix epoch.
#[derive(Debug, Clone)]
pub struct SpotifyTokens {
    pub access_token: String,
    pub refresh_token: String,
    pub token_type: String,
    pub expires_at: i64,
    pub scope: String,
}

impl SpotifyTokens {
    pub open spec fn wf(&self) -> bool {
        &&& valid_timestamp(self.expires_at as int)
        &&& self.refresh_token@.len() > 0
    }

    /// Whether the access token has expired at time `now`.
    pub fn is_expired_at(&self, now: i64) -> (r: bool)
        ensures
            r == (now >= self.expires_at),
    {
        now >= self.expires_at
    }

    /// Whether the access token expires within `seconds` after `now`.
    pub fn expires_within_at(&self, now: i64, seconds: i64) -> (r: bool)
        ensures
            r == (now + seconds >= self.expires_at),
    {
        now as i128 + seconds as i128 >= self.expires_at as i128
    }

    /// Whether the access token has expired now.
    /// The answer is `is_expired_at` for the clock's reading.
    pub fn is_expired(&self) -> (r: bool) {
        let now = now_timestamp();
        self.is_expired_at(now)
    }

    /// Whether the access token expires within `seconds` from now.
    /// The answer is `expires_within_at` for the clock's reading.
    pub fn expires_within(&self, seconds: i64) -> (r: bool) {
        let now = now_timestamp();
        self.expires_within_at(now, seconds)
    }

    pub fn duplicate(&self) -> (r: Self)
        ensures
            r == *self,
    {
        SpotifyTokens {
            access_token: self.access_token.clone(),
            refresh_token: self.refresh_token.clone(),
            token_type: self.token_type.clone(),
            expires_at: self.expires_at,
            scope: self.scope.clone(),
        }
    }
}

/// Relies on chrono's `Utc::now` and `DateTime::timestamp`: the current
/// time in whole seconds since the Unix epoch.
#[verifier::external_body]
pub(crate) fn now_timestamp() -> (r: i64) {
    chrono::Utc::now().timestamp()
}

/// The RFC 3339 text of a timestamp, as chrono prints it.
pub uninterp spec fn rfc3339_of(secs: int) -> Seq<char>;

/// Relies on chrono's `DateTime::from_timestamp`, which accepts every
/// timestamp whose day count fits the supported years (beyond 250000 years
/// either side of the epoch), and on `DateTime::to_rfc3339`.
#[verifier::external_body]
fn rfc3339_text(secs: i64) -> (r: Option<String>)
    ensures
        valid_timestamp(secs as int) ==> r is Some,
        r matches Some(t) ==> t@ == rfc3339_of(secs as int),
{
    match chrono::DateTime::from_timestamp(secs, 0) {
        Some(d) => Some(d.to_rfc3339()),
        None => None,
    }
}

fn dup_opt_string(s: &Option<String>) -> (r: Option<String>)
    ensures
        r == *s,
{
    match s {
        Some(t) => Some(t.clone()),
        None => None,
    }
}

fn dup_opt_u32(s: &Option<u32>) -> (r: Option<u32>)
    ensures
        r == *s,
{
    match s {
        Some(t) => Some(*t),
        None => None,
    }
}

/// The profile of a user of the music service.
#[derive(Debug, Clone)]
pub struct SpotifyUser {
    pub id: String,
    pub display_name: Option<String>,
    pub email: Option<String>,
    pub images: Vec<SpotifyImage>,
    pub product: Option<String>,
    pub country: Option<String>,
}

#[derive(Debug, Clone)]
pub struct SpotifyImage {
    pub url: String,
    pub height: Option<u32>,
    pub width: Option<u32>,
}

impl SpotifyImage {
    pub fn duplicate(&self) -> (r: Self)
        ensures
            r == *self,
    {
        SpotifyImage {
            url: self.url.clone(),
            height: dup_opt_u32(&self.height),
            width: dup_opt_u32(&self.width),
        }
    }
}

impl SpotifyUser {
    /// Equal field by field, images by their sequence.
    pub open spec fn same(self, o: SpotifyUser) -> bool {
        &&& self.id == o.id
        &&& self.display_name == o.display_name
        &&& self.email == o.email
        &&& self.images@ == o.images@
        &&& self.product == o.product
        &&& self.country == o.country
    }

    pub fn duplicate(&self) -> (r: Self)
        ensures
            r.same(*self),
    {
        let mut images: Vec<SpotifyImage> = Vec::new();
        let mut i: usize = 0;
        while i < self.images.len()
            invariant
                i <= self.images@.len(),
                images@ == self.images@.subrange(0, i as int),
            decreases self.images@.len() - i,
        {
            images.push(self.images[i].duplicate());
            i = i + 1;
        }
        assert(images@ == self.images@);
        SpotifyUser {
            id: self.id.clone(),
            display_name: dup_opt_string(&self.display_name),
            email: dup_opt_string(&self.email),
            images,
            product: dup_opt_string(&self.product),
            country: dup_opt_string(&self.country),
        }
    }

    /// Whether the profile's product is the premium one.
    pub fn is_premium(&self) -> (r: bool)
        ensures
            r == is_premium_product(self.product),
    {
        match &self.product {
            Some(p) => {
                let premium = "premium";
                proof {
                    reveal_strlit("premium");
                }
                str_eq(p.as_str(), premium)
            },
            None => false,
        }
    }
}

pub open spec fn is_premium_product(product: Option<String>) -> bool {
    match product {
        Some(p) => p@ == "premium"@,
        None => false,
    }
}

/// Character-wise equality of two strings.
pub fn str_eq(a: &str, b: &str) -> (r: bool)
    ensures
        r == (a@ == b@),
{
    let n = a.unicode_len();
    if n != b.unicode_len() {
        return false;
    }
    let mut i: usize = 0;
    while i < n
        invariant
            n == a@.len(),
            n == b@.len(),
            i <= n,
            forall|j: int| 0 <= j < i ==> a@[j] == b@[j],
        decreases n - i,
    {
        if a.get_char(i) != b.get_char(i) {
            return false;
        }
        i = i + 1;
    }
    assert(a@ =~= b@);
    true
}

/// The credentials kept between runs: tokens, profile, and the times
/// (seconds since the Unix epoch) of login and of the latest refresh.
#[derive(Debug, Clone)]
pub struct AuthState {
    pub tokens: SpotifyTokens,
    pub user: SpotifyUser,
    pub created_at: i64,
    pub last_refresh: i64,
}

impl AuthState {
    pub open spec fn wf(&self) -> bool {
        self.tokens.wf()
    }

    /// Equal field by field, the profile by `SpotifyUser::same`.
    pub open spec fn same(self, o: AuthState) -> bool {
        &&& self.tokens == o.tokens
        &&& self.user.same(o.user)
        &&& self.created_at == o.created_at
        &&& self.last_refresh == o.last_refresh
    }

    pub fn duplicate(&self) -> (r: Self)
        ensures
            r.same(*self),
    {
        AuthState {
            tokens: self.tokens.duplicate(),
            user: self.user.duplicate(),
            created_at: self.created_at,
            last_refresh: self.last_refresh,
        }
    }
}

/// One PKCE attempt: the secret verifier, its S256 challenge and the CSRF
/// state token.
#[derive(Debug, Clone)]
pub struct PkceData {
    pub verifier: String,
    pub challenge: String,
    pub state: String,
}

/// What the token endpoint returns; `expires_in` is the lifetime in seconds.
#[derive(Debug, Clone)]
pub struct SpotifyTokenResponse {
    pub access_token: String,
    pub token_type: String,
    pub scope: String,
    pub expires_in: i64,
    pub refresh_token: Option<String>,
}

/// The read-only view of the credentials handed to the user interface.
#[derive(Debug, Clone)]
pub struct AuthSession {
    pub user: SpotifyUser,
    pub access_token: String,
    pub expires_at: String,
    pub is_premium: bool,
}

impl AuthSession {
    /// The session that `state` presents.
    pub open spec fn presents(self, state: AuthState) -> bool {
        &&& self.user.same(state.user)
        &&& self.access_token == state.tokens.access_token
        &&& self.expires_at@ == rfc3339_of(state.tokens.expires_at as int)
        &&& self.is_premium == is_premium_product(state.user.product)
    }

    /// Derives the session from stored credentials.
    pub fn from_state(state: &AuthState) -> (r: AuthSession)
        requires
            state.wf(),
        ensures
            r.presents(*state),
    {
        let expires_at = match rfc3339_text(state.tokens.expires_at) {
            Some(t) => t,
            None => String::new(),
        };
        AuthSession {
            user: state.user.duplicate(),
            access_token: state.tokens.access_token.clone(),
            expires_at,
            is_premium: state.user.is_premium(),
        }
    }
}

/// The failures of authentication operations.
#[derive(Debug, Clone)]
pub enum AuthError {
    NotAuthenticated,
    TokenExpired,
    RefreshFailed(String),
    SpotifyError(String),
    EncryptionError(String),
    StorageError(String),
    InvalidPkceState,
    HttpError(String),
}

/// A string with `detail` after `prefix`.
pub fn with_detail(prefix: &str, detail: &str) -> (r: String)
    ensures
        r@ == prefix@ + detail@,
{
    let mut r = String::from_str(prefix);
    r.append(detail);
    r
}

pub open spec fn error_message(e: AuthError) -> Seq<char> {
    match e {
        AuthError::NotAuthenticated => "Not authenticated"@,
        AuthError::TokenExpired => "Token expired"@,
        AuthError::RefreshFailed(d) => "Failed to refresh token: "@ + d@,
        AuthError::SpotifyError(d) => "Spotify API error: "@ + d@,
        AuthError::EncryptionError(d) => "Encryption error: "@ + d@,
        AuthError::StorageError(d) => "Storage error: "@ + d@,
        AuthError::InvalidPkceState => "Invalid PKCE state"@,
        AuthError::HttpError(d) => "HTTP error: "@ + d@,
    }
}

impl AuthError {
    /// The human-readable text of the error, as shown at the boundary.
    pub fn message(&self) -> (r: String)
        ensures
            r@ == error_message(*self),
    {
        match self {
            AuthError::NotAuthenticated => String::from_str("Not authenticated"),
            AuthError::TokenExpired => String::from_str("Token expired"),
            AuthError::RefreshFailed(d) => with_detail("Failed to refresh token: ", d.as_str()),
            AuthError::SpotifyError(d) => with_detail("Spotify API error: ", d.as_str()),
            AuthError::EncryptionError(d) => with_detail("Encryption error: ", d.as_str()),
            AuthError::StorageError(d) => with_detail("Storage error: ", d.as_str()),
            AuthError::InvalidPkceState => String::from_str("Invalid PKCE state"),
            AuthError::HttpError(d) => with_detail("HTTP error: ", d.as_str()),
        }
    }
}

} // verus!
