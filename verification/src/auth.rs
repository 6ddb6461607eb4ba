//! OAuth bookkeeping: the authorization URL with its single-use `state`,
//! the token requests, the stored tokens and when they count as expired.

use vstd::prelude::*;
use crate::config::Config;
use crate::state::{accepts, after_consume, after_register, AuthState};
use crate::text::{concat2, owned, push_char};
use crate::urls::{first_value, lemma_first_value_append, url_query_of, url_with_query, url_with_query_pairs};

verus! {

/// The scopes that the authorization asks for.
pub open spec fn scope_list() -> Seq<Seq<char>> {
    seq![
        "https://www.googleapis.com/auth/photoslibrary.readonly"@,
        "https://www.googleapis.com/auth/photoslibrary.readonly.appcreateddata"@,
        "https://www.googleapis.com/auth/photoslibrary.appendonly"@,
        "https://www.googleapis.com/auth/photoslibrary.edit.appcreateddata"@,
        "https://www.googleapis.com/auth/photospicker.mediaitems.readonly"@,
        "openid email profile"@,
    ]
}

/// The texts of a list joined by `sep`.
pub open spec fn join(list: Seq<Seq<char>>, sep: Seq<char>) -> Seq<char>
    decreases list.len(),
{
    if list.len() == 0 {
        Seq::empty()
    } else if list.len() == 1 {
        list[0]
    } else {
        join(list.drop_last(), sep) + sep + list.last()
    }
}

/// The `scope` parameter: the scopes joined by spaces (`SCOPES.join(" ")`).
pub fn scope_param() -> (r: String)
    ensures
        r@ == join(scope_list(), " "@),
{
    let mut r = owned("https://www.googleapis.com/auth/photoslibrary.readonly");
    r.append(" ");
    r.append("https://www.googleapis.com/auth/photoslibrary.readonly.appcreateddata");
    r.append(" ");
    r.append("https://www.googleapis.com/auth/photoslibrary.appendonly");
    r.append(" ");
    r.append("https://www.googleapis.com/auth/photoslibrary.edit.appcreateddata");
    r.append(" ");
    r.append("https://www.googleapis.com/auth/photospicker.mediaitems.readonly");
    r.append(" ");
    r.append("openid email profile");
    proof {
        let l = scope_list();
        assert(l.drop_last().drop_last().drop_last().drop_last().drop_last() =~= seq![l[0]]);
        assert(l.drop_last().drop_last().drop_last().drop_last().last() == l[1]);
        assert(l.drop_last().drop_last().drop_last().last() == l[2]);
        assert(l.drop_last().drop_last().last() == l[3]);
        assert(l.drop_last().last() == l[4]);
        reveal_with_fuel(join, 7);
    }
    r
}

/// The URL that the user opens to authorize.
pub open spec fn authorize_endpoint() -> Seq<char> {
    "https://accounts.google.com/o/oauth2/v2/auth"@
}

/// The query of the authorization URL for a `state`.
pub open spec fn auth_url_pairs(config: Config, state: Seq<char>) -> Seq<(Seq<char>, Seq<char>)> {
    seq![
        ("response_type"@, "code"@),
        ("client_id"@, config.google_client_id@),
        ("redirect_uri"@, config.google_redirect_uri@),
        ("scope"@, join(scope_list(), " "@)),
        ("access_type"@, "offline"@),
        ("prompt"@, "consent"@),
        ("state"@, state),
    ]
}

/// The query of an authorization URL reads back as the endpoint's own pairs
/// followed by the seven pairs for `state`.
pub open spec fn auth_url_reads_back(config: Config, state: Seq<char>, r: Result<String, AuthError>) -> bool {
    r matches Ok(u) ==> (url_query_of(authorize_endpoint()) matches Some(before) && url_query_of(u@) == Some(
        before + auth_url_pairs(config, state),
    ))
}

/// How long a `state` is accepted, in seconds.
pub open spec fn state_lifetime() -> i64 {
    600
}

/// The expiry of a `state` handed out at `now` (capped at the largest time).
pub open spec fn state_expiry(now: i64) -> i64 {
    if now + 600 <= i64::MAX {
        (now + 600) as i64
    } else {
        i64::MAX
    }
}

/// A letter or digit of ASCII.
pub open spec fn is_alphanumeric(c: char) -> bool {
    ('A' <= c <= 'Z') || ('a' <= c <= 'z') || ('0' <= c <= '9')
}

/// One random byte from `rand`'s `Alphanumeric` distribution, drawn from
/// the thread-local generator. The contract claims what the distribution's
/// source shows: the byte is one of `A`-`Z`, `a`-`z`, `0`-`9`.
#[verifier::external_body]
fn sample_alphanumeric() -> (b: u8)
    ensures
        is_alphanumeric(b as char),
{
    rand::Rng::sample(&mut rand::rng(), rand::distr::Alphanumeric)
}

/// A fresh OAuth `state`: 40 random letters and digits.
pub fn random_state() -> (r: String)
    ensures
        r@.len() == 40,
        forall|i: int| 0 <= i < 40 ==> is_alphanumeric(#[trigger] r@[i]),
{
    let mut r = String::new();
    let mut i: usize = 0;
    while i < 40
        invariant
            i <= 40,
            r@.len() == i,
            forall|j: int| 0 <= j < i ==> is_alphanumeric(#[trigger] r@[j]),
        decreases 40 - i,
    {
        let b: u8 = sample_alphanumeric();
        push_char(&mut r, b as char);
        i = i + 1;
    }
    r
}

/// The system clock's time values.
#[verifier::external_type_specification]
#[verifier::external_body]
pub struct ExSystemTime(std::time::SystemTime);

/// The system clock's reading (`std::time::SystemTime::now`). Nothing is
/// claimed of it: it is the machine's clock.
#[verifier::external_body]
fn system_time_now() -> std::time::SystemTime {
    std::time::SystemTime::now()
}

/// The time elapsed from the Unix epoch to `t`, or nothing when `t` lies
/// before it (`t.duration_since(UNIX_EPOCH)`, its error dropped). Nothing
/// is claimed of the value: a time value is opaque here.
#[verifier::external_body]
fn duration_since_epoch(t: &std::time::SystemTime) -> Option<std::time::Duration> {
    t.duration_since(std::time::UNIX_EPOCH).ok()
}

/// The whole seconds of a duration (`Duration::as_secs`). Nothing is
/// claimed of the value: a duration is opaque here.
#[verifier::external_body]
fn duration_secs(d: &std::time::Duration) -> u64 {
    d.as_secs()
}

/// Whole seconds since the Unix epoch as a time stamp: the seconds cut to
/// `i64` as `as` does, or 0 when the clock stands before the epoch.
pub open spec fn epoch_stamp(since_epoch: Option<u64>) -> i64 {
    match since_epoch {
        Some(s) => s as i64,
        None => 0,
    }
}

/// The time stamp for the seconds elapsed since the Unix epoch (`None`
/// when the clock stands before it).
pub fn epoch_seconds(since_epoch: Option<u64>) -> (r: i64)
    ensures
        r == epoch_stamp(since_epoch),
{
    match since_epoch {
        Some(s) => s as i64,
        None => 0,
    }
}

/// The current time in whole seconds since the Unix epoch, 0 when the
/// clock stands before it; the seconds are cut to `i64` as `as` does.
pub fn now_epoch() -> (r: i64)
    ensures
        exists|since_epoch: Option<u64>| r == epoch_stamp(since_epoch),
{
    let t = system_time_now();
    let since_epoch = match duration_since_epoch(&t) {
        Some(d) => Some(duration_secs(&d)),
        None => None,
    };
    epoch_seconds(since_epoch)
}

/// The tokens kept on disk.
#[derive(Clone, Debug)]
pub struct StoredTokens {
    pub access_token: String,
    pub refresh_token: String,
    pub token_type: Option<String>,
    pub scope: Option<String>,
    pub expires_at_epoch: i64,
    pub retrieved_at_epoch: i64,
    pub user_email: Option<String>,
    pub user_id: Option<String>,
}

/// `expires_at - 60`, saturating at the smallest time.
pub open spec fn minus_margin(expires_at: i64) -> i64 {
    if expires_at - 60 >= i64::MIN {
        (expires_at - 60) as i64
    } else {
        i64::MIN
    }
}

/// Tokens count as expired from one minute before their expiry on.
pub open spec fn expired_at(t: StoredTokens, now: i64) -> bool {
    now >= minus_margin(t.expires_at_epoch)
}

/// The answer of the token endpoint.
#[derive(Clone, Debug)]
pub struct TokenResponse {
    pub access_token: String,
    pub refresh_token: Option<String>,
    pub token_type: Option<String>,
    pub scope: Option<String>,
    pub expires_in: i64,
    pub id_token: Option<String>,
}

/// The answer of the token-info endpoint.
#[derive(Clone, Debug)]
pub struct TokenInfo {
    pub email: Option<String>,
    pub sub: Option<String>,
}

fn clone_opt(o: &Option<String>) -> (r: Option<String>)
    ensures
        r == *o,
{
    match o {
        Some(s) => Some(s.clone()),
        None => None,
    }
}

impl StoredTokens {
    /// Whether the tokens count as expired at `now`.
    pub fn is_expired_at(&self, now: i64) -> (r: bool)
        ensures
            r == expired_at(*self, now),
    {
        let limit: i64 = match self.expires_at_epoch.checked_sub(60) {
            Some(v) => v,
            None => i64::MIN,
        };
        now >= limit
    }

    /// Whether the tokens count as expired now.
    pub fn is_expired(&self) -> (r: bool)
        ensures
            exists|now: i64| r == expired_at(*self, now),
    {
        let now: i64 = now_epoch();
        self.is_expired_at(now)
    }

    /// The tokens of a code exchange answered at `now`; a missing refresh
    /// token is stored as empty.
    pub fn from_exchange(resp: &TokenResponse, now: i64) -> (r: StoredTokens)
        requires
            i64::MIN <= now + resp.expires_in <= i64::MAX,
        ensures
            r.access_token == resp.access_token,
            r.refresh_token@ == (match resp.refresh_token {
                Some(t) => t@,
                None => Seq::empty(),
            }),
            r.token_type == resp.token_type,
            r.scope == resp.scope,
            r.expires_at_epoch == now + resp.expires_in,
            r.retrieved_at_epoch == now,
            r.user_email is None,
            r.user_id is None,
    {
        StoredTokens {
            access_token: resp.access_token.clone(),
            refresh_token: match &resp.refresh_token {
                Some(t) => t.clone(),
                None => String::new(),
            },
            token_type: clone_opt(&resp.token_type),
            scope: clone_opt(&resp.scope),
            expires_at_epoch: now + resp.expires_in,
            retrieved_at_epoch: now,
            user_email: None,
            user_id: None,
        }
    }

    /// The tokens with the user's e-mail and id from the token info.
    pub fn with_token_info(self, info: TokenInfo) -> (r: StoredTokens)
        ensures
            r.user_email == info.email,
            r.user_id == info.sub,
            r.access_token == self.access_token,
            r.refresh_token == self.refresh_token,
            r.token_type == self.token_type,
            r.scope == self.scope,
            r.expires_at_epoch == self.expires_at_epoch,
            r.retrieved_at_epoch == self.retrieved_at_epoch,
    {
        StoredTokens { user_email: info.email, user_id: info.sub, ..self }
    }

    /// The tokens of a refresh answered at `now`: the refresh token of the
    /// answer, else the one stored before, else empty; the user's e-mail
    /// and id carry over from the tokens stored before.
    pub fn refreshed(resp: &TokenResponse, current: &Option<StoredTokens>, now: i64) -> (r: StoredTokens)
        requires
            i64::MIN <= now + resp.expires_in <= i64::MAX,
        ensures
            r.access_token == resp.access_token,
            r.refresh_token@ == (match resp.refresh_token {
                Some(t) => t@,
                None => match current {
                    Some(c) => c.refresh_token@,
                    None => Seq::empty(),
                },
            }),
            r.token_type == resp.token_type,
            r.scope == resp.scope,
            r.expires_at_epoch == now + resp.expires_in,
            r.retrieved_at_epoch == now,
            r.user_email == (match current {
                Some(c) => c.user_email,
                None => None,
            }),
            r.user_id == (match current {
                Some(c) => c.user_id,
                None => None,
            }),
    {
        let refresh_token = match &resp.refresh_token {
            Some(t) => t.clone(),
            None => match current {
                Some(c) => c.refresh_token.clone(),
                None => String::new(),
            },
        };
        let (user_email, user_id) = match current {
            Some(c) => (clone_opt(&c.user_email), clone_opt(&c.user_id)),
            None => (None, None),
        };
        StoredTokens {
            access_token: resp.access_token.clone(),
            refresh_token,
            token_type: clone_opt(&resp.token_type),
            scope: clone_opt(&resp.scope),
            expires_at_epoch: now + resp.expires_in,
            retrieved_at_epoch: now,
            user_email,
            user_id,
        }
    }
}

/// What the server reports of its authentication.
#[derive(Clone, Debug)]
pub struct AuthStatus {
    pub authenticated: bool,
    pub expired: bool,
    pub expires_at_epoch: Option<i64>,
    pub user_email: Option<String>,
}

/// The status for the stored tokens, if any, at `now`.
pub open spec fn status_of(tokens: Option<StoredTokens>, now: i64, s: AuthStatus) -> bool {
    match tokens {
        None => !s.authenticated && !s.expired && s.expires_at_epoch is None && s.user_email is None,
        Some(t) => s.authenticated && s.expired == expired_at(t, now) && s.expires_at_epoch == Some(
            t.expires_at_epoch,
        ) && s.user_email == t.user_email,
    }
}

impl AuthStatus {
    /// No tokens are stored.
    pub fn unauthenticated() -> (r: AuthStatus)
        ensures
            status_of(None, 0, r),
    {
        AuthStatus { authenticated: false, expired: false, expires_at_epoch: None, user_email: None }
    }

    /// The status for the stored tokens, if any, at `now`.
    pub fn from_tokens_at(tokens: Option<StoredTokens>, now: i64) -> (r: AuthStatus)
        ensures
            status_of(tokens, now, r),
    {
        match tokens {
            None => AuthStatus::unauthenticated(),
            Some(t) => {
                let expired = t.is_expired_at(now);
                AuthStatus {
                    authenticated: true,
                    expired,
                    expires_at_epoch: Some(t.expires_at_epoch),
                    user_email: t.user_email,
                }
            },
        }
    }
}

/// What can go wrong in the OAuth flow.
#[derive(Clone, Debug)]
pub enum AuthError {
    /// The `state` of a callback is unknown, used or expired.
    InvalidState,
    /// No tokens are stored.
    NotAuthenticated,
    /// The access token expired and there is no refresh token.
    NoRefreshToken,
    /// A URL could not be built; the text of the parse error.
    Url(String),
}

/// The message of an error.
pub open spec fn auth_error_text(e: AuthError) -> Seq<char> {
    match e {
        AuthError::InvalidState => "Invalid OAuth state"@,
        AuthError::NotAuthenticated => "Not authenticated. Run start_auth first."@,
        AuthError::NoRefreshToken => "Access token expired and no refresh token available"@,
        AuthError::Url(m) => m@,
    }
}

impl AuthError {
    /// The error's message.
    pub fn message(&self) -> (r: String)
        ensures
            r@ == auth_error_text(*self),
    {
        match self {
            AuthError::InvalidState => owned("Invalid OAuth state"),
            AuthError::NotAuthenticated => owned("Not authenticated. Run start_auth first."),
            AuthError::NoRefreshToken => owned("Access token expired and no refresh token available"),
            AuthError::Url(m) => m.clone(),
        }
    }
}

/// A form POST to an OAuth endpoint.
#[derive(Clone, Debug)]
pub struct TokenRequest {
    pub url: String,
    pub form: Vec<(String, String)>,
}

/// What to do to get an access token.
#[derive(Debug)]
pub enum AccessTokenStep {
    /// The stored access token is still good.
    Ready(String),
    /// Refresh with this refresh token, then use the new access token.
    Refresh(String),
    /// No token can be had.
    Fail(AuthError),
}

/// The step for the stored tokens, if any, at `now`.
pub open spec fn access_step_of(tokens: Option<StoredTokens>, now: i64, s: AccessTokenStep) -> bool {
    match tokens {
        None => s matches AccessTokenStep::Fail(AuthError::NotAuthenticated),
        Some(t) => if !expired_at(t, now) {
            s matches AccessTokenStep::Ready(a) && a == t.access_token
        } else if t.refresh_token@.len() == 0 {
            s matches AccessTokenStep::Fail(AuthError::NoRefreshToken)
        } else {
            s matches AccessTokenStep::Refresh(rt) && rt == t.refresh_token
        },
    }
}

/// The step for the stored tokens, if any, at `now`: a fresh access token
/// is used as is, an expired one is refreshed when a refresh token exists.
pub fn access_token_step_at(tokens: Option<StoredTokens>, now: i64) -> (r: AccessTokenStep)
    ensures
        access_step_of(tokens, now, r),
{
    match tokens {
        None => AccessTokenStep::Fail(AuthError::NotAuthenticated),
        Some(t) => {
            if t.is_expired_at(now) {
                if t.refresh_token.as_str().unicode_len() == 0 {
                    AccessTokenStep::Fail(AuthError::NoRefreshToken)
                } else {
                    AccessTokenStep::Refresh(t.refresh_token)
                }
            } else {
                AccessTokenStep::Ready(t.access_token)
            }
        },
    }
}

/// The URL, or the error, that the `url` crate gives.
pub open spec fn url_outcome(outcome: Result<Seq<char>, Seq<char>>, r: Result<String, AuthError>) -> bool {
    match outcome {
        Ok(u) => r matches Ok(s) && s@ == u,
        Err(e) => r matches Err(AuthError::Url(m)) && m@ == e,
    }
}

/// The form of a code exchange.
pub open spec fn exchange_form(config: Config, code: Seq<char>) -> Seq<(Seq<char>, Seq<char>)> {
    seq![
        ("code"@, code),
        ("client_id"@, config.google_client_id@),
        ("client_secret"@, config.google_client_secret@),
        ("redirect_uri"@, config.google_redirect_uri@),
        ("grant_type"@, "authorization_code"@),
    ]
}

/// The form of a token refresh.
pub open spec fn refresh_form(config: Config, refresh_token: Seq<char>) -> Seq<(Seq<char>, Seq<char>)> {
    seq![
        ("refresh_token"@, refresh_token),
        ("client_id"@, config.google_client_id@),
        ("client_secret"@, config.google_client_secret@),
        ("grant_type"@, "refresh_token"@),
    ]
}

fn pair(k: &str, v: &str) -> (r: (String, String))
    ensures
        r.0@ == k@,
        r.1@ == v@,
{
    (owned(k), owned(v))
}

/// The OAuth side of the server: its configuration and the pending states.
#[derive(Debug)]
pub struct OAuthManager {
    pub config: Config,
    pub state: AuthState,
}

impl OAuthManager {
    /// A manager with no pending state.
    pub fn new(config: Config) -> (r: OAuthManager)
        ensures
            r.config == config,
            r.state@ == Map::<Seq<char>, i64>::empty(),
    {
        OAuthManager { config, state: AuthState::new() }
    }

    /// Starts the flow at `now` with the given fresh `state`: registers it
    /// for ten minutes, drops expired states, and gives the URL to open.
    pub fn start_auth_at(&mut self, now: i64, state: String) -> (r: Result<String, AuthError>)
        ensures
            final(self).config == old(self).config,
            final(self).state@ == after_register(old(self).state@, state@, state_expiry(now), now),
            url_outcome(
                url_with_query_pairs(authorize_endpoint(), auth_url_pairs(old(self).config, state@)),
                r,
            ),
            r is Ok <==> url_query_of(authorize_endpoint()) is Some,
            auth_url_reads_back(old(self).config, state@, r),
    {
        let expires_at: i64 = match now.checked_add(600) {
            Some(v) => v,
            None => i64::MAX,
        };
        let state_param = state.clone();
        self.state.register(state, expires_at, now);
        let mut pairs: Vec<(String, String)> = Vec::new();
        pairs.push(pair("response_type", "code"));
        pairs.push(pair("client_id", self.config.google_client_id.as_str()));
        pairs.push(pair("redirect_uri", self.config.google_redirect_uri.as_str()));
        pairs.push((owned("scope"), scope_param()));
        pairs.push(pair("access_type", "offline"));
        pairs.push(pair("prompt", "consent"));
        pairs.push((owned("state"), state_param));
        assert(pairs.deep_view() =~= auth_url_pairs(self.config, state@));
        match url_with_query("https://accounts.google.com/o/oauth2/v2/auth", &pairs) {
            Ok(u) => Ok(u),
            Err(e) => Err(AuthError::Url(e)),
        }
    }

    /// Starts the flow now with a fresh random `state`.
    pub fn start_auth(&mut self) -> (r: Result<String, AuthError>)
        ensures
            final(self).config == old(self).config,
            exists|now: i64, state: Seq<char>|
                {
                    &&& state.len() == 40
                    &&& forall|i: int| 0 <= i < 40 ==> is_alphanumeric(#[trigger] state[i])
                    &&& final(self).state@ == after_register(old(self).state@, state, state_expiry(now), now)
                    &&& url_outcome(
                        url_with_query_pairs(authorize_endpoint(), auth_url_pairs(old(self).config, state)),
                        r,
                    )
                    &&& auth_url_reads_back(old(self).config, state, r)
                },
            r is Ok <==> url_query_of(authorize_endpoint()) is Some,
    {
        let now: i64 = now_epoch();
        let state = random_state();
        let ghost s = state@;
        let r = self.start_auth_at(now, state);
        assert(forall|i: int| 0 <= i < 40 ==> is_alphanumeric(#[trigger] s[i]));
        r
    }

    /// Presents a callback's `state` at `now`; it is gone afterwards either way.
    pub fn consume_valid_state_at(&mut self, state: &str, now: i64) -> (r: bool)
        ensures
            final(self).config == old(self).config,
            r == accepts(old(self).state@, state@, now),
            final(self).state@ == after_consume(old(self).state@, state@, now),
    {
        self.state.consume(state, now)
    }

    /// Presents a callback's `state` now.
    pub fn consume_valid_state(&mut self, state: &str) -> (r: bool)
        ensures
            final(self).config == old(self).config,
            exists|now: i64|
                r == accepts(old(self).state@, state@, now) && final(self).state@ == after_consume(
                    old(self).state@,
                    state@,
                    now,
                ),
    {
        let now: i64 = now_epoch();
        self.consume_valid_state_at(state, now)
    }

    /// The token endpoint.
    pub fn token_url(&self) -> (r: String)
        ensures
            r@ == self.config.google_oauth_base_url@ + "/token"@,
    {
        concat2(self.config.google_oauth_base_url.as_str(), "/token")
    }

    /// The handling of an OAuth callback at `now`: the `state` must be
    /// accepted, then the code is exchanged at the token endpoint.
    pub fn exchange_callback_code_at(&mut self, code: &str, state: &str, now: i64) -> (r: Result<
        TokenRequest,
        AuthError,
    >)
        ensures
            final(self).config == old(self).config,
            final(self).state@ == after_consume(old(self).state@, state@, now),
            r is Ok <==> accepts(old(self).state@, state@, now),
            r is Err ==> (r matches Err(AuthError::InvalidState)),
            r matches Ok(q) ==> q.url@ == old(self).config.google_oauth_base_url@ + "/token"@
                && q.form.deep_view() == exchange_form(old(self).config, code@),
    {
        if !self.consume_valid_state_at(state, now) {
            return Err(AuthError::InvalidState);
        }
        let mut form: Vec<(String, String)> = Vec::new();
        form.push(pair("code", code));
        form.push(pair("client_id", self.config.google_client_id.as_str()));
        form.push(pair("client_secret", self.config.google_client_secret.as_str()));
        form.push(pair("redirect_uri", self.config.google_redirect_uri.as_str()));
        form.push(pair("grant_type", "authorization_code"));
        assert(form.deep_view() =~= exchange_form(self.config, code@));
        Ok(TokenRequest { url: self.token_url(), form })
    }

    /// The handling of an OAuth callback now.
    pub fn exchange_callback_code(&mut self, code: &str, state: &str) -> (r: Result<TokenRequest, AuthError>)
        ensures
            final(self).config == old(self).config,
            exists|now: i64|
                {
                    &&& final(self).state@ == after_consume(old(self).state@, state@, now)
                    &&& r is Ok <==> accepts(old(self).state@, state@, now)
                },
            r is Err ==> (r matches Err(AuthError::InvalidState)),
            r matches Ok(q) ==> q.url@ == old(self).config.google_oauth_base_url@ + "/token"@
                && q.form.deep_view() == exchange_form(old(self).config, code@),
    {
        let now: i64 = now_epoch();
        self.exchange_callback_code_at(code, state, now)
    }

    /// The request that asks who the user of an id token is.
    pub fn token_info_request(&self, id_token: &str) -> (r: TokenRequest)
        ensures
            r.url@ == self.config.google_oauth_base_url@ + "/tokeninfo"@,
            r.form.deep_view() == seq![("id_token"@, id_token@)],
    {
        let mut form: Vec<(String, String)> = Vec::new();
        form.push(pair("id_token", id_token));
        assert(form.deep_view() =~= seq![("id_token"@, id_token@)]);
        TokenRequest { url: concat2(self.config.google_oauth_base_url.as_str(), "/tokeninfo"), form }
    }

    /// The request that refreshes the access token.
    pub fn refresh_request(&self, refresh_token: &str) -> (r: TokenRequest)
        ensures
            r.url@ == self.config.google_oauth_base_url@ + "/token"@,
            r.form.deep_view() == refresh_form(self.config, refresh_token@),
    {
        let mut form: Vec<(String, String)> = Vec::new();
        form.push(pair("refresh_token", refresh_token));
        form.push(pair("client_id", self.config.google_client_id.as_str()));
        form.push(pair("client_secret", self.config.google_client_secret.as_str()));
        form.push(pair("grant_type", "refresh_token"));
        assert(form.deep_view() =~= refresh_form(self.config, refresh_token@));
        TokenRequest { url: self.token_url(), form }
    }

    /// The status for the stored tokens, if any, now.
    pub fn auth_status(&self, tokens: Option<StoredTokens>) -> (r: AuthStatus)
        ensures
            exists|now: i64| status_of(tokens, now, r),
    {
        let now: i64 = now_epoch();
        AuthStatus::from_tokens_at(tokens, now)
    }

    /// The step to get an access token for the stored tokens, if any, now.
    pub fn get_access_token(&self, tokens: Option<StoredTokens>) -> (r: AccessTokenStep)
        ensures
            exists|now: i64| access_step_of(tokens, now, r),
    {
        let now: i64 = now_epoch();
        access_token_step_at(tokens, now)
    }
}

/// A `state` handed out by `start_auth` at `now` is accepted by a callback
/// at any time `t` within the following ten minutes, and after that callback
/// it is never accepted again.
pub proof fn law_fresh_state_accepted_once(
    pending: Map<Seq<char>, i64>,
    state: Seq<char>,
    now: i64,
    t: i64,
    later: i64,
)
    requires
        now <= t < now + state_lifetime(),
        now + state_lifetime() <= i64::MAX,
    ensures
        accepts(after_register(pending, state, state_expiry(now), now), state, t),
        !accepts(after_consume(after_register(pending, state, state_expiry(now), now), state, t), state, later),
{
}

/// A `state` is refused once ten minutes have passed since it was handed out.
pub proof fn law_state_expires(pending: Map<Seq<char>, i64>, state: Seq<char>, now: i64, t: i64)
    requires
        now + state_lifetime() <= t,
    ensures
        !accepts(after_register(pending, state, state_expiry(now), now), state, t),
{
}

/// Tokens just obtained with a lifetime of more than a minute are not
/// expired at the time they were obtained, and the next request for an
/// access token uses them as they are.
pub proof fn law_new_tokens_are_used(tokens: StoredTokens, now: i64, expires_in: i64, step: AccessTokenStep)
    requires
        tokens.expires_at_epoch == now + expires_in,
        expires_in > 60,
        access_step_of(Some(tokens), now, step),
    ensures
        !expired_at(tokens, now),
        step matches AccessTokenStep::Ready(a) && a == tokens.access_token,
{
}

/// Stored tokens are never refreshed before they count as expired, and an
/// expired access token is never handed out.
pub proof fn law_expired_tokens_are_not_used(tokens: StoredTokens, now: i64, step: AccessTokenStep)
    requires
        access_step_of(Some(tokens), now, step),
    ensures
        step is Ready <==> !expired_at(tokens, now),
        step is Refresh ==> expired_at(tokens, now) && tokens.refresh_token@.len() > 0,
{
}

/// The `state` parameter of an authorization URL is the registered
/// `state` (when the endpoint's own query has none), and a first callback
/// that presents it within ten minutes is accepted, a second one never.
pub proof fn law_url_state_accepted_once(
    config: Config,
    pending: Map<Seq<char>, i64>,
    state: Seq<char>,
    r: Result<String, AuthError>,
    now: i64,
    t: i64,
    later: i64,
)
    requires
        r is Ok,
        auth_url_reads_back(config, state, r),
        url_query_of(authorize_endpoint()) matches Some(before) && first_value(before, "state"@) is None,
        now <= t < now + state_lifetime(),
        now + state_lifetime() <= i64::MAX,
    ensures
        url_query_of(r->Ok_0@) matches Some(query) && first_value(query, "state"@) == Some(state),
        accepts(after_register(pending, state, state_expiry(now), now), state, t),
        !accepts(after_consume(after_register(pending, state, state_expiry(now), now), state, t), state, later),
{
    let before = url_query_of(authorize_endpoint())->Some_0;
    let pairs = auth_url_pairs(config, state);
    lemma_first_value_append(before, pairs, "state"@);
    reveal_strlit("state");
    reveal_strlit("response_type");
    reveal_strlit("client_id");
    reveal_strlit("redirect_uri");
    reveal_strlit("scope");
    reveal_strlit("access_type");
    reveal_strlit("prompt");
    assert("state"@.len() == 5 && "response_type"@.len() == 13 && "client_id"@.len() == 9);
    assert("redirect_uri"@.len() == 12 && "scope"@.len() == 5 && "access_type"@.len() == 11);
    assert("prompt"@.len() == 6 && "scope"@[1] == 'c' && "state"@[1] == 't');
    reveal_with_fuel(first_value, 8);
    assert(pairs.drop_first().drop_first().drop_first().drop_first().drop_first().drop_first() =~= seq![("state"@, state)]);
    assert(first_value(pairs, "state"@) == Some(state));
}

} // verus!
