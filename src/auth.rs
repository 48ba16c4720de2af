//! The orchestrator: which credential each request uses and how it becomes an
//! `Authorization` header, plus the decisions of the OAuth2 flow that run
//! between its network steps.

use crate::oauth1::{
    decimal_numeral, decimal_string, hex_numeral, hex_string, oauth1_header_text, pairs_view,
    sign_request,
};
use crate::store::{OAuth2Token, StoreModel, Token, TokenModel, TokenStore, TokenStoreError};
use vstd::prelude::*;

verus! {

/// Where the OAuth2 provider and the API are.
#[derive(Debug, Clone)]
pub struct Config {
    pub client_id: String,
    pub client_secret: String,
    pub redirect_uri: String,
    pub auth_url: String,
    pub token_url: String,
    pub api_base_url: String,
    pub info_url: String,
}

/// Why no header could be produced.
#[derive(Debug, Clone)]
pub enum AuthError {
    MissingEnvVar(&'static str),
    InvalidUrl(String),
    InvalidCode(String),
    InvalidToken(String),
    AuthorizationError(String),
    NetworkError(String),
    IoError(String),
    TokenNotFound(String),
    InvalidAuthType(String),
    WrongTokenFoundInStore,
    TokenStoreError(TokenStoreError),
}

impl AuthError {
    /// A copy of the error.
    pub fn duplicate(&self) -> (r: AuthError)
        ensures
            r == *self,
    {
        match self {
            AuthError::MissingEnvVar(m) => AuthError::MissingEnvVar(*m),
            AuthError::InvalidUrl(m) => AuthError::InvalidUrl(m.clone()),
            AuthError::InvalidCode(m) => AuthError::InvalidCode(m.clone()),
            AuthError::InvalidToken(m) => AuthError::InvalidToken(m.clone()),
            AuthError::AuthorizationError(m) => AuthError::AuthorizationError(m.clone()),
            AuthError::NetworkError(m) => AuthError::NetworkError(m.clone()),
            AuthError::IoError(m) => AuthError::IoError(m.clone()),
            AuthError::TokenNotFound(m) => AuthError::TokenNotFound(m.clone()),
            AuthError::InvalidAuthType(m) => AuthError::InvalidAuthType(m.clone()),
            AuthError::WrongTokenFoundInStore => AuthError::WrongTokenFoundInStore,
            AuthError::TokenStoreError(e) => AuthError::TokenStoreError(*e),
        }
    }
}

/// Seconds an OAuth2 access token lives when the provider does not say.
pub const DEFAULT_EXPIRES_IN: u64 = 7200;

/// An OAuth2 access token is expired from its expiration second on.
pub open spec fn is_expired(now: u64, expiration_time: u64) -> bool {
    now >= expiration_time
}

/// The view of an optional borrowed text.
pub open spec fn opt_str(s: Option<&str>) -> Option<Seq<char>> {
    match s {
        Some(s) => Some(s@),
        None => None,
    }
}

/// `Bearer ` and the token.
pub open spec fn bearer_text(token: Seq<char>) -> Seq<char> {
    seq!['B', 'e', 'a', 'r', 'e', 'r', ' '] + token
}

/// Whether the OAuth2 entry stored at `expiration_time` is expired at `now`.
pub fn token_expired(now: u64, expiration_time: u64) -> (r: bool)
    ensures
        r == is_expired(now, expiration_time),
{
    now >= expiration_time
}

/// `Bearer ` and the token, as the header value of the bearer schemes.
pub fn bearer_header(token: &str) -> (r: String)
    ensures
        r@ == bearer_text(token@),
{
    let mut r = String::from_str("Bearer ");
    proof {
        reveal_strlit("Bearer ");
        assert(r@ =~= seq!['B', 'e', 'a', 'r', 'e', 'r', ' ']);
    }
    r.append(token);
    r
}

/// The credential store and the OAuth2 client settings of one invocation.
pub struct Auth {
    pub token_store: TokenStore,
    pub info_url: String,
    pub client_id: String,
    pub client_secret: String,
    pub auth_url: String,
    pub token_url: String,
    pub redirect_uri: String,
}

/// The extra signing parameters as text pairs; none when absent.
pub open spec fn extra_view(extra: Option<Vec<(String, String)>>) -> Seq<(Seq<char>, Seq<char>)> {
    match extra {
        Some(v) => pairs_view(v@),
        None => Seq::empty(),
    }
}

/// What to do with the OAuth2 identity of a request.
pub enum OAuth2Next {
    /// The stored access token is valid: use it.
    Token(String),
    /// The stored access token of this username is expired: refresh it.
    Refresh(String),
    /// No stored identity is asked for: run the interactive flow.
    Authorize,
}

/// What the caller does next to obtain the header of a request.
pub enum HeaderAction {
    /// The header value is ready.
    Ready(String),
    /// Refresh the OAuth2 entry of this username, then send `Bearer <token>`.
    Refresh(String),
    /// Run the interactive OAuth2 flow, then send `Bearer <token>`.
    Authorize,
}

/// What is done with the stored OAuth2 entry `entry` of `username` at `now`:
/// refresh it when expired, else use its access token.
pub open spec fn entry_next(username: Seq<char>, entry: crate::store::OAuth2Model, now: u64, r: OAuth2Next) -> bool {
    if is_expired(now, entry.expiration_time) {
        r is Refresh && r->Refresh_0@ == username
    } else {
        r is Token && r->Token_0@ == entry.access_token
    }
}

/// The header step for the stored OAuth2 entry of `username` at `now`.
pub open spec fn entry_action(username: Seq<char>, entry: crate::store::OAuth2Model, now: u64, r: HeaderAction) -> bool {
    if is_expired(now, entry.expiration_time) {
        r is Refresh && r->Refresh_0@ == username
    } else {
        r is Ready && r->Ready_0@ == bearer_text(entry.access_token)
    }
}

/// The step for some stored OAuth2 identity; which one is not specified.
pub open spec fn some_entry_action(m: StoreModel, now: u64, r: HeaderAction) -> bool {
    exists|u: Seq<char>| #[trigger] m.oauth2.contains_key(u) && entry_action(u, m.oauth2[u], now, r)
}

impl Auth {
    /// Settings from `config`, with an empty credential store.
    pub fn new(config: Config) -> (r: Auth)
        ensures
            r.token_store@ == StoreModel::empty(),
            r.info_url == config.info_url,
            r.client_id == config.client_id,
            r.client_secret == config.client_secret,
            r.auth_url == config.auth_url,
            r.token_url == config.token_url,
            r.redirect_uri == config.redirect_uri,
    {
        Auth {
            token_store: TokenStore::empty(),
            info_url: config.info_url,
            client_id: config.client_id,
            client_secret: config.client_secret,
            auth_url: config.auth_url,
            token_url: config.token_url,
            redirect_uri: config.redirect_uri,
        }
    }

    /// The same settings with `token_store` as the credential store.
    pub fn with_token_store(self, token_store: TokenStore) -> (r: Auth)
        ensures
            r == (Auth { token_store, ..self }),
    {
        Auth { token_store, ..self }
    }

    /// The credential store, for changes.
    pub fn get_token_store(&mut self) -> (r: &mut TokenStore)
        ensures
            *r == old(self).token_store,
            *final(self) == (Auth { token_store: *final(r), ..*old(self) }),
    {
        &mut self.token_store
    }

    /// The stored bearer token, if any.
    pub fn bearer_token(&self) -> (r: Option<String>)
        ensures
            match r {
                Some(t) => self.token_store@.bearer == Some(t@),
                None => self.token_store@.bearer is None,
            },
    {
        match self.token_store.get_bearer_token() {
            Some(Token::Bearer(t)) => Some(t),
            _ => None,
        }
    }

    /// The OAuth1 `Authorization` header of a request, signed with the stored
    /// credential set, the nonce written as lower-case hex and the timestamp
    /// in decimal. Fails with `TokenNotFound` when no set is stored.
    pub fn oauth1_with(
        &self,
        method: &str,
        url: &str,
        additional_params: Option<Vec<(String, String)>>,
        nonce: u64,
        timestamp: u64,
    ) -> (r: Result<String, AuthError>)
        ensures
            self.token_store@.oauth1 is None ==> r is Err && r->Err_0 is TokenNotFound,
            self.token_store@.oauth1 is Some ==> r is Ok && r->Ok_0@ == oauth1_header_text(
                method@,
                url@,
                self.token_store@.oauth1->0,
                hex_numeral(nonce as nat),
                decimal_numeral(timestamp as nat),
                extra_view(additional_params),
            ),
    {
        let creds = match self.token_store.get_oauth1_tokens() {
            Some(Token::OAuth1(t)) => t,
            Some(_) => {
                return Err(AuthError::InvalidToken(String::from_str("Invalid token type")));
            },
            None => {
                return Err(AuthError::TokenNotFound(String::from_str("No OAuth1 tokens found")));
            },
        };
        let n = hex_string(nonce);
        let t = decimal_string(timestamp);
        let extra = match additional_params {
            Some(v) => v,
            None => Vec::new(),
        };
        proof {
            assert(pairs_view(extra@) =~= extra_view(additional_params));
        }
        Ok(sign_request(method, url, &creds, n.as_str(), t.as_str(), &extra))
    }

    /// The OAuth1 `Authorization` header of a request, with a fresh random
    /// nonce and the current time. Fails with `TokenNotFound` when no
    /// credential set is stored, and with `InvalidToken` when the clock reads
    /// before the Unix epoch.
    pub fn oauth1(
        &self,
        method: &str,
        url: &str,
        additional_params: Option<Vec<(String, String)>>,
    ) -> (r: Result<String, AuthError>)
        ensures
            self.token_store@.oauth1 is None ==> r is Err && r->Err_0 is TokenNotFound,
            self.token_store@.oauth1 is Some ==> (r is Ok || (r is Err && r->Err_0 is InvalidToken)),
            r is Ok ==> exists|nonce: u64, timestamp: u64|
                r->Ok_0@ == oauth1_header_text(
                    method@,
                    url@,
                    self.token_store@.oauth1->0,
                    #[trigger] hex_numeral(nonce as nat),
                    #[trigger] decimal_numeral(timestamp as nat),
                    extra_view(additional_params),
                ),
    {
        if !self.token_store.has_oauth1_tokens() {
            return Err(AuthError::TokenNotFound(String::from_str("No OAuth1 tokens found")));
        }
        let nonce = random_u64();
        let timestamp = match unix_time_now() {
            Some(t) => t,
            None => {
                return Err(AuthError::InvalidToken(String::from_str("clock before the Unix epoch")));
            },
        };
        self.oauth1_with(method, url, additional_params, nonce, timestamp)
    }

    /// The next step for the OAuth2 token of `username` at `now`: the stored
    /// token, or a refresh when it is expired; `TokenNotFound` when the
    /// username has no entry. Without a username the interactive flow is
    /// next, which needs the client id and secret (`MissingEnvVar`).
    pub fn oauth2_next(&self, username: Option<&str>, now: u64) -> (r: Result<OAuth2Next, AuthError>)
        ensures
            match username {
                Some(u) => if self.token_store@.oauth2.contains_key(u@) {
                    r is Ok && entry_next(u@, self.token_store@.oauth2[u@], now, r->Ok_0)
                } else {
                    r is Err && r->Err_0 is TokenNotFound
                },
                None => if self.client_id@.len() == 0 || self.client_secret@.len() == 0 {
                    r is Err && r->Err_0 is MissingEnvVar
                } else {
                    r is Ok && r->Ok_0 is Authorize
                },
            },
    {
        match username {
            Some(u) => match self.token_store.get_oauth2_token(u) {
                Some(Token::OAuth2(t)) => {
                    proof {
                        assert(self.token_store@.get_oauth2(u@) == Some(TokenModel::OAuth2(t@)));
                        assert(self.token_store@.oauth2.contains_key(u@));
                        assert(t@ == self.token_store@.oauth2[u@]);
                    }
                    if token_expired(now, t.expiration_time) {
                        Ok(OAuth2Next::Refresh(u.to_owned()))
                    } else {
                        Ok(OAuth2Next::Token(t.access_token))
                    }
                },
                Some(_) => Err(AuthError::WrongTokenFoundInStore),
                None => Err(AuthError::TokenNotFound(String::from_str("No cached OAuth2 token found"))),
            },
            None => match self.check_client() {
                Ok(()) => Ok(OAuth2Next::Authorize),
                Err(e) => Err(e),
            },
        }
    }

    /// Fails with `MissingEnvVar` when the client id or secret is empty.
    pub fn check_client(&self) -> (r: Result<(), AuthError>)
        ensures
            r is Ok <==> (self.client_id@.len() > 0 && self.client_secret@.len() > 0),
            r is Err ==> r->Err_0 is MissingEnvVar,
    {
        if self.client_id.as_str().unicode_len() == 0 || self.client_secret.as_str().unicode_len() == 0 {
            Err(AuthError::MissingEnvVar("CLIENT_ID or CLIENT_SECRET"))
        } else {
            Ok(())
        }
    }
}


/// Whether the text `t` is the scheme name `name`.
fn is_scheme(t: &str, name: &str) -> (r: bool)
    ensures
        r == (t@ == name@),
{
    t.to_owned() == name.to_owned()
}

/// The header step for one stored OAuth2 entry at `now`.
fn entry_header(username: String, entry: OAuth2Token, now: u64) -> (r: HeaderAction)
    ensures
        entry_action(username@, entry@, now, r),
{
    if token_expired(now, entry.expiration_time) {
        HeaderAction::Refresh(username)
    } else {
        HeaderAction::Ready(bearer_header(entry.access_token.as_str()))
    }
}

/// The header decision for the store `m`: see [`Auth::resolve_header`].
pub open spec fn header_decision(
    m: StoreModel,
    method: Seq<char>,
    url: Seq<char>,
    auth_type: Option<Seq<char>>,
    username: Option<Seq<char>>,
    now: u64,
    nonce: u64,
    r: Result<HeaderAction, AuthError>,
) -> bool {
    let signed = oauth1_header_text(
        method,
        url,
        m.oauth1->0,
        hex_numeral(nonce as nat),
        decimal_numeral(now as nat),
        Seq::empty(),
    );
    match auth_type {
        None => if !m.oauth2.is_empty() {
            r is Ok && some_entry_action(m, now, r->Ok_0)
        } else if m.oauth1 is Some {
            r is Ok && r->Ok_0 is Ready && r->Ok_0->Ready_0@ == signed
        } else {
            r is Ok && r->Ok_0 is Authorize
        },
        Some(t) => if t == "app"@ {
            match m.bearer {
                Some(b) => r is Ok && r->Ok_0 is Ready && r->Ok_0->Ready_0@
                    == bearer_text(b),
                None => r is Err && r->Err_0 is TokenNotFound,
            }
        } else if t == "oauth2"@ {
            match username {
                Some(u) => if m.oauth2.contains_key(u) {
                    r is Ok && entry_action(u, m.oauth2[u], now, r->Ok_0)
                } else {
                    r is Err && r->Err_0 is TokenNotFound
                },
                None => if !m.oauth2.is_empty() {
                    r is Ok && some_entry_action(m, now, r->Ok_0)
                } else {
                    r is Ok && r->Ok_0 is Authorize
                },
            }
        } else if t == "oauth1"@ {
            if m.oauth1 is Some {
                r is Ok && r->Ok_0 is Ready && r->Ok_0->Ready_0@ == signed
            } else {
                r is Err && r->Err_0 is TokenNotFound
            }
        } else {
            r is Err && r->Err_0 is InvalidAuthType
        },
    }
}

impl Auth {
    /// The header step for some stored OAuth2 identity, or `None` when there
    /// is none.
    fn first_oauth2_action(&self, now: u64) -> (r: Option<HeaderAction>)
        ensures
            r is None <==> self.token_store@.oauth2.is_empty(),
            r is Some ==> some_entry_action(self.token_store@, now, r->0),
    {
        match self.token_store.first_oauth2_entry() {
            Some((u, t)) => {
                let ghost uv = u@;
                let a = entry_header(u, t, now);
                proof {
                    assert(self.token_store@.oauth2.contains_key(uv));
                }
                Some(a)
            },
            None => None,
        }
    }

    /// Decides the header of a request as [`Auth::resolve_header`] does, with a
    /// fresh random nonce and the current time. Fails with `InvalidToken` when
    /// the clock reads before the Unix epoch.
    pub fn auth_header_action(
        &self,
        method: &str,
        url: &str,
        auth_type: Option<&str>,
        username: Option<&str>,
    ) -> (r: Result<HeaderAction, AuthError>)
        ensures
            (r is Err && r->Err_0 is InvalidToken) || exists|now: u64, nonce: u64|
                header_decision(
                    self.token_store@,
                    method@,
                    url@,
                    opt_str(auth_type),
                    opt_str(username),
                    now,
                    nonce,
                    r,
                ),
    {
        let now = match unix_time_now() {
            Some(t) => t,
            None => {
                return Err(AuthError::InvalidToken(String::from_str("clock before the Unix epoch")));
            },
        };
        let nonce = random_u64();
        self.resolve_header(method, url, auth_type, username, now, nonce)
    }

    /// Decides the `Authorization` header of a request at `now`, signing
    /// with `nonce` where OAuth1 is used.
    ///
    /// With a scheme: `app` takes the bearer token, `oauth2` the identity
    /// `username` (or some stored identity, or else the interactive flow),
    /// `oauth1` signs with the stored set; a missing credential is
    /// `TokenNotFound`, another scheme `InvalidAuthType`. Without one: some
    /// stored OAuth2 identity, else the OAuth1 set, else the interactive flow.
    /// An expired OAuth2 token is refreshed, never used.
    pub fn resolve_header(
        &self,
        method: &str,
        url: &str,
        auth_type: Option<&str>,
        username: Option<&str>,
        now: u64,
        nonce: u64,
    ) -> (r: Result<HeaderAction, AuthError>)
        ensures
            header_decision(
                self.token_store@,
                method@,
                url@,
                opt_str(auth_type),
                opt_str(username),
                now,
                nonce,
                r,
            ),
    {
        match auth_type {
            None => {
                if let Some(a) = self.first_oauth2_action(now) {
                    return Ok(a);
                }
                if self.token_store.has_oauth1_tokens() {
                    match self.oauth1_with(method, url, None, nonce, now) {
                        Ok(h) => Ok(HeaderAction::Ready(h)),
                        Err(e) => Err(e),
                    }
                } else {
                    Ok(HeaderAction::Authorize)
                }
            },
            Some(t) => {
                if is_scheme(t, "app") {
                    match self.bearer_token() {
                        Some(b) => Ok(HeaderAction::Ready(bearer_header(b.as_str()))),
                        None => Err(AuthError::TokenNotFound(String::from_str("No bearer token found"))),
                    }
                } else if is_scheme(t, "oauth2") {
                    match username {
                        Some(u) => match self.token_store.get_oauth2_token(u) {
                            Some(Token::OAuth2(e)) => {
                                proof {
                                    assert(self.token_store@.get_oauth2(u@) == Some(TokenModel::OAuth2(e@)));
                                }
                                Ok(entry_header(u.to_owned(), e, now))
                            },
                            Some(_) => Err(AuthError::WrongTokenFoundInStore),
                            None => Err(AuthError::TokenNotFound(String::from_str("No cached OAuth2 token found"))),
                        },
                        None => match self.first_oauth2_action(now) {
                            Some(a) => Ok(a),
                            None => Ok(HeaderAction::Authorize),
                        },
                    }
                } else if is_scheme(t, "oauth1") {
                    match self.oauth1_with(method, url, None, nonce, now) {
                        Ok(h) => Ok(HeaderAction::Ready(h)),
                        Err(e) => Err(e),
                    }
                } else {
                    Err(AuthError::InvalidAuthType(String::from_str("Invalid auth type")))
                }
            },
        }
    }
}


/// How an exchange at the token endpoint failed.
pub enum ExchangeFailure {
    /// The provider answered with an error.
    ServerResponse(String),
    /// The request did not complete.
    Request(String),
    /// Anything else, such as an unreadable answer.
    Other(String),
}

/// The expiration second of a token issued at `now` that lives `expires_in`
/// seconds, or the default lifetime when the provider gave none; capped at
/// the largest `u64`.
pub open spec fn expiration_of(now: u64, expires_in: Option<u64>) -> u64 {
    let life: int = match expires_in {
        Some(e) => e as int,
        None => DEFAULT_EXPIRES_IN as int,
    };
    if now + life > u64::MAX {
        u64::MAX
    } else {
        (now + life) as u64
    }
}

/// The expiration second of a token issued at `now` with lifetime `expires_in`.
pub fn expiration_time(now: u64, expires_in: Option<u64>) -> (r: u64)
    ensures
        r == expiration_of(now, expires_in),
{
    let life = match expires_in {
        Some(e) => e,
        None => DEFAULT_EXPIRES_IN,
    };
    now.saturating_add(life)
}

/// The error of a failed exchange: `AuthorizationError` when the provider
/// refused, `NetworkError` when the request failed, else `InvalidToken`.
pub fn exchange_error(failure: ExchangeFailure) -> (r: AuthError)
    ensures
        match failure {
            ExchangeFailure::ServerResponse(m) => r == AuthError::AuthorizationError(m),
            ExchangeFailure::Request(m) => r == AuthError::NetworkError(m),
            ExchangeFailure::Other(m) => r == AuthError::InvalidToken(m),
        },
{
    match failure {
        ExchangeFailure::ServerResponse(m) => AuthError::AuthorizationError(m),
        ExchangeFailure::Request(m) => AuthError::NetworkError(m),
        ExchangeFailure::Other(m) => AuthError::InvalidToken(m),
    }
}

/// The username read from the identity endpoint's answer; a missing field
/// is a `NetworkError`.
pub fn identity_username(found: Option<String>) -> (r: Result<String, AuthError>)
    ensures
        match found {
            Some(u) => r == Ok::<String, AuthError>(u),
            None => r is Err && r->Err_0 is NetworkError,
        },
{
    match found {
        Some(u) => Ok(u),
        None => Err(AuthError::NetworkError(String::from_str("Missing username field"))),
    }
}

impl Auth {
    /// The refresh token to exchange: that of `username`, or of some stored
    /// identity when none is named. `TokenNotFound` when there is no such entry.
    pub fn refresh_token_of(&self, username: Option<&str>) -> (r: Result<String, AuthError>)
        ensures
            ({
                let m = self.token_store@;
                match username {
                    Some(u) => if m.oauth2.contains_key(u@) {
                        r is Ok && r->Ok_0@ == m.oauth2[u@].refresh_token
                    } else {
                        r is Err && r->Err_0 is TokenNotFound
                    },
                    None => if m.oauth2.is_empty() {
                        r is Err && r->Err_0 is TokenNotFound
                    } else {
                        r is Ok && exists|k: Seq<char>|
                            #[trigger] m.oauth2.contains_key(k) && r->Ok_0@ == m.oauth2[k].refresh_token
                    },
                }
            }),
    {
        match username {
            Some(u) => match self.token_store.get_oauth2_token(u) {
                Some(Token::OAuth2(t)) => {
                    proof {
                        assert(self.token_store@.get_oauth2(u@) == Some(TokenModel::OAuth2(t@)));
                    }
                    Ok(t.refresh_token)
                },
                Some(_) => Err(AuthError::WrongTokenFoundInStore),
                None => Err(AuthError::TokenNotFound(String::from_str("No cached OAuth2 token found"))),
            },
            None => match self.token_store.first_oauth2_entry() {
                Some((u, t)) => {
                    proof {
                        assert(self.token_store@.oauth2.contains_key(u@));
                    }
                    Ok(t.refresh_token)
                },
                None => Err(AuthError::TokenNotFound(String::from_str("No OAuth2 tokens found"))),
            },
        }
    }

    /// Stores the tokens that the provider issued at `now` for `username`.
    /// Without a refresh token nothing is stored and the result is
    /// `RefreshTokenNotFound`.
    pub fn save_token_data(
        &mut self,
        username: &str,
        access_token: &str,
        refresh_token: Option<&str>,
        expires_in: Option<u64>,
        now: u64,
    ) -> (r: Result<(), TokenStoreError>)
        ensures
            match refresh_token {
                Some(rt) => r is Ok && final(self).token_store@ == old(self).token_store@.put_oauth2(
                    username@,
                    crate::store::OAuth2Model {
                        access_token: access_token@,
                        refresh_token: rt@,
                        expiration_time: expiration_of(now, expires_in),
                    },
                ),
                None => r == Err::<(), TokenStoreError>(TokenStoreError::RefreshTokenNotFound)
                    && final(self).token_store@ == old(self).token_store@,
            },
            final(self).client_id == old(self).client_id,
            final(self).client_secret == old(self).client_secret,
    {
        match refresh_token {
            Some(rt) => {
                let exp = expiration_time(now, expires_in);
                self.token_store.save_oauth2_token(username, access_token, rt, exp);
                Ok(())
            },
            None => Err(TokenStoreError::RefreshTokenNotFound),
        }
    }
}


/// The scopes asked for in the authorization request: every read and write
/// scope of the API, and offline access for a refresh token.
pub open spec fn scope_names() -> Seq<Seq<char>> {
    seq![
        "block.read"@,
        "bookmark.read"@,
        "dm.read"@,
        "follows.read"@,
        "like.read"@,
        "list.read"@,
        "mute.read"@,
        "space.read"@,
        "tweet.read"@,
        "timeline.read"@,
        "users.read"@,
        "block.write"@,
        "bookmark.write"@,
        "dm.write"@,
        "follows.write"@,
        "like.write"@,
        "list.write"@,
        "mute.write"@,
        "tweet.write"@,
        "tweet.moderate.write"@,
        "timeline.write"@,
        "media.write"@,
        "offline.access"@,
    ]
}

/// The scopes asked for in the authorization request, in order.
pub fn oauth2_scopes() -> (r: Vec<String>)
    ensures
        r@.map_values(|s: String| s@) == scope_names(),
{
    let mut r: Vec<String> = Vec::new();
    r.push(String::from_str("block.read"));
    r.push(String::from_str("bookmark.read"));
    r.push(String::from_str("dm.read"));
    r.push(String::from_str("follows.read"));
    r.push(String::from_str("like.read"));
    r.push(String::from_str("list.read"));
    r.push(String::from_str("mute.read"));
    r.push(String::from_str("space.read"));
    r.push(String::from_str("tweet.read"));
    r.push(String::from_str("timeline.read"));
    r.push(String::from_str("users.read"));
    r.push(String::from_str("block.write"));
    r.push(String::from_str("bookmark.write"));
    r.push(String::from_str("dm.write"));
    r.push(String::from_str("follows.write"));
    r.push(String::from_str("like.write"));
    r.push(String::from_str("list.write"));
    r.push(String::from_str("mute.write"));
    r.push(String::from_str("tweet.write"));
    r.push(String::from_str("tweet.moderate.write"));
    r.push(String::from_str("timeline.write"));
    r.push(String::from_str("media.write"));
    r.push(String::from_str("offline.access"));
    proof {
        assert(r@.map_values(|s: String| s@) =~= scope_names());
    }
    r
}

/// An OAuth2 entry is expired at its expiration second and not one second
/// before it; an expired entry is refreshed, an unexpired one used as it is.
pub proof fn law_expiry_boundary(username: Seq<char>, entry: crate::store::OAuth2Model, r: HeaderAction)
    requires
        entry.expiration_time > 0,
    ensures
        is_expired(entry.expiration_time, entry.expiration_time),
        !is_expired((entry.expiration_time - 1) as u64, entry.expiration_time),
        entry_action(username, entry, entry.expiration_time, r) ==> r is Refresh,
        entry_action(username, entry, (entry.expiration_time - 1) as u64, r) ==> r is Ready,
{
}

/// Without a scheme, with no OAuth2 identity stored but an OAuth1 set, the
/// header is the OAuth1 signature of the request: the interactive flow is
/// not started.
pub proof fn law_auto_mode_falls_back_to_oauth1(
    m: StoreModel,
    method: Seq<char>,
    url: Seq<char>,
    username: Option<Seq<char>>,
    now: u64,
    nonce: u64,
    r: Result<HeaderAction, AuthError>,
)
    requires
        m.oauth2.is_empty(),
        m.oauth1 is Some,
        header_decision(m, method, url, None, username, now, nonce, r),
    ensures
        r is Ok,
        !(r->Ok_0 is Authorize),
        r->Ok_0 is Ready && r->Ok_0->Ready_0@ == oauth1_header_text(
            method,
            url,
            m.oauth1->0,
            hex_numeral(nonce as nat),
            decimal_numeral(now as nat),
            Seq::empty(),
        ),
{
}

/// Asking for the `app` scheme with no bearer token stored fails with
/// `TokenNotFound`, not with `InvalidAuthType`.
pub proof fn law_app_scheme_without_bearer(
    m: StoreModel,
    method: Seq<char>,
    url: Seq<char>,
    username: Option<Seq<char>>,
    now: u64,
    nonce: u64,
    r: Result<HeaderAction, AuthError>,
)
    requires
        m.bearer is None,
        header_decision(m, method, url, Some("app"@), username, now, nonce, r),
    ensures
        r is Err,
        r->Err_0 is TokenNotFound,
        !(r->Err_0 is InvalidAuthType),
{
}

/// Relies on rand::random: a value drawn from the thread-local generator;
/// nothing is promised of it.
#[verifier::external_body]
fn random_u64() -> u64 {
    rand::random::<u64>()
}

/// Relies on SystemTime::elapsed of UNIX_EPOCH: the whole seconds since the
/// Unix epoch, or `None` when the clock reads before it.
#[verifier::external_body]
fn unix_time_now() -> Option<u64> {
    std::time::UNIX_EPOCH.elapsed().ok().map(|d| d.as_secs())
}

} // verus!
