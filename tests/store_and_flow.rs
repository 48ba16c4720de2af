use xurl::auth::{
    bearer_header, exchange_error, expiration_time, identity_username, oauth2_scopes,
    token_expired, Auth, AuthError, Config, ExchangeFailure, HeaderAction, OAuth2Next,
    DEFAULT_EXPIRES_IN,
};
use xurl::flow::{FlowAction, FlowEvent, FlowState, Grant};
use xurl::listener::{check_bound, confirmation_body, CodeSlot};
use xurl::request::{parse_header_line, request_url};
use xurl::store::{Token, TokenStore, TokenStoreError};

fn config() -> Config {
    Config {
        client_id: "id".to_string(),
        client_secret: "secret".to_string(),
        redirect_uri: "http://localhost:8080/callback".to_string(),
        auth_url: "https://x.com/i/oauth2/authorize".to_string(),
        token_url: "https://api.x.com/2/oauth2/token".to_string(),
        api_base_url: "https://api.x.com".to_string(),
        info_url: "https://api.x.com/2/users/me".to_string(),
    }
}

fn access_of(t: Option<Token>) -> Option<(String, String, u64)> {
    match t {
        Some(Token::OAuth2(t)) => Some((t.access_token, t.refresh_token, t.expiration_time)),
        _ => None,
    }
}

#[test]
fn oauth2_entry_round_trip() {
    let mut store = TokenStore::empty();
    store.save_oauth2_token("alice", "a1", "r1", 100);
    store.save_oauth2_token("bob", "b1", "s1", 200);
    assert_eq!(access_of(store.get_oauth2_token("alice")), Some(("a1".into(), "r1".into(), 100)));
    store.save_oauth2_token("alice", "a2", "r2", 300);
    assert_eq!(access_of(store.get_oauth2_token("alice")), Some(("a2".into(), "r2".into(), 300)));
    assert_eq!(access_of(store.get_oauth2_token("bob")), Some(("b1".into(), "s1".into(), 200)));
    assert_eq!(store.get_oauth2_usernames().len(), 2);
    assert!(store.get_oauth2_token("carol").is_none());
}

#[test]
fn clearing_one_identity_keeps_the_others() {
    let mut store = TokenStore::empty();
    store.save_oauth2_token("alice", "a1", "r1", 100);
    store.save_oauth2_token("bob", "b1", "s1", 200);
    store.clear_oauth2_token("alice");
    assert!(store.get_oauth2_token("alice").is_none());
    assert!(store.get_oauth2_token("bob").is_some());
    assert_eq!(store.get_oauth2_usernames(), vec!["bob".to_string()]);
    assert!(access_of(store.get_first_oauth2_token()).is_some());
}

#[test]
fn single_slots_replace_and_clear() {
    let mut store = TokenStore::empty();
    assert!(store.get_bearer_token().is_none());
    store.save_bearer_token("t1");
    store.save_bearer_token("t2");
    assert!(matches!(store.get_bearer_token(), Some(Token::Bearer(t)) if t == "t2"));
    store.save_oauth1_tokens("a".into(), "b".into(), "c".into(), "d".into());
    assert!(store.has_oauth1_tokens());
    assert!(matches!(store.get_oauth1_tokens(), Some(Token::OAuth1(t)) if t.consumer_key == "c"));
    store.clear_oauth1_tokens();
    assert!(!store.has_oauth1_tokens());
    store.clear_bearer_token();
    assert!(store.get_bearer_token().is_none());
}

#[test]
fn clear_all_leaves_nothing() {
    let mut store = TokenStore::empty();
    store.save_oauth2_token("alice", "a1", "r1", 100);
    store.save_bearer_token("t");
    store.save_oauth1_tokens("a".into(), "b".into(), "c".into(), "d".into());
    store.clear_all();
    assert!(store.get_oauth2_token("alice").is_none());
    assert!(store.get_first_oauth2_token().is_none());
    assert!(store.get_oauth1_tokens().is_none());
    assert!(store.get_bearer_token().is_none());
    assert!(store.get_oauth2_usernames().is_empty());
}

#[test]
fn expiration_boundary() {
    assert!(token_expired(1000, 1000));
    assert!(!token_expired(1000, 1001));
    let mut auth = Auth::new(config());
    auth.get_token_store().save_oauth2_token("alice", "a1", "r1", 1000);
    match auth.resolve_header("GET", "u", Some("oauth2"), Some("alice"), 1000, 0) {
        Ok(HeaderAction::Refresh(u)) => assert_eq!(u, "alice"),
        _ => panic!("expected a refresh"),
    }
    match auth.resolve_header("GET", "u", Some("oauth2"), Some("alice"), 999, 0) {
        Ok(HeaderAction::Ready(h)) => assert_eq!(h, "Bearer a1"),
        _ => panic!("expected the stored token"),
    }
    assert!(matches!(auth.oauth2_next(Some("alice"), 1000), Ok(OAuth2Next::Refresh(u)) if u == "alice"));
    assert!(matches!(auth.oauth2_next(Some("alice"), 999), Ok(OAuth2Next::Token(t)) if t == "a1"));
}

#[test]
fn app_scheme_without_bearer_is_token_not_found() {
    let auth = Auth::new(config());
    assert!(matches!(
        auth.resolve_header("GET", "u", Some("app"), None, 0, 0),
        Err(AuthError::TokenNotFound(_))
    ));
}

#[test]
fn app_scheme_with_bearer() {
    let mut auth = Auth::new(config());
    auth.get_token_store().save_bearer_token("fake_token");
    match auth.resolve_header("GET", "u", Some("app"), None, 0, 0) {
        Ok(HeaderAction::Ready(h)) => assert_eq!(h, "Bearer fake_token"),
        _ => panic!("expected a bearer header"),
    }
    assert_eq!(auth.bearer_token(), Some("fake_token".to_string()));
    assert_eq!(bearer_header("x"), "Bearer x");
}

#[test]
fn unknown_scheme_is_invalid_auth_type() {
    let auth = Auth::new(config());
    assert!(matches!(
        auth.resolve_header("GET", "u", Some("basic"), None, 0, 0),
        Err(AuthError::InvalidAuthType(_))
    ));
}

#[test]
fn auto_mode_order() {
    let mut auth = Auth::new(config());
    assert!(matches!(auth.resolve_header("GET", "u", None, None, 5, 0), Ok(HeaderAction::Authorize)));
    auth.get_token_store().save_oauth1_tokens("a".into(), "b".into(), "c".into(), "d".into());
    assert!(matches!(
        auth.resolve_header("GET", "u", None, None, 5, 0),
        Ok(HeaderAction::Ready(h)) if h.starts_with("OAuth ")
    ));
    auth.get_token_store().save_oauth2_token("alice", "a1", "r1", 10);
    assert!(matches!(
        auth.resolve_header("GET", "u", None, None, 5, 0),
        Ok(HeaderAction::Ready(h)) if h == "Bearer a1"
    ));
    assert!(matches!(
        auth.resolve_header("GET", "u", None, None, 10, 0),
        Ok(HeaderAction::Refresh(u)) if u == "alice"
    ));
}

#[test]
fn oauth2_scheme_cases() {
    let mut auth = Auth::new(config());
    assert!(matches!(
        auth.resolve_header("GET", "u", Some("oauth2"), Some("nobody"), 0, 0),
        Err(AuthError::TokenNotFound(_))
    ));
    assert!(matches!(
        auth.resolve_header("GET", "u", Some("oauth2"), None, 0, 0),
        Ok(HeaderAction::Authorize)
    ));
    auth.get_token_store().save_oauth2_token("bob", "b1", "s1", 50);
    assert!(matches!(
        auth.resolve_header("GET", "u", Some("oauth2"), None, 0, 0),
        Ok(HeaderAction::Ready(h)) if h == "Bearer b1"
    ));
    assert!(matches!(auth.refresh_token_of(Some("bob")), Ok(r) if r == "s1"));
    assert!(matches!(auth.refresh_token_of(None), Ok(r) if r == "s1"));
    assert!(matches!(auth.refresh_token_of(Some("x")), Err(AuthError::TokenNotFound(_))));
}

#[test]
fn interactive_flow_needs_client_credentials() {
    let mut c = config();
    c.client_secret = String::new();
    let auth = Auth::new(c);
    assert!(matches!(auth.oauth2_next(None, 0), Err(AuthError::MissingEnvVar(_))));
    assert!(matches!(Auth::new(config()).oauth2_next(None, 0), Ok(OAuth2Next::Authorize)));
    assert!(matches!(Auth::new(config()).oauth2_next(Some("x"), 0), Err(AuthError::TokenNotFound(_))));
}

#[test]
fn saving_issued_tokens() {
    let mut auth = Auth::new(config());
    assert_eq!(
        auth.save_token_data("alice", "a1", None, Some(60), 1000),
        Err(TokenStoreError::RefreshTokenNotFound)
    );
    assert!(auth.get_token_store().get_oauth2_token("alice").is_none());
    assert_eq!(auth.save_token_data("alice", "a1", Some("r1"), Some(60), 1000), Ok(()));
    assert_eq!(access_of(auth.get_token_store().get_oauth2_token("alice")), Some(("a1".into(), "r1".into(), 1060)));
    assert_eq!(auth.save_token_data("alice", "a2", Some("r2"), None, 1000), Ok(()));
    assert_eq!(access_of(auth.get_token_store().get_oauth2_token("alice")), Some(("a2".into(), "r2".into(), 8200)));
}

#[test]
fn expiration_defaults_and_saturates() {
    assert_eq!(DEFAULT_EXPIRES_IN, 7200);
    assert_eq!(expiration_time(100, None), 7300);
    assert_eq!(expiration_time(100, Some(5)), 105);
    assert_eq!(expiration_time(u64::MAX - 1, Some(5)), u64::MAX);
}

#[test]
fn exchange_errors_and_identity() {
    assert!(matches!(exchange_error(ExchangeFailure::ServerResponse("x".into())), AuthError::AuthorizationError(m) if m == "x"));
    assert!(matches!(exchange_error(ExchangeFailure::Request("y".into())), AuthError::NetworkError(m) if m == "y"));
    assert!(matches!(exchange_error(ExchangeFailure::Other("z".into())), AuthError::InvalidToken(m) if m == "z"));
    assert!(matches!(identity_username(Some("alice".into())), Ok(u) if u == "alice"));
    assert!(matches!(identity_username(None), Err(AuthError::NetworkError(_))));
}

#[test]
fn scopes() {
    let s = oauth2_scopes();
    assert_eq!(s.len(), 23);
    assert_eq!(s[0], "block.read");
    assert_eq!(s[22], "offline.access");
    assert!(s.contains(&"tweet.moderate.write".to_string()));
}

#[test]
fn callback_delivers_the_code_once() {
    let mut slot = CodeSlot::new();
    assert_eq!(slot.offer(None), None);
    assert!(!slot.is_delivered());
    assert_eq!(slot.offer(Some("abc123".to_string())), Some("abc123".to_string()));
    assert!(slot.is_delivered());
    assert_eq!(slot.offer(Some("second".to_string())), None);
    assert_eq!(slot.offer(None), None);
    assert_eq!(confirmation_body(), "Authorization successful! You can close this window.");
}

#[test]
fn binding_needs_one_address() {
    assert!(check_bound(true, false, 8080).is_ok());
    assert!(check_bound(false, true, 8080).is_ok());
    assert!(matches!(check_bound(false, false, 8080), Err(AuthError::InvalidCode(m)) if m == "Failed to bind to any address on port 8080"));
}

#[test]
fn request_urls_and_header_lines() {
    assert_eq!(request_url("https://api.x.com", "/2/users/me"), "https://api.x.com/2/users/me");
    assert_eq!(request_url("https://api.x.com", "2/users/me"), "https://api.x.com/2/users/me");
    assert_eq!(request_url("https://api.x.com", ""), "https://api.x.com/");
    assert_eq!(
        parse_header_line(" Content-Type : application/json "),
        Some(("Content-Type".to_string(), "application/json".to_string()))
    );
    assert_eq!(
        parse_header_line("X-Time: 10:30"),
        Some(("X-Time".to_string(), "10:30".to_string()))
    );
    assert_eq!(parse_header_line("no colon here"), None);
}

fn grant(access: &str, refresh: Option<&str>, expires_in: Option<u64>) -> Grant {
    Grant {
        access_token: access.to_string(),
        refresh_token: refresh.map(String::from),
        expires_in,
    }
}

#[test]
fn interactive_flow_runs_through_its_states() {
    let mut auth = Auth::new(config());
    let (s, a) = auth.flow_step(FlowState::Idle, FlowEvent::Begin, 0);
    assert!(matches!(s, FlowState::AwaitingUserConsent) && matches!(a, FlowAction::OpenBrowser));
    let (s, a) = auth.flow_step(s, FlowEvent::BrowserOpened, 0);
    assert!(matches!(s, FlowState::AwaitingRedirect) && matches!(a, FlowAction::AwaitRedirect));
    let (s, a) = auth.flow_step(s, FlowEvent::CodeReceived("abc123".to_string()), 0);
    assert!(matches!(a, FlowAction::ExchangeCode(ref c) if c == "abc123"));
    let (s, a) = auth.flow_step(s, FlowEvent::Granted(grant("at", Some("rt"), None)), 0);
    assert!(matches!(a, FlowAction::FetchIdentity(ref t) if t == "at"));
    let (s, a) = auth.flow_step(s, FlowEvent::Identity(Some("alice".to_string())), 1000);
    assert!(matches!(a, FlowAction::WriteStore));
    assert_eq!(
        access_of(auth.get_token_store().get_oauth2_token("alice")),
        Some(("at".into(), "rt".into(), 8200))
    );
    let (s, a) = auth.flow_step(s, FlowEvent::Persisted, 1000);
    assert!(matches!(s, FlowState::Done(ref t) if t == "at"));
    assert!(matches!(a, FlowAction::Finish(ref t) if t == "at"));
}

#[test]
fn flow_failures() {
    let mut c = config();
    c.client_id = String::new();
    let mut auth = Auth::new(c);
    let (_, a) = auth.flow_step(FlowState::Idle, FlowEvent::Begin, 0);
    assert!(matches!(a, FlowAction::Stop(AuthError::MissingEnvVar(_))));

    let mut auth = Auth::new(config());
    let (_, a) = auth.flow_step(
        FlowState::FetchingIdentity(grant("at", Some("rt"), None)),
        FlowEvent::Identity(None),
        0,
    );
    assert!(matches!(a, FlowAction::Stop(AuthError::NetworkError(_))));
    let (_, a) = auth.flow_step(
        FlowState::FetchingIdentity(grant("at", None, None)),
        FlowEvent::Identity(Some("alice".to_string())),
        0,
    );
    assert!(matches!(
        a,
        FlowAction::Stop(AuthError::TokenStoreError(TokenStoreError::RefreshTokenNotFound))
    ));
    assert!(auth.get_token_store().get_oauth2_token("alice").is_none());
    let (_, a) = auth.flow_step(FlowState::AwaitingRedirect, FlowEvent::Persisted, 0);
    assert!(matches!(a, FlowAction::Stop(AuthError::InvalidToken(_))));
    let (s, a) = auth.flow_step(
        FlowState::AwaitingRedirect,
        FlowEvent::Failure(AuthError::InvalidCode("gone".to_string())),
        0,
    );
    assert!(matches!(s, FlowState::Failed(AuthError::InvalidCode(_))));
    assert!(matches!(a, FlowAction::Stop(AuthError::InvalidCode(ref m)) if m == "gone"));
}

#[test]
fn refresh_path_starts_at_the_exchange() {
    let mut auth = Auth::new(config());
    let (_, a) = auth.refresh_step(None);
    assert!(matches!(a, FlowAction::Stop(AuthError::TokenNotFound(_))));
    auth.get_token_store().save_oauth2_token("alice", "a1", "r1", 10);
    let (s, a) = auth.refresh_step(Some("alice"));
    assert!(matches!(s, FlowState::ExchangingCode));
    assert!(matches!(a, FlowAction::ExchangeRefreshToken(ref r) if r == "r1"));
    let (_, a) = auth.flow_step(s, FlowEvent::Granted(grant("a2", Some("r2"), Some(60))), 100);
    assert!(matches!(a, FlowAction::FetchIdentity(ref t) if t == "a2"));
}
