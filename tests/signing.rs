use xurl::auth::{Auth, AuthError, Config, HeaderAction};
use xurl::oauth1::{
    authorization_header, base_string, decimal_string, encode, generate_signature, hex_string,
    insert_param, parameter_string, sign_request, signing_key, str_lt,
};
use xurl::store::OAuth1Token;

fn creds(consumer_key: &str, consumer_secret: &str, token: &str, secret: &str) -> OAuth1Token {
    OAuth1Token {
        access_token: token.to_string(),
        token_secret: secret.to_string(),
        consumer_key: consumer_key.to_string(),
        consumer_secret: consumer_secret.to_string(),
    }
}

fn config() -> Config {
    Config {
        client_id: "id".to_string(),
        client_secret: "secret".to_string(),
        redirect_uri: "http://localhost:8080/callback".to_string(),
        auth_url: "https://x.com/i/oauth2/authorize".to_string(),
        token_url: "https://api.x.com/2/oauth2/token".to_string(),
        api_base_url: "https://api.x.com".to_string(),
        info_url: "https://api.x.com/2/users/me".to_string(),
    }
}

fn example_params() -> Vec<(String, String)> {
    let mut ps = Vec::new();
    for (k, v) in [
        ("oauth_consumer_key", "consumer_key"),
        ("oauth_nonce", "ff"),
        ("oauth_signature_method", "HMAC-SHA1"),
        ("oauth_timestamp", "1700000000"),
        ("oauth_token", "access_token"),
        ("oauth_version", "1.0"),
    ] {
        ps.push((k.to_string(), v.to_string()));
    }
    ps
}

#[test]
fn encode_keeps_unreserved_and_escapes_the_rest() {
    assert_eq!(encode("AZaz09-._~"), "AZaz09-._~");
    assert_eq!(
        encode("Hello Ladies + Gentlemen, a signed OAuth request!"),
        "Hello%20Ladies%20%2B%20Gentlemen%2C%20a%20signed%20OAuth%20request%21"
    );
    assert_eq!(encode("é/"), "%C3%A9%2F");
    assert_eq!(encode(""), "");
}

#[test]
fn numerals() {
    assert_eq!(hex_string(0), "0");
    assert_eq!(hex_string(255), "ff");
    assert_eq!(hex_string(u64::MAX), "ffffffffffffffff");
    assert_eq!(decimal_string(0), "0");
    assert_eq!(decimal_string(1318622958), "1318622958");
}

#[test]
fn text_order_is_code_point_order() {
    assert!(str_lt("oauth_nonce", "oauth_token"));
    assert!(str_lt("oauth", "oauth_"));
    assert!(!str_lt("oauth_", "oauth"));
    assert!(!str_lt("same", "same"));
    assert!(str_lt("Z", "a"));
}

#[test]
fn insert_param_keeps_key_order_and_replaces() {
    let mut ps = Vec::new();
    insert_param(&mut ps, "status".to_string(), "a".to_string());
    insert_param(&mut ps, "include_entities".to_string(), "true".to_string());
    insert_param(&mut ps, "oauth_nonce".to_string(), "n".to_string());
    insert_param(&mut ps, "status".to_string(), "b".to_string());
    let keys: Vec<&str> = ps.iter().map(|p| p.0.as_str()).collect();
    assert_eq!(keys, vec!["include_entities", "oauth_nonce", "status"]);
    assert_eq!(ps[2].1, "b");
}

#[test]
fn base_string_reference_vector() {
    let ps = example_params();
    assert_eq!(
        parameter_string(&ps),
        "oauth_consumer_key=consumer_key&oauth_nonce=ff&oauth_signature_method=HMAC-SHA1&oauth_timestamp=1700000000&oauth_token=access_token&oauth_version=1.0"
    );
    assert_eq!(
        base_string("get", "https://api.example.com/2/users/me", &ps),
        "GET&https%3A%2F%2Fapi.example.com%2F2%2Fusers%2Fme&oauth_consumer_key%3Dconsumer_key%26oauth_nonce%3Dff%26oauth_signature_method%3DHMAC-SHA1%26oauth_timestamp%3D1700000000%26oauth_token%3Daccess_token%26oauth_version%3D1.0"
    );
    assert_eq!(signing_key("consumer_secret", "token secret"), "consumer_secret&token%20secret");
    assert_eq!(
        generate_signature(
            "GET",
            "https://api.example.com/2/users/me",
            &ps,
            "consumer_secret",
            "token_secret"
        ),
        "QR/h9/4RS8/seJi12GfHeIBu3Hk="
    );
}

#[test]
fn header_reference_vector() {
    let c = creds("consumer_key", "consumer_secret", "access_token", "token_secret");
    let h = sign_request("GET", "https://api.example.com/2/users/me", &c, "ff", "1700000000", &Vec::new());
    assert_eq!(
        h,
        "OAuth oauth_consumer_key=\"consumer_key\", oauth_nonce=\"ff\", oauth_signature=\"QR%2Fh9%2F4RS8%2FseJi12GfHeIBu3Hk%3D\", oauth_signature_method=\"HMAC-SHA1\", oauth_timestamp=\"1700000000\", oauth_token=\"access_token\", oauth_version=\"1.0\""
    );
}

#[test]
fn standard_oauth1_test_vector_with_extra_parameters() {
    let c = creds(
        "xvz1evFS4wEEPTGEFPHBog",
        "kAcSOqF21Fu85e7zjz7ZN2U4ZRhfV3WpwPAoE3Z7kBw",
        "370773112-GmHxMAgYyLbNEtIKZeRNFsMKPR9EyMZeS9weJAEb",
        "LswwdoUaIvS8ltyTt5jkRh4J50vUPVVHtR2YPi5kE",
    );
    let extra = vec![
        ("include_entities".to_string(), "true".to_string()),
        ("status".to_string(), "Hello Ladies + Gentlemen, a signed OAuth request!".to_string()),
    ];
    let h = sign_request(
        "POST",
        "https://api.twitter.com/1.1/statuses/update.json",
        &c,
        "kYjzVBB8Y0ZFabxSWbWovY3uYSQ2pTgmZeNu2VS4cg",
        "1318622958",
        &extra,
    );
    assert_eq!(
        h,
        "OAuth oauth_consumer_key=\"xvz1evFS4wEEPTGEFPHBog\", oauth_nonce=\"kYjzVBB8Y0ZFabxSWbWovY3uYSQ2pTgmZeNu2VS4cg\", oauth_signature=\"hCtSmYh%2BiHYCEqBWrE7C7hYmtUk%3D\", oauth_signature_method=\"HMAC-SHA1\", oauth_timestamp=\"1318622958\", oauth_token=\"370773112-GmHxMAgYyLbNEtIKZeRNFsMKPR9EyMZeS9weJAEb\", oauth_version=\"1.0\""
    );
}

#[test]
fn header_lists_only_oauth_parameters() {
    let mut ps = example_params();
    insert_param(&mut ps, "status".to_string(), "x".to_string());
    let h = authorization_header(&ps);
    assert!(h.starts_with("OAuth oauth_consumer_key=\"consumer_key\""));
    assert!(!h.contains("status"));
}

#[test]
fn signing_is_deterministic() {
    let c = creds("ck", "cs", "at", "ts");
    let a = sign_request("GET", "https://api.example.com/2/users/me", &c, "abc", "1", &Vec::new());
    let b = sign_request("GET", "https://api.example.com/2/users/me", &c, "abc", "1", &Vec::new());
    assert_eq!(a, b);
    let other = sign_request("GET", "https://api.example.com/2/users/me", &c, "abd", "1", &Vec::new());
    assert_ne!(a, other);
}

#[test]
fn oauth1_with_fixed_nonce_and_time() {
    let mut auth = Auth::new(config());
    auth.get_token_store().save_oauth1_tokens(
        "access_token".to_string(),
        "token_secret".to_string(),
        "consumer_key".to_string(),
        "consumer_secret".to_string(),
    );
    let h = auth
        .oauth1_with("GET", "https://api.example.com/2/users/me", None, 255, 1700000000)
        .unwrap();
    assert!(h.contains("oauth_signature=\"QR%2Fh9%2F4RS8%2FseJi12GfHeIBu3Hk%3D\""));
    let fresh = auth.oauth1("GET", "https://api.example.com/2/users/me", None).unwrap();
    assert!(fresh.starts_with("OAuth oauth_consumer_key=\"consumer_key\", oauth_nonce=\""));
}

#[test]
fn oauth1_without_credentials_is_token_not_found() {
    let auth = Auth::new(config());
    assert!(matches!(auth.oauth1("GET", "https://a.example/", None), Err(AuthError::TokenNotFound(_))));
    assert!(matches!(
        auth.resolve_header("GET", "https://a.example/", Some("oauth1"), None, 1, 1),
        Err(AuthError::TokenNotFound(_))
    ));
}

#[test]
fn auto_mode_with_only_oauth1_signs() {
    let mut auth = Auth::new(config());
    auth.get_token_store().save_oauth1_tokens(
        "access_token".to_string(),
        "token_secret".to_string(),
        "consumer_key".to_string(),
        "consumer_secret".to_string(),
    );
    match auth.resolve_header("GET", "https://api.example.com/2/users/me", None, None, 1700000000, 255) {
        Ok(HeaderAction::Ready(h)) => {
            assert!(h.contains("oauth_signature=\"QR%2Fh9%2F4RS8%2FseJi12GfHeIBu3Hk%3D\""))
        }
        _ => panic!("expected a signed header"),
    }
}
