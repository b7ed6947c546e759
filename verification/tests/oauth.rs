use zeebe_rs::client::{ClientBuilder, Initial};
use zeebe_rs::oauth::{authorization, OAuthConfig, OAuthError, TokenCache, TokenGrant};
use zeebe_rs::time::Duration;

const SEC: i128 = 1_000_000_000;

fn elapsed() -> tokio::time::error::Elapsed {
    tokio::runtime::Builder::new_current_thread()
        .enable_time()
        .build()
        .unwrap()
        .block_on(async {
            tokio::time::timeout(std::time::Duration::from_millis(1), std::future::pending::<()>())
                .await
                .unwrap_err()
        })
}

#[test]
fn empty_cache_has_no_token_and_is_expired() {
    let cache = TokenCache::new();
    assert!(matches!(cache.read_token(), Err(OAuthError::TokenUnavailable)));
    assert!(cache.cached_token_is_expired(0));
    assert!(cache.cached_token_is_expired(1_000 * SEC));
}

#[test]
fn granted_token_is_read_and_expires_fifteen_seconds_early() {
    let mut cache = TokenCache::new();
    let now = 1_700_000_000 * SEC;
    let grant = TokenGrant {
        access_token: String::from("abc"),
        expires_in: Some(Duration::from_secs(60)),
    };
    assert!(cache.complete_refresh(Ok(Ok(grant)), now).is_ok());
    assert_eq!(cache.read_token().unwrap(), "abc");
    assert!(!cache.cached_token_is_expired(now));
    assert!(!cache.cached_token_is_expired(now + 45 * SEC - 1));
    assert!(cache.cached_token_is_expired(now + 45 * SEC));
}

#[test]
fn grant_without_lifetime_is_expired_at_once() {
    let mut cache = TokenCache::new();
    let now = 100 * SEC;
    let grant = TokenGrant { access_token: String::from("t"), expires_in: None };
    assert!(cache.complete_refresh(Ok(Ok(grant)), now).is_ok());
    assert_eq!(cache.read_token().unwrap(), "t");
    assert!(cache.cached_token_is_expired(now - 15 * SEC));
    assert!(!cache.cached_token_is_expired(now - 15 * SEC - 1));
}

#[test]
fn failed_refresh_keeps_the_token() {
    let mut cache = TokenCache::new();
    let now = 100 * SEC;
    let grant = TokenGrant { access_token: String::from("old"), expires_in: Some(Duration::from_secs(30)) };
    cache.complete_refresh(Ok(Ok(grant)), now).unwrap();
    match cache.complete_refresh(Ok(Err(String::from("server error"))), now + SEC) {
        Err(OAuthError::Request(m)) => assert_eq!(m, "server error"),
        _ => panic!("expected a request error"),
    }
    assert_eq!(cache.read_token().unwrap(), "old");
    match cache.complete_refresh(Err(elapsed()), now + 2 * SEC) {
        Err(OAuthError::Timeout(_)) => {}
        _ => panic!("expected a timeout"),
    }
    assert_eq!(cache.read_token().unwrap(), "old");
    assert!(!cache.cached_token_is_expired(now + 14 * SEC));
    assert!(cache.cached_token_is_expired(now + 15 * SEC));
}

#[test]
fn authorization_is_a_bearer_token() {
    assert_eq!(authorization(Ok(String::from("abc"))).unwrap(), "Bearer abc");
    assert_eq!(authorization(Ok(String::from("tab\there"))).unwrap(), "Bearer tab\there");
}

#[test]
fn authorization_refuses_without_a_token() {
    assert_eq!(
        authorization(Err(OAuthError::TokenUnavailable)).unwrap_err(),
        "failed to get token: token unavailable"
    );
    assert_eq!(
        authorization(Err(OAuthError::LockUnavailable(String::from("poisoned")))).unwrap_err(),
        "failed to get token: failed to acquire token lock"
    );
    assert_eq!(
        authorization(Err(OAuthError::Request(String::from("x")))).unwrap_err(),
        "failed to get token: failed request"
    );
    assert_eq!(authorization(Err(OAuthError::Timeout(elapsed()))).unwrap_err(), "failed to get token: timeout");
}

#[test]
fn authorization_refuses_a_token_with_control_characters() {
    assert_eq!(
        authorization(Ok(String::from("bad\ntoken"))).unwrap_err(),
        "token is not a valid header value: bad\ntoken"
    );
    assert!(authorization(Ok(String::from("del\u{7f}"))).is_err());
    assert!(authorization(Ok(String::from("caf\u{e9}"))).is_ok());
}

#[test]
fn oauth_config_holds_its_fields() {
    let c = OAuthConfig::new(String::from("id"), String::from("secret"), String::from("url"), String::from("aud"));
    assert_eq!(c.client_id, "id");
    assert_eq!(c.client_secret, "secret");
    assert_eq!(c.auth_url, "url");
    assert_eq!(c.audience, "aud");
}

#[test]
fn client_builder_settings() {
    let settings = ClientBuilder::<Initial>::default()
        .with_address("http://localhost", 26500)
        .with_oauth(
            String::from("zeebe"),
            String::from("zecret"),
            String::from("http://localhost:18080/token"),
            String::from("zeebe-api"),
            Duration::from_secs(30),
        )
        .with_timeout(Duration::from_secs(5))
        .with_keep_alive(Duration::from_millis(2500))
        .with_tls(String::from("PEM"))
        .into_settings();
    assert_eq!(settings.endpoint, "http://localhost:26500");
    assert_eq!(settings.tls_ca_certificate.as_deref(), Some("PEM"));
    assert_eq!(settings.timeout.unwrap().as_millis(), 5000);
    assert_eq!(settings.keep_alive.unwrap().as_millis(), 2500);
    let (config, timeout) = settings.oauth.unwrap();
    assert_eq!(config.client_id, "zeebe");
    assert_eq!(config.audience, "zeebe-api");
    assert_eq!(timeout.as_secs(), 30);
}

#[test]
fn client_builder_endpoint_digits() {
    for (port, text) in [(0u16, "h:0"), (9, "h:9"), (10, "h:10"), (65535, "h:65535"), (26500, "h:26500")] {
        let s = ClientBuilder::<Initial>::default().with_address("h", port).into_settings();
        assert_eq!(s.endpoint, text);
        assert!(s.oauth.is_none());
        assert!(s.tls_ca_certificate.is_none());
        assert!(s.timeout.is_none());
        assert!(s.keep_alive.is_none());
    }
}

#[test]
fn oauth_error_messages() {
    assert_eq!(OAuthError::TokenUnavailable.message(), "token unavailable");
    assert_eq!(OAuthError::Request(String::from("x")).message(), "failed request");
}
