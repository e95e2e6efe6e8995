use tossinvest_sdk::adapter::token::{Credentials, TokenCache, EARLY_REFRESH_SECS, NANOS_PER_SEC};
use tossinvest_sdk::adapter::{HttpMethod, RequestBody};
use tossinvest_sdk::domain::models::OAuth2TokenResponse;

fn response(token: &str, expires_in: i64) -> OAuth2TokenResponse {
    OAuth2TokenResponse {
        access_token: token.into(),
        token_type: "Bearer".into(),
        expires_in,
    }
}

#[test]
fn store_and_read_cached_token() {
    let mut store = TokenCache::new();
    store.store(&OAuth2TokenResponse {
        access_token: "tok".into(),
        token_type: "Bearer".into(),
        expires_in: 3600,
    });
    assert_eq!(store.cached().as_deref(), Some("tok"));
}

#[test]
fn store_with_short_expiry_still_cached_briefly() {
    let mut store = TokenCache::new();
    store.store(&OAuth2TokenResponse {
        access_token: "short".into(),
        token_type: "Bearer".into(),
        expires_in: 0,
    });
    assert_eq!(store.cached().as_deref(), Some("short"));
}

#[test]
fn store_overwrites_previous_token() {
    let mut store = TokenCache::new();
    store.store(&OAuth2TokenResponse {
        access_token: "first".into(),
        token_type: "Bearer".into(),
        expires_in: 3600,
    });
    store.store(&OAuth2TokenResponse {
        access_token: "second".into(),
        token_type: "Bearer".into(),
        expires_in: 3600,
    });
    assert_eq!(store.cached().as_deref(), Some("second"));
}

#[test]
fn empty_cache_serves_nothing() {
    let store = TokenCache::new();
    assert!(store.cached().is_none());
    assert!(store.cached_at(0).is_none());
}

#[test]
fn token_served_until_lifetime_less_early_refresh() {
    let mut store = TokenCache::new();
    let t0: u128 = 5 * NANOS_PER_SEC;
    store.store_at(&response("tok", 3600), t0);
    let lifetime = (3600 - EARLY_REFRESH_SECS as u128) * NANOS_PER_SEC;
    assert_eq!(store.cached_at(t0).as_deref(), Some("tok"));
    assert_eq!(store.cached_at(t0 + lifetime - 1).as_deref(), Some("tok"));
    assert!(store.cached_at(t0 + lifetime).is_none());
}

#[test]
fn short_or_negative_lifetimes_are_kept_one_second() {
    for expires_in in [-5i64, 0, 30, 60, 61] {
        let mut store = TokenCache::new();
        store.store_at(&response("t", expires_in), 1000);
        assert_eq!(store.cached_at(1000 + NANOS_PER_SEC - 1).as_deref(), Some("t"));
        assert!(store.cached_at(1000 + NANOS_PER_SEC).is_none());
    }
}

#[test]
fn expiry_saturates_at_the_clock_end() {
    let mut store = TokenCache::new();
    store.store_at(&response("t", i64::MAX), u128::MAX - 10);
    assert_eq!(store.cached_at(u128::MAX - 1).as_deref(), Some("t"));
    assert!(store.cached_at(u128::MAX).is_none());
}

#[test]
fn later_store_replaces_expired_token() {
    let mut store = TokenCache::new();
    store.store_at(&response("old", 61), 0);
    assert!(store.cached_at(NANOS_PER_SEC).is_none());
    store.store_at(&response("new", 120), NANOS_PER_SEC);
    assert_eq!(store.cached_at(NANOS_PER_SEC).as_deref(), Some("new"));
}

#[test]
fn token_request_sends_the_client_credentials_grant() {
    let req = Credentials::new("test-id", "test-secret").token_request();
    assert_eq!(req.method, HttpMethod::Post);
    assert_eq!(req.path, "/oauth2/token");
    assert!(req.query.is_empty());
    assert!(!req.needs_account);
    match req.body {
        RequestBody::Form(form) => assert_eq!(
            form,
            vec![
                ("grant_type", "client_credentials".to_string()),
                ("client_id", "test-id".to_string()),
                ("client_secret", "test-secret".to_string()),
            ]
        ),
        other => panic!("expected a form, got {other:?}"),
    }
}

#[test]
fn token_issued_once_across_calls_within_lifetime() {
    let mut cache = TokenCache::new();
    let mut issued = 0;
    let mut served = Vec::new();
    for call in 0..5u128 {
        let now = call * NANOS_PER_SEC;
        let token = match cache.cached_at(now) {
            Some(t) => t,
            None => {
                issued += 1;
                cache.store_at(&response("test-token", 86400), now);
                "test-token".to_string()
            }
        };
        served.push(token);
    }
    assert_eq!(issued, 1);
    assert!(served.iter().all(|t| t == "test-token"));
}
