//! Scope-list comparison, token expiry and state-string mapping.

use spotify_ids::auth::authorize_params;
use spotify_ids::auth::cached_token_usable;
use spotify_ids::auth::client_credentials_form;
use spotify_ids::auth::is_scope_subset;
use spotify_ids::auth::refresh_token_form;
use spotify_ids::auth::state_string_from_bytes;
use spotify_ids::auth::token_expired;
use spotify_ids::auth::user_token_form;

#[test]
fn test_is_scope_subset() {
    let needle_scope = String::from("1 2 3");
    let haystack_scope = String::from("1 2 3 4");
    let broken_scope = String::from("5 2 4");
    assert!(is_scope_subset(&needle_scope, &haystack_scope));
    assert!(!is_scope_subset(&broken_scope, &haystack_scope));
}

#[test]
fn test_scope_subset_edge_cases() {
    // The empty scope list names no scopes and is a subset of anything.
    assert!(is_scope_subset("", "user-read-private"));
    assert!(is_scope_subset("   ", "user-read-private"));
    assert!(is_scope_subset("", ""));
    // Scope lists are compared as sets: order and repetition are
    // irrelevant, and any whitespace separates.
    assert!(is_scope_subset("b a", "a\tb\nc"));
    assert!(is_scope_subset("a a a", "a"));
    // Words are matched whole, not by prefix.
    assert!(!is_scope_subset("user-read", "user-read-private"));
    assert!(!is_scope_subset("a", ""));
}

#[test]
fn test_token_expired() {
    // A ten-second buffer: a token is already treated as expired ten
    // seconds before its recorded expiry.
    assert!(!token_expired(Some(1000), 989));
    assert!(!token_expired(Some(1000), 990));
    assert!(token_expired(Some(1000), 991));
    assert!(token_expired(Some(1000), 5000));
    // A token without a recorded expiry counts as expired.
    assert!(token_expired(None, 0));
}

#[test]
fn test_cached_token_usable() {
    let required = "playlist-read-private user-read-email";
    let granted = "playlist-read-private user-read-email user-top-read";
    assert!(cached_token_usable(required, granted, Some(2000), 1000));
    // Expired, or expiring within the buffer.
    assert!(!cached_token_usable(required, granted, Some(1005), 1000));
    assert!(!cached_token_usable(required, granted, None, 1000));
    // Scopes not covered.
    assert!(!cached_token_usable("user-follow-read", granted, Some(2000), 1000));
}

#[test]
fn test_authorize_params() {
    let with_dialog = authorize_params(
        "my-client",
        "http://localhost:8888/callback",
        "user-read-private",
        "a1B2c3",
        true,
    );
    let expected = vec![
        ("client_id".to_string(), "my-client".to_string()),
        ("response_type".to_string(), "code".to_string()),
        (
            "redirect_uri".to_string(),
            "http://localhost:8888/callback".to_string(),
        ),
        ("scope".to_string(), "user-read-private".to_string()),
        ("state".to_string(), "a1B2c3".to_string()),
        ("show_dialog".to_string(), "true".to_string()),
    ];
    assert_eq!(with_dialog, expected);
    let without = authorize_params(
        "my-client",
        "http://localhost:8888/callback",
        "user-read-private",
        "a1B2c3",
        false,
    );
    assert_eq!(without, expected[..5].to_vec());
}

#[test]
fn test_token_request_forms() {
    assert_eq!(
        refresh_token_form("AQBYahCg"),
        vec![
            ("refresh_token".to_string(), "AQBYahCg".to_string()),
            ("grant_type".to_string(), "refresh_token".to_string()),
        ]
    );
    assert_eq!(
        client_credentials_form(),
        vec![("grant_type".to_string(), "client_credentials".to_string())]
    );
    assert_eq!(
        user_token_form("http://localhost/cb", "NApCCg", "user-top-read", "xyz"),
        vec![
            ("grant_type".to_string(), "authorization_code".to_string()),
            ("redirect_uri".to_string(), "http://localhost/cb".to_string()),
            ("code".to_string(), "NApCCg".to_string()),
            ("scope".to_string(), "user-top-read".to_string()),
            ("state".to_string(), "xyz".to_string()),
        ]
    );
}

#[test]
fn test_state_string_from_bytes() {
    // Bytes select alphabet characters modulo 62:
    // 0 => 'a', 25 => 'z', 26 => 'A', 51 => 'Z', 52 => '0', 61 => '9',
    // and from 62 on the alphabet repeats.
    let bytes = vec![0u8, 25, 26, 51, 52, 61, 62, 87, 255];
    assert_eq!(state_string_from_bytes(&bytes), "azAZ09azh");
    assert_eq!(state_string_from_bytes(&Vec::new()), "");
    let sixteen = vec![7u8; 16];
    assert_eq!(state_string_from_bytes(&sixteen).len(), 16);
}
