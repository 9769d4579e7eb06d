use rust_microservices::token::{create_test_token, create_test_token_with_secret, TokenService, TEST_JWT_SECRET};

const TEST_SECRET: &str = "test-secret-key-for-jwt";

fn decode_claims(token: &str, secret: &str) -> Result<serde_json::Value, jsonwebtoken::errors::Error> {
    let data = jsonwebtoken::decode::<serde_json::Value>(
        token,
        &jsonwebtoken::DecodingKey::from_secret(secret.as_bytes()),
        &jsonwebtoken::Validation::default(),
    )?;
    Ok(data.claims)
}

#[test]
fn test_create_and_validate_token() {
    let token = TokenService::create_access_token(
        "123",
        Some("test@example.com"),
        "client-1",
        "read write",
        TEST_SECRET,
        300,
    )
    .unwrap();

    assert_eq!(TokenService::validate_token(&token, TEST_SECRET), Ok(()));
    let claims = decode_claims(&token, TEST_SECRET).unwrap();
    assert_eq!(claims["sub"].as_str(), Some("123"));
    assert_eq!(claims["email"].as_str(), Some("test@example.com"));
    assert_eq!(claims["client_id"].as_str(), Some("client-1"));
    assert_eq!(claims["scopes"].as_str(), Some("read write"));
}

#[test]
fn test_validate_with_wrong_secret_fails() {
    let token =
        TokenService::create_access_token("123", None, "client-1", "read", TEST_SECRET, 300).unwrap();

    let result = TokenService::validate_token(&token, "wrong-secret");
    assert_eq!(result, Err("InvalidSignature".to_string()));
}

#[test]
fn test_expired_token_fails() {
    // A token issued at the epoch that expired at once (exp = 0).
    let token =
        TokenService::create_access_token_at(0, "123", None, "client-1", "read", TEST_SECRET, 0).unwrap();

    let result = TokenService::validate_token(&token, TEST_SECRET);
    assert_eq!(result, Err("ExpiredSignature".to_string()));
}

#[test]
fn test_generate_refresh_token_is_unique() {
    let t1 = TokenService::generate_refresh_token();
    let t2 = TokenService::generate_refresh_token();
    assert_ne!(t1, t2);
    assert_eq!(t1.len(), 36);
}

#[test]
fn refresh_token_has_uuid_v4_shape() {
    let t = TokenService::generate_refresh_token();
    let chars: Vec<char> = t.chars().collect();
    for (i, c) in chars.iter().enumerate() {
        if i == 8 || i == 13 || i == 18 || i == 23 {
            assert_eq!(*c, '-');
        } else {
            assert!(c.is_ascii_hexdigit() && !c.is_ascii_uppercase());
        }
    }
    assert_eq!(chars[14], '4');
    assert!(matches!(chars[19], '8' | '9' | 'a' | 'b'));
}

#[test]
fn token_at_fixed_instant_carries_exp_and_iat() {
    let now: usize = 4_000_000_000;
    let token =
        TokenService::create_access_token_at(now, "7", None, "client-9", "read", TEST_SECRET, 300).unwrap();
    let claims = decode_claims(&token, TEST_SECRET).unwrap();
    assert_eq!(claims["exp"].as_u64(), Some(4_000_000_300));
    assert_eq!(claims["iat"].as_u64(), Some(4_000_000_000));
    assert!(claims["email"].is_null());
    assert_eq!(token.split('.').count(), 3);
}

#[test]
fn token_at_fixed_instant_is_deterministic() {
    let a = TokenService::create_access_token_at(10, "1", Some("a@b.c"), "c", "read", TEST_SECRET, 60).unwrap();
    let b = TokenService::create_access_token_at(10, "1", Some("a@b.c"), "c", "read", TEST_SECRET, 60).unwrap();
    let c = TokenService::create_access_token_at(10, "1", Some("a@b.c"), "c", "read", "other", 60).unwrap();
    assert_eq!(a, b);
    assert_ne!(a, c);
}

#[test]
fn test_token_uses_integration_secret() {
    let token = create_test_token("read write");
    let claims = decode_claims(&token, TEST_JWT_SECRET).unwrap();
    assert_eq!(claims["sub"].as_str(), Some("test-user-1"));
    assert_eq!(claims["email"].as_str(), Some("test@example.com"));
    assert_eq!(claims["client_id"].as_str(), Some("test-client"));
    assert_eq!(claims["scopes"].as_str(), Some("read write"));
    let exp = claims["exp"].as_u64().unwrap();
    let iat = claims["iat"].as_u64().unwrap();
    assert_eq!(exp, iat + 3600);
}

#[test]
fn test_token_with_other_secret_does_not_verify_with_integration_secret() {
    let token = create_test_token_with_secret("read", "another-secret");
    assert!(decode_claims(&token, TEST_JWT_SECRET).is_err());
    let claims = decode_claims(&token, "another-secret").unwrap();
    assert_eq!(claims["scopes"].as_str(), Some("read"));
}

#[test]
fn access_token_is_issued_at_the_current_time() {
    let before = std::time::SystemTime::now().duration_since(std::time::UNIX_EPOCH).unwrap().as_secs();
    let token = TokenService::create_access_token("1", None, "c", "read", TEST_SECRET, 300).unwrap();
    let after = std::time::SystemTime::now().duration_since(std::time::UNIX_EPOCH).unwrap().as_secs();
    let claims = decode_claims(&token, TEST_SECRET).unwrap();
    let iat = claims["iat"].as_u64().unwrap();
    assert!(before <= iat && iat <= after);
    assert_eq!(claims["exp"].as_u64().unwrap(), iat + 300);
}

#[test]
fn malformed_token_is_refused() {
    assert!(TokenService::validate_token("not-a-token", TEST_SECRET).is_err());
    let token = create_test_token("read");
    assert_eq!(TokenService::validate_token(&token, TEST_JWT_SECRET), Ok(()));
}
