use rust_microservices::auth::{email_well_formed, AuthService};
use rust_microservices::config::AppConfig;
use rust_microservices::crypto::pkce_challenge;
use rust_microservices::grant::{CodeGrant, CodeGrantAction, CodeGrantEvent};
use rust_microservices::errors::{DbError, ServiceError};
use rust_microservices::models::{
    AuthUser, AuthorizationCode, AuthorizeParams, ClientRegisterRequest, OAuthClient, RefreshToken,
    RegisterRequest, TokenRequest,
};
use rust_microservices::oauth::{GrantType, OAuthService, AUTHORIZATION_CODE_TTL_MICROS, DAY_MICROS};

const NOW: i64 = 1_700_000_000_000_000;

fn decode_claims(token: &str, secret: &str) -> serde_json::Value {
    jsonwebtoken::decode::<serde_json::Value>(
        token,
        &jsonwebtoken::DecodingKey::from_secret(secret.as_bytes()),
        &jsonwebtoken::Validation::default(),
    )
    .unwrap()
    .claims
}

fn config() -> AppConfig {
    AppConfig {
        jwt_secret: "flow-secret".to_string(),
        access_token_ttl_secs: 300,
        refresh_token_ttl_days: 7,
    }
}

fn params(verifier: &str) -> AuthorizeParams {
    AuthorizeParams {
        response_type: "code".to_string(),
        client_id: "client-1".to_string(),
        redirect_uri: "https://example.com/callback".to_string(),
        scope: "read".to_string(),
        state: "state-123".to_string(),
        code_challenge: pkce_challenge(verifier),
        code_challenge_method: "S256".to_string(),
    }
}

fn stored_code(p: &AuthorizeParams, used: bool, expires_at: i64) -> AuthorizationCode {
    AuthorizationCode {
        id: 1,
        code: "c0de".to_string(),
        client_id: p.client_id.clone(),
        user_id: 42,
        redirect_uri: p.redirect_uri.clone(),
        scopes: p.scope.clone(),
        code_challenge: p.code_challenge.clone(),
        code_challenge_method: p.code_challenge_method.clone(),
        expires_at,
        used,
        created_at: NOW,
    }
}

fn client(secret_hash: &str) -> OAuthClient {
    OAuthClient {
        id: 1,
        client_id: "client-1".to_string(),
        client_secret_hash: secret_hash.to_string(),
        client_name: "App".to_string(),
        redirect_uri: "https://example.com/callback".to_string(),
        scopes: "read write".to_string(),
        created_at: NOW,
    }
}

fn token_request(grant: &str) -> TokenRequest {
    TokenRequest {
        grant_type: grant.to_string(),
        code: None,
        redirect_uri: None,
        client_id: "client-1".to_string(),
        client_secret: String::new(),
        code_verifier: None,
        refresh_token: None,
        scope: None,
    }
}

#[test]
fn pkce_challenge_is_base64url_of_sha256() {
    assert_eq!(pkce_challenge("abc"), "ungWv48Bz-pBQUDeXa4iI7ADYaOWF3qctBD_YfIAFa0");
    assert_eq!(
        pkce_challenge("dBjftJeZ4CVP-mJ92ZDFKzsoXcVeg1Z8e3Ca5oeHoU"),
        "0-QkI90E4WmapVkGjOmA92jIEjFCtHkDOII4QUcTWa4"
    );
}

#[test]
fn grant_types_are_recognised() {
    assert_eq!(OAuthService::grant_type_of("authorization_code"), Ok(GrantType::AuthorizationCode));
    assert_eq!(OAuthService::grant_type_of("client_credentials"), Ok(GrantType::ClientCredentials));
    assert_eq!(OAuthService::grant_type_of("refresh_token"), Ok(GrantType::RefreshToken));
    assert_eq!(
        OAuthService::grant_type_of("password"),
        Err(ServiceError::InvalidRequest("Unsupported grant_type: password".to_string()))
    );
}

#[test]
fn authorize_params_must_use_code_and_s256() {
    let mut p = params("v");
    assert_eq!(OAuthService::check_authorize_params(&p), Ok(()));
    p.code_challenge_method = "plain".to_string();
    assert_eq!(
        OAuthService::check_authorize_params(&p),
        Err(ServiceError::InvalidRequest("code_challenge_method must be 'S256'".to_string()))
    );
    p.response_type = "token".to_string();
    assert_eq!(
        OAuthService::check_authorize_params(&p),
        Err(ServiceError::InvalidRequest("response_type must be 'code'".to_string()))
    );
}

#[test]
fn authorize_checks_redirect_and_scopes() {
    let c = client("unused");
    let mut p = params("v");
    assert_eq!(OAuthService::check_client_for_authorize(&p, &c), Ok(()));
    p.scope = "read admin".to_string();
    assert_eq!(
        OAuthService::check_client_for_authorize(&p, &c),
        Err(ServiceError::InvalidRequest("Scope 'admin' not allowed".to_string()))
    );
    p.redirect_uri = "https://evil.example/cb".to_string();
    assert_eq!(
        OAuthService::check_client_for_authorize(&p, &c),
        Err(ServiceError::InvalidRequest("redirect_uri mismatch".to_string()))
    );
}

#[test]
fn authorization_code_record_expires_in_ten_minutes() {
    let p = params("verifier-1");
    let code = OAuthService::new_authorization_code();
    assert_eq!(code.len(), 64);
    assert!(code.chars().all(|c| c.is_ascii_hexdigit() && !c.is_ascii_uppercase()));
    let rec = OAuthService::authorization_code_record(p.clone(), 42, code.clone(), NOW);
    assert_eq!(rec.code, code);
    assert_eq!(rec.client_id, "client-1");
    assert_eq!(rec.user_id, 42);
    assert_eq!(rec.scopes, "read");
    assert_eq!(rec.code_challenge, p.code_challenge);
    assert_eq!(rec.expires_at, NOW + 600_000_000);
    assert_eq!(AUTHORIZATION_CODE_TTL_MICROS, 600_000_000);
}

#[test]
fn issued_code_is_redeemed_with_its_verifier() {
    let p = params("verifier-1");
    let stored = stored_code(&p, false, NOW + AUTHORIZATION_CODE_TTL_MICROS);
    let r = OAuthService::check_authorization_code(
        Ok(stored),
        "client-1",
        "https://example.com/callback",
        "verifier-1",
        NOW + AUTHORIZATION_CODE_TTL_MICROS,
    );
    assert_eq!(r.unwrap().user_id, 42);
}

#[test]
fn reused_code_is_invalid_grant_400() {
    let p = params("verifier-1");
    let stored = stored_code(&p, true, NOW + AUTHORIZATION_CODE_TTL_MICROS);
    let err = OAuthService::check_authorization_code(
        Ok(stored),
        "client-1",
        "https://example.com/callback",
        "verifier-1",
        NOW,
    )
    .unwrap_err();
    assert_eq!(err, ServiceError::InvalidGrant("Authorization code already used".to_string()));
    assert_eq!(err.status_code(), 400);
    assert_eq!(err.error_code(), "invalid_grant");
}

#[test]
fn code_exchange_refusals_in_order() {
    let p = params("verifier-1");
    let check = |c: AuthorizationCode, client: &str, uri: &str, verifier: &str| {
        OAuthService::check_authorization_code(Ok(c), client, uri, verifier, NOW).unwrap_err()
    };
    let uri = "https://example.com/callback";
    assert_eq!(
        check(stored_code(&p, false, NOW - 1), "client-1", uri, "verifier-1"),
        ServiceError::InvalidGrant("Authorization code expired".to_string())
    );
    assert_eq!(
        check(stored_code(&p, false, NOW), "client-2", uri, "verifier-1"),
        ServiceError::InvalidGrant("client_id mismatch".to_string())
    );
    assert_eq!(
        check(stored_code(&p, false, NOW), "client-1", "https://other/cb", "verifier-1"),
        ServiceError::InvalidGrant("redirect_uri mismatch".to_string())
    );
    assert_eq!(
        check(stored_code(&p, false, NOW), "client-1", uri, "verifier-2"),
        ServiceError::InvalidGrant("PKCE verification failed".to_string())
    );
    assert_eq!(
        OAuthService::check_authorization_code(Err(DbError::RowNotFound), "client-1", uri, "v", NOW)
            .unwrap_err(),
        ServiceError::InvalidGrant("Invalid authorization code".to_string())
    );
}

#[test]
fn code_exchange_needs_code_redirect_and_verifier() {
    let mut req = token_request("authorization_code");
    assert_eq!(
        OAuthService::code_exchange_params(&req).err(),
        Some(ServiceError::InvalidRequest("Missing 'code'".to_string()))
    );
    req.code = Some("abc".to_string());
    assert_eq!(
        OAuthService::code_exchange_params(&req).err(),
        Some(ServiceError::InvalidRequest("Missing 'redirect_uri'".to_string()))
    );
    req.redirect_uri = Some("https://example.com/callback".to_string());
    assert_eq!(
        OAuthService::code_exchange_params(&req).err(),
        Some(ServiceError::InvalidRequest("Missing 'code_verifier'".to_string()))
    );
    req.code_verifier = Some("v".to_string());
    let x = OAuthService::code_exchange_params(&req).ok().unwrap();
    assert_eq!(x.code, "abc");
    assert_eq!(x.code_verifier, "v");
}

#[test]
fn user_tokens_carry_user_and_rotate_refresh_token() {
    let cfg = config();
    let issued = OAuthService::issue_user_tokens(42, "u@example.com", "client-1", "read write", &cfg, NOW);
    let claims = decode_claims(&issued.response.access_token, "flow-secret");
    assert_eq!(claims["sub"].as_str(), Some("42"));
    assert_eq!(claims["email"].as_str(), Some("u@example.com"));
    assert_eq!(claims["scopes"].as_str(), Some("read write"));
    assert_eq!(issued.response.token_type, "Bearer");
    assert_eq!(issued.response.expires_in, 300);
    assert_eq!(issued.response.refresh_token.as_deref(), Some(issued.refresh_record.token.as_str()));
    assert_eq!(issued.refresh_record.token.len(), 36);
    assert_eq!(issued.refresh_record.expires_at, NOW + 7 * DAY_MICROS);
    assert_eq!(issued.refresh_record.user_id, 42);
    assert!(OAuthService::expiry_after_days_in_range(NOW, 7));
    assert!(!OAuthService::expiry_after_days_in_range(i64::MAX, 1));
}

#[test]
fn registered_client_secret_authenticates() {
    let req = ClientRegisterRequest {
        client_name: "integration-client".to_string(),
        redirect_uri: "https://example.com/callback".to_string(),
        scopes: "read write".to_string(),
    };
    let reg = OAuthService::prepare_client_registration(&req).ok().unwrap();
    assert_eq!(reg.client_secret.len(), 64);
    assert_eq!(reg.new_client.client_id.len(), 36);
    assert_ne!(reg.new_client.client_secret_hash, reg.client_secret);
    assert_eq!(reg.new_client.client_name, "integration-client");
    assert_eq!(
        OAuthService::verify_client_secret(&reg.client_secret, &reg.new_client.client_secret_hash),
        Ok(())
    );
}

#[test]
fn wrong_client_secret_is_invalid_client_401() {
    let reg = OAuthService::prepare_client_registration(&ClientRegisterRequest {
        client_name: "bad-secret-client".to_string(),
        redirect_uri: "https://example.com/callback".to_string(),
        scopes: "read".to_string(),
    })
    .ok()
    .unwrap();
    let c = client(&reg.new_client.client_secret_hash);
    let mut req = token_request("client_credentials");
    req.client_secret = "wrong-secret".to_string();
    req.scope = Some("read".to_string());
    let err = OAuthService::client_credentials_grant(&req, &c, &config()).unwrap_err();
    assert_eq!(err, ServiceError::InvalidClient("Client authentication failed".to_string()));
    assert_eq!(err.status_code(), 401);
    assert_eq!(err.error_code(), "invalid_client");
}

#[test]
fn client_credentials_default_scope_is_read() {
    let reg = OAuthService::prepare_client_registration(&ClientRegisterRequest {
        client_name: "cc".to_string(),
        redirect_uri: "https://example.com/callback".to_string(),
        scopes: "read write".to_string(),
    })
    .ok()
    .unwrap();
    let c = client(&reg.new_client.client_secret_hash);
    let mut req = token_request("client_credentials");
    req.client_secret = reg.client_secret.clone();
    let resp = OAuthService::client_credentials_grant(&req, &c, &config()).unwrap();
    assert_eq!(resp.scope, "read");
    assert!(resp.refresh_token.is_none());
    let claims = decode_claims(&resp.access_token, "flow-secret");
    assert_eq!(claims["sub"].as_str(), Some("client-1"));
    assert!(claims["email"].is_null());

    req.scope = Some("admin".to_string());
    assert_eq!(
        OAuthService::client_credentials_grant(&req, &c, &config()).unwrap_err(),
        ServiceError::InvalidRequest("Scope 'admin' not allowed".to_string())
    );
}

#[test]
fn unparsable_secret_hash_is_internal_error() {
    let err = OAuthService::verify_client_secret("secret", "not-a-phc-string").unwrap_err();
    match err {
        ServiceError::InternalError(m) => assert!(m.starts_with("Hash parse error: ")),
        other => panic!("unexpected {other:?}"),
    }
}

#[test]
fn refresh_token_checks() {
    let token = |expires_at: i64| RefreshToken {
        id: 1,
        token: "t".to_string(),
        client_id: "client-1".to_string(),
        user_id: 42,
        scopes: "read".to_string(),
        expires_at,
        created_at: NOW,
    };
    assert_eq!(OAuthService::check_refresh_token(Ok(token(NOW)), "client-1", NOW).ok().unwrap().user_id, 42);
    let rej = OAuthService::check_refresh_token(Ok(token(NOW - 1)), "client-1", NOW).err().unwrap();
    assert!(rej.revoke_stored);
    assert_eq!(rej.error, ServiceError::InvalidGrant("Refresh token expired".to_string()));
    let rej = OAuthService::check_refresh_token(Ok(token(NOW)), "client-2", NOW).err().unwrap();
    assert!(!rej.revoke_stored);
    assert_eq!(rej.error, ServiceError::InvalidGrant("client_id mismatch".to_string()));
    let rej = OAuthService::check_refresh_token(Err(DbError::RowNotFound), "client-1", NOW).err().unwrap();
    assert_eq!(rej.error, ServiceError::InvalidGrant("Invalid refresh token".to_string()));
    assert_eq!(
        OAuthService::refresh_token_param(&token_request("refresh_token")),
        Err(ServiceError::InvalidRequest("Missing 'refresh_token'".to_string()))
    );
}

#[test]
fn client_lookup_and_cache_key() {
    assert_eq!(OAuthService::client_cache_key("abc"), "oauth_client:abc");
    assert!(matches!(
        OAuthService::client_from_lookup(Err(DbError::RowNotFound)),
        Err(ServiceError::InvalidClient(m)) if m == "Client not found"
    ));
}

#[test]
fn registration_hashes_password_and_login_checks_it() {
    let new_user = AuthService::prepare_registration(&RegisterRequest {
        email: "oauth-user@example.com".to_string(),
        password: "password123".to_string(),
    })
    .unwrap();
    assert_ne!(new_user.password_hash, "password123");
    assert!(new_user.password_hash.starts_with('$'));
    let stored = AuthUser {
        id: 5,
        email: new_user.email.clone(),
        password_hash: new_user.password_hash.clone(),
        created_at: NOW,
    };
    assert_eq!(AuthService::verify_credentials(Ok(stored.clone()), "password123").unwrap().id, 5);
    assert_eq!(
        AuthService::verify_credentials(Ok(stored), "password124").unwrap_err(),
        ServiceError::Unauthorized("Invalid credentials".to_string())
    );
    assert_eq!(
        AuthService::verify_credentials(Err(DbError::RowNotFound), "x").unwrap_err(),
        ServiceError::Unauthorized("Invalid credentials".to_string())
    );
}

#[test]
fn short_password_is_400_and_duplicate_email_409() {
    let err = AuthService::prepare_registration(&RegisterRequest {
        email: "short-pass@example.com".to_string(),
        password: "short".to_string(),
    })
    .unwrap_err();
    assert_eq!(err, ServiceError::InvalidRequest("Password must be at least 8 characters".to_string()));
    assert_eq!(err.status_code(), 400);
    let err = AuthService::prepare_registration(&RegisterRequest {
        email: "u@example.com".to_string(),
        password: "éééé".to_string(),
    })
    .unwrap_err();
    assert_eq!(err, ServiceError::InvalidRequest("Password must be at least 8 characters".to_string()));
    assert!(AuthService::prepare_registration(&RegisterRequest {
        email: "u@example.com".to_string(),
        password: "éééééééé".to_string(),
    })
    .is_ok());
    let err = AuthService::prepare_registration(&RegisterRequest {
        email: "not-an-email".to_string(),
        password: "password123".to_string(),
    })
    .unwrap_err();
    assert_eq!(err, ServiceError::InvalidRequest("Invalid email format".to_string()));
    assert_eq!(err.status_code(), 400);
    let err = AuthService::finish_registration(Err(DbError::UniqueViolation("dup".to_string()))).unwrap_err();
    assert_eq!(err, ServiceError::Conflict("Email already registered".to_string()));
    assert_eq!(err.status_code(), 409);
}

#[test]
fn unknown_client_at_authorize_is_400() {
    let err = OAuthService::authorize_client_from_lookup(Err(DbError::RowNotFound)).unwrap_err();
    assert_eq!(err, ServiceError::InvalidRequest("Client not found".to_string()));
    assert_eq!(err.status_code(), 400);
    let c = OAuthService::authorize_client_from_lookup(Ok(client("h"))).unwrap();
    assert_eq!(c.client_id, "client-1");
    let err = OAuthService::client_from_lookup(Err(DbError::RowNotFound)).unwrap_err();
    assert_eq!(err.status_code(), 401);
}

#[test]
fn redeemed_code_is_stored_used_and_refused_again() {
    let p = params("verifier-1");
    let found = stored_code(&p, false, NOW + AUTHORIZATION_CODE_TTL_MICROS);
    let redeemed = OAuthService::redeem_authorization_code(
        Ok(found),
        "client-1",
        "https://example.com/callback",
        "verifier-1",
        NOW,
    )
    .ok()
    .unwrap();
    assert!(!redeemed.code.used);
    assert!(redeemed.store.used);
    assert_eq!(redeemed.store.code, redeemed.code.code);
    assert_eq!(redeemed.store.user_id, 42);
    assert_eq!(redeemed.store.scopes, "read");
    let again = OAuthService::redeem_authorization_code(
        Ok(redeemed.store),
        "client-1",
        "https://example.com/callback",
        "verifier-1",
        NOW,
    )
    .err()
    .unwrap();
    assert_eq!(again, ServiceError::InvalidGrant("Authorization code already used".to_string()));
}

#[test]
fn redeemed_refresh_token_is_revoked_by_presented_text() {
    let found = RefreshToken {
        id: 3,
        token: "tok-1".to_string(),
        client_id: "client-1".to_string(),
        user_id: 9,
        scopes: "read write".to_string(),
        expires_at: NOW + 1,
        created_at: NOW,
    };
    let r = OAuthService::redeem_refresh_token(Ok(found), "tok-1", "client-1", NOW).ok().unwrap();
    assert_eq!(r.revoke, "tok-1");
    assert_eq!(r.token.user_id, 9);
    let rej = OAuthService::redeem_refresh_token(Err(DbError::RowNotFound), "tok-1", "client-1", NOW).err().unwrap();
    assert!(!rej.revoke_stored);
    assert_eq!(rej.error, ServiceError::InvalidGrant("Invalid refresh token".to_string()));
}

#[test]
fn stored_client_hash_is_a_phc_string_not_the_secret() {
    let reg = OAuthService::prepare_client_registration(&ClientRegisterRequest {
        client_name: "h".to_string(),
        redirect_uri: "https://example.com/callback".to_string(),
        scopes: "read".to_string(),
    })
    .ok()
    .unwrap();
    assert!(reg.new_client.client_secret_hash.starts_with('$'));
    assert_ne!(reg.new_client.client_secret_hash, reg.client_secret);
}

#[test]
fn email_format() {
    for (e, ok) in [("a@b", true), ("@b", false), ("a@", false), ("ab", false), ("a@b@c", true), ("", false)] {
        assert_eq!(email_well_formed(e), ok, "{e}");
    }
}

#[test]
fn code_grant_runs_its_steps_in_order() {
    let reg = OAuthService::prepare_client_registration(&ClientRegisterRequest {
        client_name: "g".to_string(),
        redirect_uri: "https://example.com/callback".to_string(),
        scopes: "read write".to_string(),
    })
    .ok()
    .unwrap();
    let p = params("verifier-1");
    let mut req = token_request("authorization_code");
    req.code = Some("c0de".to_string());
    req.redirect_uri = Some("https://example.com/callback".to_string());
    req.code_verifier = Some("verifier-1".to_string());
    req.client_secret = reg.client_secret.clone();
    let cfg = config();

    let (s, a) = CodeGrant::start(req);
    assert!(matches!(a, CodeGrantAction::LookupClient(ref id) if id == "client-1"));
    let (s, a) = s.step(CodeGrantEvent::ClientFound(Ok(client(&reg.new_client.client_secret_hash))), &cfg, NOW);
    assert!(matches!(a, CodeGrantAction::LookupCode(ref k) if k == "c0de"));
    let found = stored_code(&p, false, NOW + AUTHORIZATION_CODE_TTL_MICROS);
    let (s, a) = s.step(CodeGrantEvent::CodeFound(Ok(found)), &cfg, NOW);
    match &a {
        CodeGrantAction::StoreCode { key, record } => {
            assert_eq!(key, "c0de");
            assert!(record.used);
        }
        _ => panic!("expected the code to be stored used"),
    }
    let (s, a) = s.step(CodeGrantEvent::CodeStored(Ok(1)), &cfg, NOW);
    assert!(matches!(a, CodeGrantAction::LookupUser(42)));
    let user = AuthUser { id: 42, email: "u@example.com".to_string(), password_hash: "x".to_string(), created_at: NOW };
    let (s, a) = s.step(CodeGrantEvent::UserFound(Ok(user)), &cfg, NOW);
    let rec = match a {
        CodeGrantAction::StoreRefresh(rec) => rec,
        _ => panic!("expected the refresh token to be stored"),
    };
    assert_eq!(rec.user_id, 42);
    assert_eq!(rec.scopes, "read");
    let stored = RefreshToken {
        id: 1,
        token: rec.token.clone(),
        client_id: rec.client_id.clone(),
        user_id: 42,
        scopes: rec.scopes.clone(),
        expires_at: rec.expires_at,
        created_at: NOW,
    };
    let (s, a) = s.step(CodeGrantEvent::RefreshStored(Ok(stored)), &cfg, NOW);
    assert!(matches!(s, CodeGrant::Finished));
    match a {
        CodeGrantAction::Answer(Ok(resp)) => {
            assert_eq!(resp.refresh_token.as_deref(), Some(rec.token.as_str()));
            assert_eq!(resp.scope, "read");
        }
        _ => panic!("expected tokens"),
    }
}

#[test]
fn code_grant_stops_at_wrong_secret() {
    let mut req = token_request("authorization_code");
    req.code = Some("c0de".to_string());
    req.redirect_uri = Some("https://example.com/callback".to_string());
    req.code_verifier = Some("verifier-1".to_string());
    req.client_secret = "wrong".to_string();
    let reg = OAuthService::prepare_client_registration(&ClientRegisterRequest {
        client_name: "g".to_string(),
        redirect_uri: "https://example.com/callback".to_string(),
        scopes: "read".to_string(),
    })
    .ok()
    .unwrap();
    let (s, _) = CodeGrant::start(req);
    let (s, a) = s.step(CodeGrantEvent::ClientFound(Ok(client(&reg.new_client.client_secret_hash))), &config(), NOW);
    assert!(matches!(s, CodeGrant::Finished));
    assert!(matches!(a, CodeGrantAction::Answer(Err(ServiceError::InvalidClient(_)))));
    let (s, a) = CodeGrant::start(token_request("authorization_code"));
    assert!(matches!(s, CodeGrant::Finished));
    assert!(matches!(a, CodeGrantAction::Answer(Err(ServiceError::InvalidRequest(ref m))) if m == "Missing 'code'"));
}
