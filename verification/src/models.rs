//! Records the services store and the request and response bodies they
//! exchange. Points in time are microseconds since the Unix epoch (UTC).

use vstd::prelude::*;

verus! {

/// Earliest point in time the storage layer's date type can hold
/// (-262143-01-01T00:00:00), in microseconds since the Unix epoch.
pub const MIN_TIMESTAMP_MICROS: i64 = -8_334_601_315_200_000_000i64;

/// Latest point in time the storage layer's date type can hold
/// (+262142-12-31T23:59:59.999999), in microseconds since the Unix epoch.
pub const MAX_TIMESTAMP_MICROS: i64 = 8_210_266_876_799_999_999i64;

/// A point in time that the storage layer's date type can hold.
pub open spec fn timestamp_in_range(t: int) -> bool {
    MIN_TIMESTAMP_MICROS <= t <= MAX_TIMESTAMP_MICROS
}

/// A registered user's credentials.
#[derive(Debug, Clone)]
pub struct AuthUser {
    pub id: i32,
    pub email: String,
    pub password_hash: String,
    pub created_at: i64,
}

#[derive(Debug, Clone)]
pub struct NewAuthUser {
    pub email: String,
    pub password_hash: String,
}

/// An issued authorization code, bound to a client, a user, a redirect URI,
/// scopes and a PKCE challenge.
#[derive(Debug, Clone)]
pub struct AuthorizationCode {
    pub id: i32,
    pub code: String,
    pub client_id: String,
    pub user_id: i32,
    pub redirect_uri: String,
    pub scopes: String,
    pub code_challenge: String,
    pub code_challenge_method: String,
    pub expires_at: i64,
    pub used: bool,
    pub created_at: i64,
}

#[derive(Debug, Clone)]
pub struct NewAuthorizationCode {
    pub code: String,
    pub client_id: String,
    pub user_id: i32,
    pub redirect_uri: String,
    pub scopes: String,
    pub code_challenge: String,
    pub code_challenge_method: String,
    pub expires_at: i64,
}

/// A registered OAuth client.
#[derive(Debug, Clone)]
pub struct OAuthClient {
    pub id: i32,
    pub client_id: String,
    pub client_secret_hash: String,
    pub client_name: String,
    pub redirect_uri: String,
    pub scopes: String,
    pub created_at: i64,
}

#[derive(Debug, Clone)]
pub struct NewOAuthClient {
    pub client_id: String,
    pub client_secret_hash: String,
    pub client_name: String,
    pub redirect_uri: String,
    pub scopes: String,
}

/// A stored refresh token.
#[derive(Debug, Clone)]
pub struct RefreshToken {
    pub id: i32,
    pub token: String,
    pub client_id: String,
    pub user_id: i32,
    pub scopes: String,
    pub expires_at: i64,
    pub created_at: i64,
}

#[derive(Debug, Clone)]
pub struct NewRefreshToken {
    pub token: String,
    pub client_id: String,
    pub user_id: i32,
    pub scopes: String,
    pub expires_at: i64,
}

#[derive(Debug, Clone)]
pub struct RegisterRequest {
    pub email: String,
    pub password: String,
}

#[derive(Debug, Clone)]
pub struct RegisterResponse {
    pub id: i32,
    pub email: String,
}

#[derive(Debug, Clone)]
pub struct LoginRequest {
    pub email: String,
    pub password: String,
}

#[derive(Debug, Clone)]
pub struct ClientRegisterRequest {
    pub client_name: String,
    pub redirect_uri: String,
    pub scopes: String,
}

#[derive(Debug, Clone)]
pub struct ClientRegisterResponse {
    pub client_id: String,
    pub client_secret: String,
    pub client_name: String,
    pub redirect_uri: String,
    pub scopes: String,
}

#[derive(Debug, Clone)]
pub struct AuthorizeParams {
    pub response_type: String,
    pub client_id: String,
    pub redirect_uri: String,
    pub scope: String,
    pub state: String,
    pub code_challenge: String,
    pub code_challenge_method: String,
}

#[derive(Debug, Clone)]
pub struct AuthorizeResponse {
    pub code: String,
    pub state: String,
}

#[derive(Debug, Clone)]
pub struct TokenRequest {
    pub grant_type: String,
    pub code: Option<String>,
    pub redirect_uri: Option<String>,
    pub client_id: String,
    pub client_secret: String,
    pub code_verifier: Option<String>,
    pub refresh_token: Option<String>,
    pub scope: Option<String>,
}

#[derive(Debug, Clone)]
pub struct TokenResponse {
    pub access_token: String,
    pub refresh_token: Option<String>,
    pub token_type: String,
    pub expires_in: i64,
    pub scope: String,
}

#[derive(Debug, Clone)]
pub struct RevokeRequest {
    pub token: String,
    pub client_id: String,
    pub client_secret: String,
}

/// A user profile.
#[derive(Debug, Clone)]
pub struct User {
    pub id: i32,
    pub name: String,
    pub email: String,
}

#[derive(Debug, Clone)]
pub struct NewUser {
    pub name: String,
    pub email: String,
}

/// A partial update of a user profile: absent fields keep their value.
#[derive(Debug, Clone)]
pub struct UpdateUser {
    pub name: Option<String>,
    pub email: Option<String>,
}

} // verus!
