//! Access tokens (HS256-signed JWTs) and opaque refresh tokens.

use vstd::prelude::*;

verus! {

/// The claims an access token carries.
pub struct Claims {
    pub sub: String,
    pub email: Option<String>,
    pub client_id: String,
    pub scopes: String,
    pub exp: usize,
    pub iat: usize,
}

#[verifier::external_type_specification]
#[verifier::external_body]
pub struct ExJwtError(jsonwebtoken::errors::Error);

/// The compact JWT that `jsonwebtoken::encode` produces with the default header
/// (HS256) for the claims object `{sub, email, client_id, scopes, exp, iat}`
/// under the HMAC secret `secret`.
pub uninterp spec fn jwt_hs256(
    sub: Seq<char>,
    email: Option<Seq<char>>,
    client_id: Seq<char>,
    scopes: Seq<char>,
    exp: usize,
    iat: usize,
    secret: Seq<char>,
) -> Seq<char>;

/// The text of an optional string slice.
pub open spec fn opt_view(o: Option<&str>) -> Option<Seq<char>> {
    match o {
        Some(s) => Some(s@),
        None => None,
    }
}

/// Signs a claims object with `jsonwebtoken::encode` (default header, HS256,
/// `EncodingKey::from_secret`). The claims are handed over as a JSON object built
/// field by field. Claimed: the call succeeds (an HMAC key always matches the HS256
/// header, and serialising a JSON object cannot fail) and its token is the one
/// `jwt_hs256` names for these claims and this secret.
#[verifier::external_body]
fn jwt_encode_hs256(
    sub: &str,
    email: Option<&str>,
    client_id: &str,
    scopes: &str,
    exp: usize,
    iat: usize,
    secret: &str,
) -> (r: Result<String, jsonwebtoken::errors::Error>)
    ensures
        r is Ok,
        r->Ok_0@ == jwt_hs256(sub@, opt_view(email), client_id@, scopes@, exp, iat, secret@),
{
    let mut m = serde_json::Map::new();
    m.insert("sub".to_string(), serde_json::Value::from(sub));
    m.insert("email".to_string(), serde_json::Value::from(email));
    m.insert("client_id".to_string(), serde_json::Value::from(client_id));
    m.insert("scopes".to_string(), serde_json::Value::from(scopes));
    m.insert("exp".to_string(), serde_json::Value::from(exp));
    m.insert("iat".to_string(), serde_json::Value::from(iat));
    let key = jsonwebtoken::EncodingKey::from_secret(secret.as_bytes());
    jsonwebtoken::encode(&jsonwebtoken::Header::default(), &serde_json::Value::Object(m), &key)
}

/// The token carries a valid HS256 signature under the HMAC secret `secret`: it
/// has the three dot-separated Base64URL parts, its header names HS256, and the
/// HMAC-SHA256 of its first two parts under `secret` is its third part.
pub uninterp spec fn hs256_verifies(token: Seq<char>, secret: Seq<char>) -> bool;

/// What validating `token` under `secret` may give: success only for a token whose
/// signature verifies; and for a token the library signed with `secret`, success or
/// the expired-signature error, nothing else.
pub open spec fn validation_outcome(token: Seq<char>, secret: Seq<char>, r: Result<(), String>) -> bool {
    &&& r is Ok ==> hs256_verifies(token, secret)
    &&& forall|sub: Seq<char>, email: Option<Seq<char>>, client_id: Seq<char>, scopes: Seq<char>, exp: usize, iat: usize|
        token == #[trigger] jwt_hs256(sub, email, client_id, scopes, exp, iat, secret) ==> (r is Ok
            || r->Err_0@ == "ExpiredSignature"@)
}

/// Checks a token with `jsonwebtoken::decode` (`DecodingKey::from_secret`,
/// `Validation::default()`: HS256 only, `exp` required and checked against the
/// clock with 60 s of leeway), giving the error's text on failure. Claimed: success
/// only where the signature verifies (`decode` checks it before anything else);
/// and for a token that `encode` made from claims `{sub, email, client_id, scopes,
/// exp, iat}` under the same secret, the only possible failure is
/// `ExpiredSignature` (the signature, header, JSON and required `exp` all check
/// out; no audience, issuer, subject or not-before check is configured). Whether it
/// has expired depends on the clock and is not stated. The crate panics if the
/// system clock is before the Unix epoch, which no argument can rule out.
#[verifier::external_body]
fn jwt_check_hs256(token: &str, secret: &str) -> (r: Result<(), String>)
    ensures
        r is Ok ==> hs256_verifies(token@, secret@),
        forall|sub: Seq<char>, email: Option<Seq<char>>, client_id: Seq<char>, scopes: Seq<char>, exp: usize, iat: usize|
            token@ == #[trigger] jwt_hs256(sub, email, client_id, scopes, exp, iat, secret@) ==> (r is Ok
                || r->Err_0@ == "ExpiredSignature"@),
{
    let key = jsonwebtoken::DecodingKey::from_secret(secret.as_bytes());
    match jsonwebtoken::decode::<serde_json::Value>(token, &key, &jsonwebtoken::Validation::default()) {
        Ok(_) => Ok(()),
        Err(e) => Err(e.to_string()),
    }
}

/// Current Unix time in seconds (`chrono::Utc::now().timestamp()`). Nothing is
/// claimed of the value: it is the clock's.
#[verifier::external_body]
fn now_unix_seconds() -> i64 {
    chrono::Utc::now().timestamp()
}

/// Text of a hyphenated lower-case version-4 UUID: 36 characters, hyphens at
/// positions 8, 13, 18 and 23, lower-case hexadecimal digits elsewhere, version
/// digit `4` and variant digit one of `8`, `9`, `a`, `b`.
pub open spec fn is_uuid_v4_text(s: Seq<char>) -> bool {
    &&& s.len() == 36
    &&& forall|i: int|
        0 <= i < 36 ==> if i == 8 || i == 13 || i == 18 || i == 23 {
            s[i] == '-'
        } else {
            ('0' <= #[trigger] s[i] <= '9') || ('a' <= s[i] <= 'f')
        }
    &&& s[14] == '4'
    &&& (s[19] == '8' || s[19] == '9' || s[19] == 'a' || s[19] == 'b')
}

/// A fresh random UUID (`uuid::Uuid::new_v4().to_string()`). Claimed: the text has
/// the hyphenated version-4 shape. Which UUID comes is chance; the crate panics if
/// the system random source fails, which no argument can rule out.
#[verifier::external_body]
pub(crate) fn new_uuid_v4() -> (s: String)
    ensures
        is_uuid_v4_text(s@),
{
    uuid::Uuid::new_v4().to_string()
}

/// The expiry `now + ttl` as machine arithmetic on `usize` computes it (wrapping).
pub open spec fn expiry(now: usize, ttl_secs: i64) -> usize {
    vstd::wrapping::usize_specs::wrapping_add(now, ttl_secs as usize)
}

/// Access and refresh token issuance.
pub struct TokenService;

impl TokenService {
    /// Signs an access token issued at `now` (Unix seconds) that expires `ttl_secs`
    /// later.
    pub fn create_access_token_at(
        now: usize,
        user_id: &str,
        email: Option<&str>,
        client_id: &str,
        scopes: &str,
        secret: &str,
        ttl_secs: i64,
    ) -> (r: Result<String, jsonwebtoken::errors::Error>)
        ensures
            r matches Ok(t) && t@ == jwt_hs256(
                user_id@,
                opt_view(email),
                client_id@,
                scopes@,
                expiry(now, ttl_secs),
                now,
                secret@,
            ),
    {
        let exp = now.wrapping_add(ttl_secs as usize);
        let claims = Claims {
            sub: String::from_str(user_id),
            email: match email {
                Some(e) => Some(String::from_str(e)),
                None => None,
            },
            client_id: String::from_str(client_id),
            scopes: String::from_str(scopes),
            exp,
            iat: now,
        };
        let email_ref: Option<&str> = match &claims.email {
            Some(e) => Some(e.as_str()),
            None => None,
        };
        jwt_encode_hs256(
            claims.sub.as_str(),
            email_ref,
            claims.client_id.as_str(),
            claims.scopes.as_str(),
            claims.exp,
            claims.iat,
            secret,
        )
    }

    /// Signs an access token issued now that expires `ttl_secs` later. Which
    /// instant "now" is depends on the clock; the token is the one
    /// `create_access_token_at` signs for that instant.
    pub fn create_access_token(
        user_id: &str,
        email: Option<&str>,
        client_id: &str,
        scopes: &str,
        secret: &str,
        ttl_secs: i64,
    ) -> (r: Result<String, jsonwebtoken::errors::Error>)
        ensures
            r matches Ok(t) && exists|now: usize|
                t@ == jwt_hs256(
                    user_id@,
                    opt_view(email),
                    client_id@,
                    scopes@,
                    #[trigger] expiry(now, ttl_secs),
                    now,
                    secret@,
                ),
    {
        let now = now_unix_seconds() as usize;
        let r = Self::create_access_token_at(now, user_id, email, client_id, scopes, secret, ttl_secs);
        assert(r matches Ok(t) && t@ == jwt_hs256(user_id@, opt_view(email), client_id@, scopes@, expiry(now, ttl_secs), now, secret@));
        r
    }

    /// Validates an access token under `secret`: its HS256 signature and its
    /// expiry (with the default leeway), giving the verifier's error text on
    /// failure. A token this service signed with `secret` is refused only as
    /// expired.
    pub fn validate_token(token: &str, secret: &str) -> (r: Result<(), String>)
        ensures
            validation_outcome(token@, secret@, r),
    {
        jwt_check_hs256(token, secret)
    }

    /// A new opaque refresh token: the text of a random version-4 UUID.
    pub fn generate_refresh_token() -> (s: String)
        ensures
            is_uuid_v4_text(s@),
    {
        new_uuid_v4()
    }
}


/// Secret the integration tests sign their tokens with.
pub const TEST_JWT_SECRET: &'static str = "test-secret-for-integration-tests";

/// A one-hour test token for user `test-user-1` (`test@example.com`) of client
/// `test-client` with `scopes`, signed with `secret` at some instant.
pub fn create_test_token_with_secret(scopes: &str, secret: &str) -> (t: String)
    ensures
        exists|now: usize|
            t@ == jwt_hs256(
                "test-user-1"@,
                Some("test@example.com"@),
                "test-client"@,
                scopes@,
                #[trigger] expiry(now, 3600),
                now,
                secret@,
            ),
{
    let r = TokenService::create_access_token(
        "test-user-1",
        Some("test@example.com"),
        "test-client",
        scopes,
        secret,
        3600,
    );
    match r {
        Ok(t) => t,
        // Signing with an HMAC key does not fail (see `create_access_token`).
        Err(_) => String::new(),
    }
}

/// A one-hour test token with `scopes`, signed with the test secret.
pub fn create_test_token(scopes: &str) -> (t: String)
    ensures
        exists|now: usize|
            t@ == jwt_hs256(
                "test-user-1"@,
                Some("test@example.com"@),
                "test-client"@,
                scopes@,
                #[trigger] expiry(now, 3600),
                now,
                TEST_JWT_SECRET@,
            ),
{
    create_test_token_with_secret(scopes, TEST_JWT_SECRET)
}

} // verus!
