//! The OAuth2 authorization server: client registration, the authorization
//! code grant with PKCE, the client credentials grant, refresh token rotation
//! and revocation.
//!
//! Each operation runs as a sequence of steps around the storage calls that
//! the caller makes: every step here takes what the previous storage call gave
//! back and decides what happens next.

use vstd::prelude::*;
use crate::config::AppConfig;
use vstd::string::StringSliceAdditionalSpecFns;
use crate::crypto::{
    argon2_accepts, argon2_hash_password, argon2_verify_password, phc_string_parses,
    pkce_challenge, pkce_s256, random_bytes_32,
};
use crate::errors::{concat_str, from_db_spec, DbError, ServiceError};
use crate::models::{
    timestamp_in_range, MAX_TIMESTAMP_MICROS, MIN_TIMESTAMP_MICROS, AuthUser, AuthorizationCode, AuthorizeParams, AuthorizeResponse,
    ClientRegisterRequest, ClientRegisterResponse, NewAuthorizationCode, NewOAuthClient,
    NewRefreshToken, OAuthClient, RefreshToken, TokenRequest, TokenResponse,
};
use crate::scopes::{scopes_allowed, validate_scopes, validate_scopes_spec};
use crate::text::{decimal_int, hex_digit_char, hex_lower, lemma_digit_char, i32_to_string, str_eq, to_hex_lower};
use crate::token::{expiry, is_uuid_v4_text, jwt_hs256, new_uuid_v4, TokenService};

verus! {

/// Lifetime of an authorization code: ten minutes, in microseconds.
pub const AUTHORIZATION_CODE_TTL_MICROS: i64 = 600_000_000;

/// How long a client record stays in the cache: ten minutes, in seconds.
pub const CLIENT_CACHE_TTL_SECS: u64 = 600;

/// One day in microseconds.
pub const DAY_MICROS: i64 = 86_400_000_000;

/// The grant a token request asks for.
#[derive(Debug, Clone, Copy, PartialEq, Eq)]
pub enum GrantType {
    AuthorizationCode,
    ClientCredentials,
    RefreshToken,
}

/// What a client registration stores, and the secret handed once to the client.
pub struct ClientRegistration {
    pub new_client: NewOAuthClient,
    pub client_secret: String,
}

/// The fields an authorization code exchange must carry.
pub struct CodeExchange {
    pub code: String,
    pub redirect_uri: String,
    pub code_verifier: String,
}

/// A token response together with the refresh token record to store for it.
pub struct IssuedTokens {
    pub response: TokenResponse,
    pub refresh_record: NewRefreshToken,
}

/// A redeemed authorization code: the record as it was found, and the record to
/// store in its place, which marks the code used.
pub struct RedeemedCode {
    pub code: AuthorizationCode,
    pub store: AuthorizationCode,
}

/// A redeemed refresh token: the record as it was found, and the token text to
/// delete from the store (the one presented), as rotation retires it.
pub struct RedeemedRefresh {
    pub token: RefreshToken,
    pub revoke: String,
}

/// A refused refresh token; `revoke_stored` asks that the stored token be deleted
/// before the error is answered.
pub struct RefreshRejection {
    pub error: ServiceError,
    pub revoke_stored: bool,
}

/// The error a request parameter check gives, as its kind and text.
pub open spec fn invalid_request(r: Result<(), ServiceError>, text: Seq<char>) -> bool {
    r matches Err(ServiceError::InvalidRequest(m)) && m@ == text
}

/// Why an authorization request is refused before the client is looked up.
pub open spec fn authorize_params_failure(p: AuthorizeParams) -> Option<Seq<char>> {
    if p.response_type@ != "code"@ {
        Some("response_type must be 'code'"@)
    } else if p.code_challenge_method@ != "S256"@ {
        Some("code_challenge_method must be 'S256'"@)
    } else {
        None
    }
}

/// Why a stored authorization code cannot be exchanged by `client_id` with
/// `redirect_uri` and `code_verifier` at time `now`, checked in this order.
pub open spec fn code_exchange_failure(
    c: AuthorizationCode,
    client_id: Seq<char>,
    redirect_uri: Seq<char>,
    code_verifier: Seq<char>,
    now: i64,
) -> Option<Seq<char>> {
    if c.used {
        Some("Authorization code already used"@)
    } else if c.expires_at < now {
        Some("Authorization code expired"@)
    } else if c.client_id@ != client_id {
        Some("client_id mismatch"@)
    } else if c.redirect_uri@ != redirect_uri {
        Some("redirect_uri mismatch"@)
    } else if pkce_s256(code_verifier) != c.code_challenge@ {
        Some("PKCE verification failed"@)
    } else {
        None
    }
}

/// Why a code lookup cannot be exchanged: no code was found, or the found code
/// fails `code_exchange_failure`.
pub open spec fn code_refusal(
    found: Result<AuthorizationCode, DbError>,
    client_id: Seq<char>,
    redirect_uri: Seq<char>,
    code_verifier: Seq<char>,
    now: i64,
) -> Option<Seq<char>> {
    match found {
        Err(_) => Some("Invalid authorization code"@),
        Ok(c) => code_exchange_failure(c, client_id, redirect_uri, code_verifier, now),
    }
}

/// An authorization code as it is stored once redeemed: the same record, marked used.
pub open spec fn used_code(c: AuthorizationCode) -> AuthorizationCode {
    AuthorizationCode { used: true, ..c }
}

/// The stored authorization codes by code text, as a lookup answers: the record, or
/// no row.
pub open spec fn code_lookup(store: Map<Seq<char>, AuthorizationCode>, code: Seq<char>) -> Result<
    AuthorizationCode,
    DbError,
> {
    if store.contains_key(code) {
        Ok(store[code])
    } else {
        Err(DbError::RowNotFound)
    }
}

/// Why a refresh token lookup cannot be used by `client_id` at `now`: no token was
/// found, or the found token fails `refresh_failure`.
pub open spec fn refresh_refusal(found: Result<RefreshToken, DbError>, client_id: Seq<char>, now: i64) -> Option<
    Seq<char>,
> {
    match found {
        Err(_) => Some("Invalid refresh token"@),
        Ok(t) => refresh_failure(t, client_id, now),
    }
}

/// The stored refresh tokens by token text, as a lookup answers.
pub open spec fn token_lookup(store: Map<Seq<char>, RefreshToken>, token: Seq<char>) -> Result<
    RefreshToken,
    DbError,
> {
    if store.contains_key(token) {
        Ok(store[token])
    } else {
        Err(DbError::RowNotFound)
    }
}

/// Why a stored refresh token cannot be used by `client_id` at time `now`.
pub open spec fn refresh_failure(t: RefreshToken, client_id: Seq<char>, now: i64) -> Option<
    Seq<char>,
> {
    if t.expires_at < now {
        Some("Refresh token expired"@)
    } else if t.client_id@ != client_id {
        Some("client_id mismatch"@)
    } else {
        None
    }
}

/// The client's secret checks out against the stored hash.
pub open spec fn client_secret_ok(raw: Seq<char>, stored_hash: Seq<char>) -> bool {
    phc_string_parses(stored_hash) && argon2_accepts(vstd::utf8::encode_utf8(raw), stored_hash)
}

/// What `verify_client_secret` answers, up to the text of a parse error.
pub open spec fn verify_client_secret_spec(raw: Seq<char>, stored_hash: Seq<char>, r: Result<
    (),
    ServiceError,
>) -> bool {
    if !phc_string_parses(stored_hash) {
        r matches Err(ServiceError::InternalError(m)) && m@.len() >= 18 && m@.take(18)
            == "Hash parse error: "@
    } else if !argon2_accepts(vstd::utf8::encode_utf8(raw), stored_hash) {
        r matches Err(ServiceError::InvalidClient(m)) && m@ == "Client authentication failed"@
    } else {
        r is Ok
    }
}

/// The access token issued for `sub` (with `email`), `client_id` and `scopes` under
/// `config`, signed at some instant.
pub open spec fn is_access_token_for(
    token: Seq<char>,
    sub: Seq<char>,
    email: Option<Seq<char>>,
    client_id: Seq<char>,
    scopes: Seq<char>,
    config: AppConfig,
) -> bool {
    exists|now: usize|
        token == jwt_hs256(
            sub,
            email,
            client_id,
            scopes,
            #[trigger] expiry(now, config.access_token_ttl_secs),
            now,
            config.jwt_secret@,
        )
}

impl OAuthService {
    /// Cache key of a client record.
    pub fn client_cache_key(client_id: &str) -> (k: String)
        ensures
            k@ == "oauth_client:"@ + client_id@,
    {
        concat_str("oauth_client:", client_id)
    }

    /// A client looked up by its id: any lookup failure means the client is unknown.
    pub fn client_from_lookup(found: Result<OAuthClient, DbError>) -> (r: Result<
        OAuthClient,
        ServiceError,
    >)
        ensures
            match found {
                Ok(c) => r == Ok::<OAuthClient, ServiceError>(c),
                Err(_) => r matches Err(ServiceError::InvalidClient(m)) && m@ == "Client not found"@,
            },
    {
        match found {
            Ok(c) => Ok(c),
            Err(_) => Err(ServiceError::InvalidClient(String::from_str("Client not found"))),
        }
    }

    /// The client an authorization request names: an unknown client makes the
    /// request invalid (a 400 answer; the token endpoint answers it as an
    /// unauthenticated client instead).
    pub fn authorize_client_from_lookup(found: Result<OAuthClient, DbError>) -> (r: Result<
        OAuthClient,
        ServiceError,
    >)
        ensures
            match found {
                Ok(c) => r == Ok::<OAuthClient, ServiceError>(c),
                Err(_) => r matches Err(ServiceError::InvalidRequest(m)) && m@ == "Client not found"@,
            },
    {
        match found {
            Ok(c) => Ok(c),
            Err(_) => Err(ServiceError::InvalidRequest(String::from_str("Client not found"))),
        }
    }

    // ----- client registration -----

    /// Mints a client id and a secret for a new client and hashes the secret.
    /// The client id is a random UUID; the secret is 64 lower-case hexadecimal
    /// digits of 32 random bytes, and the stored hash verifies it without being the
    /// secret itself.
    pub fn prepare_client_registration(req: &ClientRegisterRequest) -> (r: Result<
        ClientRegistration,
        ServiceError,
    >)
        ensures
            r is Ok,
            r matches Ok(reg) && {
                &&& reg.new_client.client_name == req.client_name
                &&& reg.new_client.redirect_uri == req.redirect_uri
                &&& reg.new_client.scopes == req.scopes
                &&& is_uuid_v4_text(reg.new_client.client_id@)
                &&& exists|b: Seq<u8>| b.len() == 32 && #[trigger] hex_lower(b) == reg.client_secret@
                &&& client_secret_ok(reg.client_secret@, reg.new_client.client_secret_hash@)
                &&& reg.new_client.client_secret_hash@ != reg.client_secret@
            },
    {
        let cid = new_uuid_v4();
        let bytes = random_bytes_32();
        let raw_secret = to_hex_lower(bytes.as_slice());
        let secret_text = raw_secret.as_str();
        proof {
            lemma_hex_lower_ascii(bytes@);
            vstd::string::is_ascii_spec_bytes(secret_text);
            assert(secret_text.spec_bytes().len() == 64);
        }
        let hashed = argon2_hash_password(secret_text.as_bytes());
        match hashed {
            Err(e) => Err(ServiceError::InternalError(concat_str("Hash error: ", e.as_str()))),
            Ok(secret_hash) => {
                proof {
                    assert(raw_secret@[0] != '$');
                    assert(secret_hash@[0] != raw_secret@[0]);
                }
                let new_client = NewOAuthClient {
                    client_id: cid,
                    client_secret_hash: secret_hash,
                    client_name: req.client_name.clone(),
                    redirect_uri: req.redirect_uri.clone(),
                    scopes: req.scopes.clone(),
                };
                Ok(ClientRegistration { new_client, client_secret: raw_secret })
            },
        }
    }

    /// The registration answer once the client is stored: the stored fields and
    /// the raw secret, or the storage error.
    pub fn finish_client_registration(
        created: Result<OAuthClient, DbError>,
        client_secret: String,
    ) -> (r: Result<ClientRegisterResponse, ServiceError>)
        ensures
            match created {
                Ok(c) => r matches Ok(resp) && resp.client_id == c.client_id && resp.client_secret
                    == client_secret && resp.client_name == c.client_name && resp.redirect_uri
                    == c.redirect_uri && resp.scopes == c.scopes,
                Err(e) => r == Err::<ClientRegisterResponse, ServiceError>(from_db_spec(e)),
            },
    {
        match created {
            Ok(c) => Ok(
                ClientRegisterResponse {
                    client_id: c.client_id,
                    client_secret,
                    client_name: c.client_name,
                    redirect_uri: c.redirect_uri,
                    scopes: c.scopes,
                },
            ),
            Err(e) => Err(ServiceError::from(e)),
        }
    }
}

/// The characters of a lower-case hexadecimal text are ASCII hexadecimal digits.
pub proof fn lemma_hex_lower_ascii(b: Seq<u8>)
    ensures
        vstd::utf8::is_ascii_chars(hex_lower(b)),
        hex_lower(b).len() == 2 * b.len(),
        forall|i: int|
            0 <= i < hex_lower(b).len() ==> ('0' <= #[trigger] hex_lower(b)[i] <= '9') || ('a'
                <= hex_lower(b)[i] <= 'f'),
    decreases b.len(),
{
    if b.len() > 0 {
        lemma_hex_lower_ascii(b.drop_last());
        let h = hex_lower(b);
        let p = hex_lower(b.drop_last());
        let hi = (b.last() / 16) as nat;
        let lo = (b.last() % 16) as nat;
        lemma_hex_digit_char(hi);
        lemma_hex_digit_char(lo);
        assert forall|i: int| 0 <= i < h.len() implies '\0' <= #[trigger] h[i] <= '\u{7f}' && (('0'
            <= h[i] <= '9') || ('a' <= h[i] <= 'f')) by {
            if i < p.len() {
                assert(h[i] == p[i]);
            }
        }
    }
}

proof fn lemma_hex_digit_char(d: nat)
    requires
        d < 16,
    ensures
        ('0' <= hex_digit_char(d) <= '9') || ('a' <= hex_digit_char(d) <= 'f'),
{
    if d < 10 {
        lemma_digit_char(d);
    }
}

impl OAuthService {
    // ----- authorization code grant: authorization -----

    /// Checks an authorization request before its client is looked up: only the
    /// `code` response type and the `S256` challenge method are supported.
    pub fn check_authorize_params(params: &AuthorizeParams) -> (r: Result<(), ServiceError>)
        ensures
            match authorize_params_failure(*params) {
                None => r is Ok,
                Some(text) => invalid_request(r, text),
            },
    {
        if !str_eq(params.response_type.as_str(), "code") {
            return Err(ServiceError::InvalidRequest(String::from_str("response_type must be 'code'")));
        }
        if !str_eq(params.code_challenge_method.as_str(), "S256") {
            return Err(
                ServiceError::InvalidRequest(String::from_str("code_challenge_method must be 'S256'")),
            );
        }
        Ok(())
    }

    /// Checks an authorization request against its client: the redirect URI must
    /// be the registered one and every requested scope one the client may use.
    pub fn check_client_for_authorize(params: &AuthorizeParams, client: &OAuthClient) -> (r: Result<
        (),
        ServiceError,
    >)
        ensures
            client.redirect_uri@ != params.redirect_uri@ ==> invalid_request(r, "redirect_uri mismatch"@),
            client.redirect_uri@ == params.redirect_uri@ ==> match validate_scopes_spec(
                params.scope@,
                client.scopes@,
            ) {
                Ok(_) => r is Ok,
                Err(text) => invalid_request(r, text),
            },
            r is Ok <==> client.redirect_uri@ == params.redirect_uri@ && scopes_allowed(
                params.scope@,
                client.scopes@,
            ),
    {
        if client.redirect_uri != params.redirect_uri {
            return Err(ServiceError::InvalidRequest(String::from_str("redirect_uri mismatch")));
        }
        validate_scopes(params.scope.as_str(), client.scopes.as_str())
    }

    /// A fresh authorization code: 64 lower-case hexadecimal digits of 32 random bytes.
    pub fn new_authorization_code() -> (code: String)
        ensures
            exists|b: Seq<u8>| b.len() == 32 && #[trigger] hex_lower(b) == code@,
    {
        let bytes = random_bytes_32();
        to_hex_lower(bytes.as_slice())
    }

    /// The authorization code record to store for an approved request: bound to the
    /// request's client, redirect URI, scopes and PKCE challenge and to the user, and
    /// valid for ten minutes from `now`.
    pub fn authorization_code_record(
        params: AuthorizeParams,
        user_id: i32,
        code: String,
        now: i64,
    ) -> (rec: NewAuthorizationCode)
        requires
            timestamp_in_range(now + AUTHORIZATION_CODE_TTL_MICROS),
        ensures
            rec.code == code,
            rec.client_id == params.client_id,
            rec.user_id == user_id,
            rec.redirect_uri == params.redirect_uri,
            rec.scopes == params.scope,
            rec.code_challenge == params.code_challenge,
            rec.code_challenge_method == params.code_challenge_method,
            rec.expires_at == now + AUTHORIZATION_CODE_TTL_MICROS,
    {
        NewAuthorizationCode {
            code,
            client_id: params.client_id,
            user_id,
            redirect_uri: params.redirect_uri,
            scopes: params.scope,
            code_challenge: params.code_challenge,
            code_challenge_method: params.code_challenge_method,
            expires_at: now + AUTHORIZATION_CODE_TTL_MICROS,
        }
    }

    /// The authorization answer once the code is stored: the code and the client's
    /// `state`, or the storage error.
    pub fn finish_authorize(
        stored: Result<AuthorizationCode, DbError>,
        code: String,
        state: String,
    ) -> (r: Result<AuthorizeResponse, ServiceError>)
        ensures
            match stored {
                Ok(_) => r matches Ok(resp) && resp.code == code && resp.state == state,
                Err(e) => r == Err::<AuthorizeResponse, ServiceError>(from_db_spec(e)),
            },
    {
        match stored {
            Ok(_) => Ok(AuthorizeResponse { code, state }),
            Err(e) => Err(ServiceError::from(e)),
        }
    }

    // ----- token endpoint -----

    /// The grant a token request names; any other `grant_type` is refused.
    pub fn grant_type_of(grant_type: &str) -> (r: Result<GrantType, ServiceError>)
        ensures
            grant_type@ == "authorization_code"@ ==> r == Ok::<GrantType, ServiceError>(
                GrantType::AuthorizationCode,
            ),
            grant_type@ == "client_credentials"@ ==> r == Ok::<GrantType, ServiceError>(
                GrantType::ClientCredentials,
            ),
            grant_type@ == "refresh_token"@ ==> r == Ok::<GrantType, ServiceError>(
                GrantType::RefreshToken,
            ),
            grant_type@ != "authorization_code"@ && grant_type@ != "client_credentials"@
                && grant_type@ != "refresh_token"@ ==> (r matches Err(ServiceError::InvalidRequest(m))
                && m@ == "Unsupported grant_type: "@ + grant_type@),
    {
        proof {
            reveal_strlit("authorization_code");
            reveal_strlit("client_credentials");
            reveal_strlit("refresh_token");
            assert("authorization_code"@[0] != "client_credentials"@[0]);
            assert("authorization_code"@[0] != "refresh_token"@[0]);
            assert("client_credentials"@[0] != "refresh_token"@[0]);
        }
        if str_eq(grant_type, "authorization_code") {
            Ok(GrantType::AuthorizationCode)
        } else if str_eq(grant_type, "client_credentials") {
            Ok(GrantType::ClientCredentials)
        } else if str_eq(grant_type, "refresh_token") {
            Ok(GrantType::RefreshToken)
        } else {
            Err(ServiceError::InvalidRequest(concat_str("Unsupported grant_type: ", grant_type)))
        }
    }

    /// Checks that the client's secret matches the stored hash.
    pub fn verify_client_secret(raw_secret: &str, stored_hash: &str) -> (r: Result<(), ServiceError>)
        ensures
            verify_client_secret_spec(raw_secret@, stored_hash@, r),
            r is Ok <==> client_secret_ok(raw_secret@, stored_hash@),
    {
        match argon2_verify_password(raw_secret.as_bytes(), stored_hash) {
            Err(e) => {
                let m = concat_str("Hash parse error: ", e.as_str());
                proof {
                    reveal_strlit("Hash parse error: ");
                    assert(m@.take(18) =~= "Hash parse error: "@);
                }
                Err(ServiceError::InternalError(m))
            },
            Ok(false) => Err(
                ServiceError::InvalidClient(String::from_str("Client authentication failed")),
            ),
            Ok(true) => Ok(()),
        }
    }

    /// The fields an authorization code exchange needs: `code`, `redirect_uri` and
    /// `code_verifier`, each reported missing in that order.
    pub fn code_exchange_params(req: &TokenRequest) -> (r: Result<CodeExchange, ServiceError>)
        ensures
            req.code is None ==> (r matches Err(ServiceError::InvalidRequest(m)) && m@ == "Missing 'code'"@),
            req.code is Some && req.redirect_uri is None ==> (r matches Err(ServiceError::InvalidRequest(m))
                && m@ == "Missing 'redirect_uri'"@),
            req.code is Some && req.redirect_uri is Some && req.code_verifier is None ==> (r matches Err(
                ServiceError::InvalidRequest(m),
            ) && m@ == "Missing 'code_verifier'"@),
            req.code is Some && req.redirect_uri is Some && req.code_verifier is Some ==> (r matches Ok(x)
                && x.code == req.code->Some_0 && x.redirect_uri == req.redirect_uri->Some_0
                && x.code_verifier == req.code_verifier->Some_0),
    {
        let code = match &req.code {
            Some(c) => c.clone(),
            None => return Err(ServiceError::InvalidRequest(String::from_str("Missing 'code'"))),
        };
        let redirect_uri = match &req.redirect_uri {
            Some(c) => c.clone(),
            None => return Err(ServiceError::InvalidRequest(String::from_str("Missing 'redirect_uri'"))),
        };
        let code_verifier = match &req.code_verifier {
            Some(c) => c.clone(),
            None => return Err(
                ServiceError::InvalidRequest(String::from_str("Missing 'code_verifier'")),
            ),
        };
        Ok(CodeExchange { code, redirect_uri, code_verifier })
    }

    /// Decides whether a looked-up authorization code may be exchanged: it must
    /// exist, be unused and unexpired at `now`, belong to `client_id`, name the same
    /// redirect URI, and the verifier's `S256` challenge must be the stored one.
    pub fn check_authorization_code(
        found: Result<AuthorizationCode, DbError>,
        client_id: &str,
        redirect_uri: &str,
        code_verifier: &str,
        now: i64,
    ) -> (r: Result<AuthorizationCode, ServiceError>)
        ensures
            match found {
                Err(_) => r matches Err(ServiceError::InvalidGrant(m)) && m@
                    == "Invalid authorization code"@,
                Ok(c) => match code_exchange_failure(
                    c,
                    client_id@,
                    redirect_uri@,
                    code_verifier@,
                    now,
                ) {
                    None => r == Ok::<AuthorizationCode, ServiceError>(c),
                    Some(text) => r matches Err(ServiceError::InvalidGrant(m)) && m@ == text,
                },
            },
    {
        let c = match found {
            Ok(c) => c,
            Err(_) => return Err(
                ServiceError::InvalidGrant(String::from_str("Invalid authorization code")),
            ),
        };
        if c.used {
            return Err(ServiceError::InvalidGrant(String::from_str("Authorization code already used")));
        }
        if c.expires_at < now {
            return Err(ServiceError::InvalidGrant(String::from_str("Authorization code expired")));
        }
        if !str_eq(c.client_id.as_str(), client_id) {
            return Err(ServiceError::InvalidGrant(String::from_str("client_id mismatch")));
        }
        if !str_eq(c.redirect_uri.as_str(), redirect_uri) {
            return Err(ServiceError::InvalidGrant(String::from_str("redirect_uri mismatch")));
        }
        let computed = pkce_challenge(code_verifier);
        if computed != c.code_challenge {
            return Err(ServiceError::InvalidGrant(String::from_str("PKCE verification failed")));
        }
        Ok(c)
    }

    /// The record to store for a redeemed code: the same code, marked used.
    fn used_record(c: &AuthorizationCode) -> (r: AuthorizationCode)
        ensures
            r == used_code(*c),
    {
        AuthorizationCode {
            id: c.id,
            code: c.code.clone(),
            client_id: c.client_id.clone(),
            user_id: c.user_id,
            redirect_uri: c.redirect_uri.clone(),
            scopes: c.scopes.clone(),
            code_challenge: c.code_challenge.clone(),
            code_challenge_method: c.code_challenge_method.clone(),
            expires_at: c.expires_at,
            used: true,
            created_at: c.created_at,
        }
    }

    /// Redeems a looked-up authorization code: on success gives the code and the
    /// record to store in its place, marked used, so that the code works once; the
    /// refusals are those of `check_authorization_code`.
    pub fn redeem_authorization_code(
        found: Result<AuthorizationCode, DbError>,
        client_id: &str,
        redirect_uri: &str,
        code_verifier: &str,
        now: i64,
    ) -> (r: Result<RedeemedCode, ServiceError>)
        ensures
            match code_refusal(found, client_id@, redirect_uri@, code_verifier@, now) {
                None => r matches Ok(x) && found == Ok::<AuthorizationCode, DbError>(x.code) && x.store
                    == used_code(x.code),
                Some(text) => r matches Err(ServiceError::InvalidGrant(m)) && m@ == text,
            },
    {
        let c = Self::check_authorization_code(found, client_id, redirect_uri, code_verifier, now)?;
        let store = Self::used_record(&c);
        Ok(RedeemedCode { code: c, store })
    }

    /// Redeems a looked-up refresh token presented as `presented`: on success gives
    /// the token and the text to delete (the presented one), so that a refresh token
    /// works once; the refusals are those of `check_refresh_token`.
    pub fn redeem_refresh_token(
        found: Result<RefreshToken, DbError>,
        presented: &str,
        client_id: &str,
        now: i64,
    ) -> (r: Result<RedeemedRefresh, RefreshRejection>)
        ensures
            match refresh_refusal(found, client_id@, now) {
                None => r matches Ok(x) && found == Ok::<RefreshToken, DbError>(x.token) && x.revoke@
                    == presented@,
                Some(text) => r matches Err(rej) && rej.revoke_stored == (found matches Ok(t)
                    && t.expires_at < now) && (rej.error matches ServiceError::InvalidGrant(m) && m@
                    == text),
            },
    {
        let t = Self::check_refresh_token(found, client_id, now)?;
        Ok(RedeemedRefresh { token: t, revoke: String::from_str(presented) })
    }

    /// Whether `now` plus `days` days is a point in time that can be stored.
    pub fn expiry_after_days_in_range(now: i64, days: i64) -> (b: bool)
        ensures
            b == timestamp_in_range(now + days * DAY_MICROS),
    {
        let t: i128 = now as i128 + (days as i128) * (DAY_MICROS as i128);
        MIN_TIMESTAMP_MICROS as i128 <= t && t <= MAX_TIMESTAMP_MICROS as i128
    }

    /// Issues an access token and a rotated refresh token for a user: the access
    /// token carries the user's id (decimal) and email, the client and the scopes and
    /// expires after the configured lifetime; the refresh token is a random UUID
    /// stored for the same client, user and scopes until `now` plus the configured
    /// number of days.
    pub fn issue_user_tokens(
        user_id: i32,
        email: &str,
        client_id: &str,
        scopes: &str,
        config: &AppConfig,
        now: i64,
    ) -> (r: IssuedTokens)
        requires
            timestamp_in_range(now + config.refresh_token_ttl_days * DAY_MICROS),
        ensures
            is_access_token_for(
                r.response.access_token@,
                decimal_int(user_id as int),
                Some(email@),
                client_id@,
                scopes@,
                *config,
            ),
            r.response.refresh_token == Some(r.refresh_record.token),
            is_uuid_v4_text(r.refresh_record.token@),
            r.response.token_type@ == "Bearer"@,
            r.response.expires_in == config.access_token_ttl_secs,
            r.response.scope@ == scopes@,
            r.refresh_record.client_id@ == client_id@,
            r.refresh_record.user_id == user_id,
            r.refresh_record.scopes@ == scopes@,
            r.refresh_record.expires_at == now + config.refresh_token_ttl_days * DAY_MICROS,
    {
        let sub = i32_to_string(user_id);
        let tok = TokenService::create_access_token(
            sub.as_str(),
            Some(email),
            client_id,
            scopes,
            config.jwt_secret.as_str(),
            config.access_token_ttl_secs,
        );
        let access_token = match tok {
            Ok(t) => t,
            // Signing with an HMAC key does not fail (see `create_access_token`).
            Err(_) => String::new(),
        };
        let refresh = TokenService::generate_refresh_token();
        let expires_at: i64 = (now as i128 + (config.refresh_token_ttl_days as i128) * (
        DAY_MICROS as i128)) as i64;
        let response = TokenResponse {
            access_token,
            refresh_token: Some(refresh.clone()),
            token_type: String::from_str("Bearer"),
            expires_in: config.access_token_ttl_secs,
            scope: String::from_str(scopes),
        };
        let refresh_record = NewRefreshToken {
            token: refresh,
            client_id: String::from_str(client_id),
            user_id,
            scopes: String::from_str(scopes),
            expires_at,
        };
        IssuedTokens { response, refresh_record }
    }

    /// The token answer once the refresh token is stored, or the storage error.
    pub fn finish_token_issue(stored: Result<RefreshToken, DbError>, issued: IssuedTokens) -> (r:
        Result<TokenResponse, ServiceError>)
        ensures
            match stored {
                Ok(_) => r == Ok::<TokenResponse, ServiceError>(issued.response),
                Err(e) => r == Err::<TokenResponse, ServiceError>(from_db_spec(e)),
            },
    {
        match stored {
            Ok(_) => Ok(issued.response),
            Err(e) => Err(ServiceError::from(e)),
        }
    }

    /// The client credentials grant once the client is looked up: the secret must
    /// match, the requested scopes (`read` when none are given) must all be the
    /// client's, and the access token is issued to the client itself, without a
    /// refresh token.
    pub fn client_credentials_grant(req: &TokenRequest, client: &OAuthClient, config: &AppConfig) -> (r:
        Result<TokenResponse, ServiceError>)
        ensures
            ({
                let requested = match req.scope {
                    Some(s) => s@,
                    None => "read"@,
                };
                &&& !client_secret_ok(req.client_secret@, client.client_secret_hash@) ==> r is Err
                    && verify_client_secret_spec(
                    req.client_secret@,
                    client.client_secret_hash@,
                    Err(r->Err_0),
                )
                &&& client_secret_ok(req.client_secret@, client.client_secret_hash@) ==> match validate_scopes_spec(
                    requested,
                    client.scopes@,
                ) {
                    Err(text) => r matches Err(ServiceError::InvalidRequest(m)) && m@ == text,
                    Ok(_) => r matches Ok(resp) && is_access_token_for(
                        resp.access_token@,
                        req.client_id@,
                        None,
                        req.client_id@,
                        requested,
                        *config,
                    ) && resp.refresh_token is None && resp.token_type@ == "Bearer"@
                        && resp.expires_in == config.access_token_ttl_secs && resp.scope@ == requested,
                }
                &&& r is Ok ==> scopes_allowed(requested, client.scopes@)
            }),
    {
        let requested: &str = match &req.scope {
            Some(s) => s.as_str(),
            None => "read",
        };
        Self::verify_client_secret(req.client_secret.as_str(), client.client_secret_hash.as_str())?;
        validate_scopes(requested, client.scopes.as_str())?;
        let tok = TokenService::create_access_token(
            req.client_id.as_str(),
            None,
            req.client_id.as_str(),
            requested,
            config.jwt_secret.as_str(),
            config.access_token_ttl_secs,
        );
        let access_token = match tok {
            Ok(t) => t,
            // Signing with an HMAC key does not fail (see `create_access_token`).
            Err(_) => String::new(),
        };
        Ok(
            TokenResponse {
                access_token,
                refresh_token: None,
                token_type: String::from_str("Bearer"),
                expires_in: config.access_token_ttl_secs,
                scope: String::from_str(requested),
            },
        )
    }

    /// The refresh token a refresh request must carry.
    pub fn refresh_token_param(req: &TokenRequest) -> (r: Result<String, ServiceError>)
        ensures
            match req.refresh_token {
                Some(t) => r == Ok::<String, ServiceError>(t),
                None => r matches Err(ServiceError::InvalidRequest(m)) && m@ == "Missing 'refresh_token'"@,
            },
    {
        match &req.refresh_token {
            Some(t) => Ok(t.clone()),
            None => Err(ServiceError::InvalidRequest(String::from_str("Missing 'refresh_token'"))),
        }
    }

    /// Decides whether a looked-up refresh token may be used by `client_id` at
    /// `now`: it must exist, be unexpired (an expired one is also deleted) and belong
    /// to the client.
    pub fn check_refresh_token(found: Result<RefreshToken, DbError>, client_id: &str, now: i64) -> (r:
        Result<RefreshToken, RefreshRejection>)
        ensures
            match found {
                Err(_) => r matches Err(rej) && !rej.revoke_stored && (rej.error matches ServiceError::InvalidGrant(m) && m@
                    == "Invalid refresh token"@),
                Ok(t) => match refresh_failure(t, client_id@, now) {
                    None => r == Ok::<RefreshToken, RefreshRejection>(t),
                    Some(text) => r matches Err(rej) && rej.revoke_stored == (t.expires_at < now)
                        && (rej.error matches ServiceError::InvalidGrant(m) && m@ == text),
                },
            },
    {
        let t = match found {
            Ok(t) => t,
            Err(_) => return Err(
                RefreshRejection {
                    error: ServiceError::InvalidGrant(String::from_str("Invalid refresh token")),
                    revoke_stored: false,
                },
            ),
        };
        if t.expires_at < now {
            return Err(
                RefreshRejection {
                    error: ServiceError::InvalidGrant(String::from_str("Refresh token expired")),
                    revoke_stored: true,
                },
            );
        }
        if !str_eq(t.client_id.as_str(), client_id) {
            return Err(
                RefreshRejection {
                    error: ServiceError::InvalidGrant(String::from_str("client_id mismatch")),
                    revoke_stored: false,
                },
            );
        }
        Ok(t)
    }
}

/// The OAuth2 authorization server.
pub struct OAuthService;

} // verus!
