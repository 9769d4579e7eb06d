//! The authorization-code grant as a sequence of decisions between storage
//! calls: the caller performs each action and hands back what the store
//! answered. The order is fixed here: the client authenticates before the code
//! is looked up, the code is redeemed and stored used before its user is looked
//! up, and tokens are answered only once the new refresh token is stored.

use vstd::prelude::*;
use crate::config::AppConfig;
use crate::errors::{from_db_spec, DbError, ServiceError};
use crate::text::decimal_int;
use crate::models::{
    timestamp_in_range, AuthUser, AuthorizationCode, NewRefreshToken, OAuthClient, RefreshToken, TokenRequest,
    TokenResponse,
};
use crate::oauth::{
    client_secret_ok, code_exchange_failure, is_access_token_for, used_code, CodeExchange, IssuedTokens, OAuthService, DAY_MICROS,
};

verus! {

/// Where an authorization-code exchange stands.
pub enum CodeGrant {
    /// The client named by the request is being looked up.
    AwaitClient { req: TokenRequest, exchange: CodeExchange },
    /// The client authenticated with the stored secret hash; the code is being
    /// looked up.
    AwaitCode { req: TokenRequest, exchange: CodeExchange, secret_hash: String },
    /// The code was redeemed at `at`; its used state is being stored.
    AwaitCodeStored { req: TokenRequest, exchange: CodeExchange, secret_hash: String, code: AuthorizationCode, at: i64 },
    /// The code is stored used; its user is being looked up.
    AwaitUser { req: TokenRequest, exchange: CodeExchange, secret_hash: String, code: AuthorizationCode, at: i64 },
    /// Tokens were issued for the user; the new refresh token is being stored.
    AwaitRefreshStored {
        req: TokenRequest,
        exchange: CodeExchange,
        secret_hash: String,
        code: AuthorizationCode,
        at: i64,
        issued: IssuedTokens,
    },
    /// The exchange has answered.
    Finished,
}

/// What the store answered to the last action.
pub enum CodeGrantEvent {
    ClientFound(Result<OAuthClient, DbError>),
    CodeFound(Result<AuthorizationCode, DbError>),
    CodeStored(Result<u64, DbError>),
    UserFound(Result<AuthUser, DbError>),
    RefreshStored(Result<RefreshToken, DbError>),
}

/// What the caller does next.
pub enum CodeGrantAction {
    /// Look up the client with this id.
    LookupClient(String),
    /// Look up the authorization code with this text.
    LookupCode(String),
    /// Store `record` as the authorization code `key`.
    StoreCode { key: String, record: AuthorizationCode },
    /// Look up the user with this id.
    LookupUser(i32),
    /// Store this refresh token.
    StoreRefresh(NewRefreshToken),
    /// Answer the request.
    Answer(Result<TokenResponse, ServiceError>),
}

/// What each stage has established: after the client stage, the request's secret
/// verifies against the client's stored hash; after the code stage, the code was
/// redeemable by this request at `at`.
pub open spec fn grant_wf(s: CodeGrant) -> bool {
    match s {
        CodeGrant::AwaitClient { .. } => true,
        CodeGrant::AwaitCode { req, secret_hash, .. } => client_secret_ok(req.client_secret@, secret_hash@),
        CodeGrant::AwaitCodeStored { req, exchange, secret_hash, code, at } => {
            &&& client_secret_ok(req.client_secret@, secret_hash@)
            &&& code_exchange_failure(code, req.client_id@, exchange.redirect_uri@, exchange.code_verifier@, at) is None
        },
        CodeGrant::AwaitUser { req, exchange, secret_hash, code, at } => {
            &&& client_secret_ok(req.client_secret@, secret_hash@)
            &&& code_exchange_failure(code, req.client_id@, exchange.redirect_uri@, exchange.code_verifier@, at) is None
        },
        CodeGrant::AwaitRefreshStored { req, exchange, secret_hash, code, at, .. } => {
            &&& client_secret_ok(req.client_secret@, secret_hash@)
            &&& code_exchange_failure(code, req.client_id@, exchange.redirect_uri@, exchange.code_verifier@, at) is None
        },
        CodeGrant::Finished => true,
    }
}

/// The event answers the action the stage waits on.
pub open spec fn event_fits(s: CodeGrant, e: CodeGrantEvent) -> bool {
    match s {
        CodeGrant::AwaitClient { .. } => e is ClientFound,
        CodeGrant::AwaitCode { .. } => e is CodeFound,
        CodeGrant::AwaitCodeStored { .. } => e is CodeStored,
        CodeGrant::AwaitUser { .. } => e is UserFound,
        CodeGrant::AwaitRefreshStored { .. } => e is RefreshStored,
        CodeGrant::Finished => false,
    }
}

/// What one decision gives: the stage it moves to and the action it asks for,
/// given the stage `s`, what the store answered and the configuration.
pub open spec fn step_outcome(
    s: CodeGrant,
    event: CodeGrantEvent,
    config: AppConfig,
    now: i64,
    r: (CodeGrant, CodeGrantAction),
) -> bool {
    &&& grant_wf(r.0)
    // Only a finished exchange answers, and it answers tokens only from the last
    // stage, once the refresh token is stored.
    &&& (r.1 is Answer <==> r.0 is Finished)
    &&& (r.1 matches CodeGrantAction::Answer(Ok(_)) ==> s is AwaitRefreshStored
        && event matches CodeGrantEvent::RefreshStored(Ok(_)))
    // The code is looked up only once the client has authenticated.
    &&& (r.0 is AwaitCode ==> (s is AwaitClient && (event matches CodeGrantEvent::ClientFound(Ok(c))
        && client_secret_ok(s->AwaitClient_req.client_secret@, c.client_secret_hash@))))
    // The code is stored, marked used, only once redeemed.
    &&& (r.1 matches CodeGrantAction::StoreCode { key, record } ==> (s is AwaitCode
        && (event matches CodeGrantEvent::CodeFound(Ok(c)) && (code_exchange_failure(
        c,
        s->AwaitCode_req.client_id@,
        s->AwaitCode_exchange.redirect_uri@,
        s->AwaitCode_exchange.code_verifier@,
        now,
    ) is None && record == used_code(c) && key == s->AwaitCode_exchange.code))))
    // The user is looked up only once the code is stored used.
    &&& (r.0 is AwaitUser ==> (s is AwaitCodeStored && (event matches CodeGrantEvent::CodeStored(Ok(_)))))
    // Tokens are issued only for the user found for the redeemed code, with the
    // code's scopes.
    &&& (r.1 matches CodeGrantAction::StoreRefresh(rec) ==> (s is AwaitUser
        && (event matches CodeGrantEvent::UserFound(Ok(u)) && (rec.user_id == u.id && rec.client_id@
        == s->AwaitUser_req.client_id@ && rec.scopes@ == s->AwaitUser_code.scopes@))))
    // The tokens issued at that point are the user's: an access token for the
    // found user's id and email, the request's client and the code's scopes,
    // answered together with the refresh token being stored.
    &&& (event matches CodeGrantEvent::UserFound(Ok(u)) ==> (r.0 matches CodeGrant::AwaitRefreshStored {
        issued: iss,
        ..
    } && (is_access_token_for(
        iss.response.access_token@,
        decimal_int(u.id as int),
        Some(u.email@),
        s->AwaitUser_req.client_id@,
        s->AwaitUser_code.scopes@,
        config,
    ) && iss.response.refresh_token == Some(iss.refresh_record.token) && iss.response.scope@
        == s->AwaitUser_code.scopes@ && iss.response.token_type@ == "Bearer"@ && iss.response.expires_in
        == config.access_token_ttl_secs && r.1 == CodeGrantAction::StoreRefresh(iss.refresh_record))))
    // The answer of the last stage is the response issued with the stored refresh
    // token.
    &&& (event matches CodeGrantEvent::RefreshStored(Ok(_)) ==> r.1 == CodeGrantAction::Answer(
        Ok(s->AwaitRefreshStored_issued.response),
    ))
    // Storage errors are answered as their service errors.
    &&& (event matches CodeGrantEvent::CodeStored(Err(e)) ==> r.1 == CodeGrantAction::Answer(Err(from_db_spec(e))))
    &&& (event matches CodeGrantEvent::UserFound(Err(e)) ==> r.1 == CodeGrantAction::Answer(Err(from_db_spec(e))))
    &&& (event matches CodeGrantEvent::RefreshStored(Err(e)) ==> r.1 == CodeGrantAction::Answer(
        Err(from_db_spec(e)),
    ))
}

fn copy_refresh(r: &NewRefreshToken) -> (c: NewRefreshToken)
    ensures
        c == *r,
{
    NewRefreshToken {
        token: r.token.clone(),
        client_id: r.client_id.clone(),
        user_id: r.user_id,
        scopes: r.scopes.clone(),
        expires_at: r.expires_at,
    }
}

impl CodeGrant {
    /// Starts an exchange: the request must carry `code`, `redirect_uri` and
    /// `code_verifier` (else it is answered with the missing field); then the
    /// client is looked up.
    pub fn start(req: TokenRequest) -> (r: (CodeGrant, CodeGrantAction))
        ensures
            grant_wf(r.0),
            req.code is Some && req.redirect_uri is Some && req.code_verifier is Some ==> (r.0 matches CodeGrant::AwaitClient {
                req: q,
                exchange: x,
            } && (q == req && x.code == req.code->Some_0 && x.redirect_uri == req.redirect_uri->Some_0
                && x.code_verifier == req.code_verifier->Some_0)),
            req.code is Some && req.redirect_uri is Some && req.code_verifier is Some ==> (r.1 matches CodeGrantAction::LookupClient(
                id,
            ) && id == req.client_id),
            !(req.code is Some && req.redirect_uri is Some && req.code_verifier is Some) ==> (r.0 is Finished
                && (r.1 matches CodeGrantAction::Answer(Err(ServiceError::InvalidRequest(_))))),
    {
        match OAuthService::code_exchange_params(&req) {
            Err(e) => (CodeGrant::Finished, CodeGrantAction::Answer(Err(e))),
            Ok(exchange) => {
                let id = req.client_id.clone();
                (CodeGrant::AwaitClient { req, exchange }, CodeGrantAction::LookupClient(id))
            },
        }
    }

    /// One decision: the stage and what the store answered give the next stage and
    /// action. Each stage moves on only as its check passes, and any refusal or
    /// storage error is answered at once.
    pub fn step(self, event: CodeGrantEvent, config: &AppConfig, now: i64) -> (r: (CodeGrant, CodeGrantAction))
        requires
            grant_wf(self),
            event_fits(self, event),
            self is AwaitUser ==> timestamp_in_range(now + config.refresh_token_ttl_days * DAY_MICROS),
        ensures
            step_outcome(self, event, *config, now, r),
    {
        match self {
            CodeGrant::AwaitClient { req, exchange } => {
                let found = match event {
                    CodeGrantEvent::ClientFound(f) => f,
                    _ => {
                        proof {
                            assert(false);
                        }
                        return (CodeGrant::Finished, CodeGrantAction::Answer(Err(ServiceError::NotFound)));
                    },
                };
                let client = match OAuthService::client_from_lookup(found) {
                    Ok(c) => c,
                    Err(e) => return (CodeGrant::Finished, CodeGrantAction::Answer(Err(e))),
                };
                match OAuthService::verify_client_secret(
                    req.client_secret.as_str(),
                    client.client_secret_hash.as_str(),
                ) {
                    Err(e) => (CodeGrant::Finished, CodeGrantAction::Answer(Err(e))),
                    Ok(()) => {
                        let key = exchange.code.clone();
                        (
                            CodeGrant::AwaitCode { req, exchange, secret_hash: client.client_secret_hash },
                            CodeGrantAction::LookupCode(key),
                        )
                    },
                }
            },
            CodeGrant::AwaitCode { req, exchange, secret_hash } => {
                let found = match event {
                    CodeGrantEvent::CodeFound(f) => f,
                    _ => {
                        proof {
                            assert(false);
                        }
                        return (CodeGrant::Finished, CodeGrantAction::Answer(Err(ServiceError::NotFound)));
                    },
                };
                match OAuthService::redeem_authorization_code(
                    found,
                    req.client_id.as_str(),
                    exchange.redirect_uri.as_str(),
                    exchange.code_verifier.as_str(),
                    now,
                ) {
                    Err(e) => (CodeGrant::Finished, CodeGrantAction::Answer(Err(e))),
                    Ok(x) => {
                        let key = exchange.code.clone();
                        (
                            CodeGrant::AwaitCodeStored { req, exchange, secret_hash, code: x.code, at: now },
                            CodeGrantAction::StoreCode { key, record: x.store },
                        )
                    },
                }
            },
            CodeGrant::AwaitCodeStored { req, exchange, secret_hash, code, at } => {
                match event {
                    CodeGrantEvent::CodeStored(Ok(_)) => {
                        let uid = code.user_id;
                        (
                            CodeGrant::AwaitUser { req, exchange, secret_hash, code, at },
                            CodeGrantAction::LookupUser(uid),
                        )
                    },
                    CodeGrantEvent::CodeStored(Err(e)) => (
                        CodeGrant::Finished,
                        CodeGrantAction::Answer(Err(ServiceError::from(e))),
                    ),
                    _ => {
                        proof {
                            assert(false);
                        }
                        (CodeGrant::Finished, CodeGrantAction::Answer(Err(ServiceError::NotFound)))
                    },
                }
            },
            CodeGrant::AwaitUser { req, exchange, secret_hash, code, at } => {
                match event {
                    CodeGrantEvent::UserFound(Ok(user)) => {
                        let issued = OAuthService::issue_user_tokens(
                            user.id,
                            user.email.as_str(),
                            req.client_id.as_str(),
                            code.scopes.as_str(),
                            config,
                            now,
                        );
                        let rec = copy_refresh(&issued.refresh_record);
                        (
                            CodeGrant::AwaitRefreshStored { req, exchange, secret_hash, code, at, issued },
                            CodeGrantAction::StoreRefresh(rec),
                        )
                    },
                    CodeGrantEvent::UserFound(Err(e)) => (
                        CodeGrant::Finished,
                        CodeGrantAction::Answer(Err(ServiceError::from(e))),
                    ),
                    _ => {
                        proof {
                            assert(false);
                        }
                        (CodeGrant::Finished, CodeGrantAction::Answer(Err(ServiceError::NotFound)))
                    },
                }
            },
            CodeGrant::AwaitRefreshStored { issued, .. } => {
                match event {
                    CodeGrantEvent::RefreshStored(stored) => (
                        CodeGrant::Finished,
                        CodeGrantAction::Answer(OAuthService::finish_token_issue(stored, issued)),
                    ),
                    _ => {
                        proof {
                            assert(false);
                        }
                        (CodeGrant::Finished, CodeGrantAction::Answer(Err(ServiceError::NotFound)))
                    },
                }
            },
            CodeGrant::Finished => {
                proof {
                    assert(false);
                }
                (CodeGrant::Finished, CodeGrantAction::Answer(Err(ServiceError::NotFound)))
            },
        }
    }
}

} // verus!
