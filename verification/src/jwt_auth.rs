//! Bearer-token authentication of incoming requests: reading the
//! `Authorization` header and turning verified token claims into the
//! authenticated caller.

use vstd::prelude::*;
use crate::errors::{ServiceError, concat_str};
use crate::text::{split_whitespace, strip_prefix, words};
use crate::token::Claims;

verus! {

/// The caller of a protected endpoint, as its access token describes it.
pub struct AuthenticatedUser {
    pub user_id: String,
    pub email: Option<String>,
    pub client_id: String,
    pub scopes: Vec<String>,
}

/// The token that an `Authorization` header value carries after `Bearer `.
pub open spec fn bearer_token_of(header: Seq<char>) -> Option<Seq<char>> {
    if 7 <= header.len() && header.take(7) == "Bearer "@ {
        Some(header.skip(7))
    } else {
        None
    }
}

/// First step of authenticating a request: the service must know its token
/// secret, the request must carry an `Authorization` header, and the header must
/// read `Bearer <token>`. Gives the token.
pub fn bearer_token(secret_configured: bool, header: Option<&str>) -> (r: Result<String, ServiceError>)
    ensures
        !secret_configured ==> (r matches Err(ServiceError::InternalError(m)) && m@
            == "JWT secret not configured"@),
        secret_configured && header is None ==> (r matches Err(ServiceError::Unauthorized(m)) && m@
            == "Missing Authorization header"@),
        secret_configured && header is Some ==> match bearer_token_of(header->Some_0@) {
            Some(t) => r matches Ok(tok) && tok@ == t,
            None => r matches Err(ServiceError::Unauthorized(m)) && m@
                == "Invalid Authorization format. Use: Bearer <token>"@,
        },
{
    if !secret_configured {
        return Err(ServiceError::InternalError(String::from_str("JWT secret not configured")));
    }
    match header {
        None => Err(ServiceError::Unauthorized(String::from_str("Missing Authorization header"))),
        Some(h) => {
            let p = "Bearer ";
            proof {
                reveal_strlit("Bearer ");
            }
            match strip_prefix(h, p) {
                Some(t) => Ok(t),
                None => Err(
                    ServiceError::Unauthorized(
                        String::from_str("Invalid Authorization format. Use: Bearer <token>"),
                    ),
                ),
            }
        },
    }
}

/// The caller an access token's claims describe; its scopes are the
/// whitespace-separated words of the `scopes` claim.
pub fn authenticated_user(claims: Claims) -> (u: AuthenticatedUser)
    ensures
        u.user_id == claims.sub,
        u.email == claims.email,
        u.client_id == claims.client_id,
        u.scopes@.len() == words(claims.scopes@).len(),
        forall|i: int| 0 <= i < u.scopes@.len() ==> #[trigger] u.scopes@[i]@ == words(claims.scopes@)[i],
{
    let scopes = split_whitespace(claims.scopes.as_str());
    AuthenticatedUser { user_id: claims.sub, email: claims.email, client_id: claims.client_id, scopes }
}

/// Second step of authenticating a request: the outcome of verifying the token
/// (its claims, or the verifier's error text) becomes the caller or an
/// `Unauthorized` error.
pub fn user_from_verified_token(verified: Result<Claims, String>) -> (r: Result<
    AuthenticatedUser,
    ServiceError,
>)
    ensures
        match verified {
            Ok(c) => r matches Ok(u) && u.user_id == c.sub && u.email == c.email && u.client_id
                == c.client_id && u.scopes@.len() == words(c.scopes@).len() && forall|i: int|
                0 <= i < u.scopes@.len() ==> #[trigger] u.scopes@[i]@ == words(c.scopes@)[i],
            Err(e) => r matches Err(ServiceError::Unauthorized(m)) && m@ == "Invalid token: "@ + e@,
        },
{
    match verified {
        Ok(c) => Ok(authenticated_user(c)),
        Err(e) => Err(ServiceError::Unauthorized(concat_str("Invalid token: ", e.as_str()))),
    }
}

} // verus!
