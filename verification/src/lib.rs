//! Verified core of an OAuth2/PKCE authentication service and a user
//! profile service: request validation, scope checks, token issuance,
//! error mapping, cache planning and event handling.

pub mod text;
pub mod textops;
pub mod json;
pub mod assoc;
pub mod openapi;
pub mod errors;
pub mod jwt_auth;
pub mod scopes;
pub mod token;

pub mod crypto;
pub mod models;
pub mod config;
pub mod oauth;
pub mod grant;
pub mod auth;
pub mod users;
pub mod events;
pub mod health;
pub mod postman;
pub mod collection;
pub mod coverage;
pub mod laws;
