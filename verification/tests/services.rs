use rust_microservices::config::{AppConfig, PoolSettings};
use rust_microservices::coverage::{coverage_services, select_services, ServiceInfo};
use rust_microservices::errors::{service_error_from_db, DbError, ServiceError};
use rust_microservices::events::{UserEvent, USER_EVENTS_TOPIC};
use rust_microservices::health::health_report;
use rust_microservices::jwt_auth::{authenticated_user, bearer_token, user_from_verified_token, AuthenticatedUser};
use rust_microservices::models::{RegisterResponse, User};
use rust_microservices::scopes::{require_scope, validate_scopes};
use rust_microservices::text::{i32_to_string, parse_i64, parse_u32, split_whitespace, strip_prefix, to_hex_lower};
use rust_microservices::token::Claims;
use rust_microservices::users::{user_cache_key, users_list_cache_key, UserService};

fn caller(scopes: &[&str]) -> AuthenticatedUser {
    AuthenticatedUser {
        user_id: "test-user-1".to_string(),
        email: None,
        client_id: "test-client".to_string(),
        scopes: scopes.iter().map(|s| s.to_string()).collect(),
    }
}

fn user(id: i32) -> User {
    User { id, name: "Integration Test".to_string(), email: "integration@test.com".to_string() }
}

#[test]
fn error_statuses_and_codes() {
    let cases = vec![
        (ServiceError::NotFound, 404, "not_found"),
        (ServiceError::InternalError("x".to_string()), 500, "server_error"),
        (ServiceError::Unauthorized("x".to_string()), 401, "access_denied"),
        (ServiceError::Forbidden("x".to_string()), 403, "forbidden"),
        (ServiceError::Conflict("x".to_string()), 409, "conflict"),
        (ServiceError::BadRequest("x".to_string()), 400, "bad_request"),
        (ServiceError::InvalidClient("x".to_string()), 401, "invalid_client"),
        (ServiceError::InvalidGrant("x".to_string()), 400, "invalid_grant"),
        (ServiceError::InvalidRequest("x".to_string()), 400, "invalid_request"),
    ];
    for (e, status, code) in cases {
        assert_eq!(e.status_code(), status);
        assert_eq!(e.error_code(), code);
    }
}

#[test]
fn error_descriptions_and_messages() {
    assert_eq!(ServiceError::NotFound.description(), None);
    assert_eq!(ServiceError::NotFound.message(), "Resource not found");
    let e = ServiceError::InvalidGrant("PKCE verification failed".to_string());
    assert_eq!(e.description().as_deref(), Some("PKCE verification failed"));
    assert_eq!(e.message(), "Invalid grant: PKCE verification failed");
    assert_eq!(ServiceError::Conflict("dup".to_string()).message(), "Conflict: dup");
    assert_eq!(ServiceError::Unauthorized("no".to_string()).message(), "Unauthorized: no");
}

#[test]
fn storage_errors_map_to_service_errors() {
    assert_eq!(service_error_from_db(DbError::RowNotFound), ServiceError::NotFound);
    assert_eq!(
        service_error_from_db(DbError::Other("pool timed out".to_string())),
        ServiceError::InternalError("pool timed out".to_string())
    );
    assert_eq!(
        ServiceError::from(DbError::UniqueViolation("duplicate key".to_string())),
        ServiceError::InternalError("duplicate key".to_string())
    );
}

#[test]
fn scopes_are_checked_word_by_word() {
    assert_eq!(validate_scopes("read write", "write  read"), Ok(()));
    assert_eq!(validate_scopes("", "read"), Ok(()));
    assert_eq!(
        validate_scopes("read admin write", "read"),
        Err(ServiceError::InvalidRequest("Scope 'admin' not allowed".to_string()))
    );
}

#[test]
fn required_scope_must_be_held() {
    assert_eq!(require_scope(&caller(&["read", "write"]), "write"), Ok(()));
    let err = require_scope(&caller(&["read"]), "write").unwrap_err();
    assert_eq!(err, ServiceError::Forbidden("Insufficient scope. Required: write".to_string()));
    assert_eq!(err.status_code(), 403);
}

#[test]
fn bearer_header_is_read() {
    assert_eq!(bearer_token(true, Some("Bearer abc.def")), Ok("abc.def".to_string()));
    assert_eq!(
        bearer_token(true, None),
        Err(ServiceError::Unauthorized("Missing Authorization header".to_string()))
    );
    assert_eq!(
        bearer_token(true, Some("Basic xyz")),
        Err(ServiceError::Unauthorized("Invalid Authorization format. Use: Bearer <token>".to_string()))
    );
    assert_eq!(
        bearer_token(false, Some("Bearer abc")),
        Err(ServiceError::InternalError("JWT secret not configured".to_string()))
    );
}

#[test]
fn verified_claims_become_the_caller() {
    let claims = Claims {
        sub: "9".to_string(),
        email: Some("a@b.c".to_string()),
        client_id: "client-1".to_string(),
        scopes: " read  write ".to_string(),
        exp: 10,
        iat: 5,
    };
    let u = authenticated_user(claims);
    assert_eq!(u.user_id, "9");
    assert_eq!(u.scopes, vec!["read".to_string(), "write".to_string()]);
    let err = user_from_verified_token(Err("ExpiredSignature".to_string())).err().unwrap();
    assert_eq!(err, ServiceError::Unauthorized("Invalid token: ExpiredSignature".to_string()));
    assert_eq!(err.status_code(), 401);
}

#[test]
fn cache_keys() {
    assert_eq!(user_cache_key(42), "user:42");
    assert_eq!(user_cache_key(-3), "user:-3");
    assert_eq!(users_list_cache_key(), "users:list");
}

#[test]
fn create_caches_user_and_drops_list() {
    let (u, plan) = UserService::after_create(Ok(user(7))).unwrap();
    assert_eq!(u.id, 7);
    assert_eq!(plan.set_key.as_deref(), Some("user:7"));
    assert_eq!(plan.invalidate, vec!["users:list".to_string()]);
    let err = UserService::after_create(Err(DbError::UniqueViolation("users_email_key".to_string()))).err().unwrap();
    assert_eq!(err, ServiceError::Conflict("Email already exists".to_string()));
    assert_eq!(err.status_code(), 409);
    assert_eq!(
        UserService::after_create(Err(DbError::Other("boom".to_string()))).err(),
        Some(ServiceError::InternalError("boom".to_string()))
    );
}

#[test]
fn lookups_cache_what_they_read() {
    let (_, plan) = UserService::after_user_lookup(3, Ok(user(3))).unwrap();
    assert_eq!(plan.set_key.as_deref(), Some("user:3"));
    assert!(plan.invalidate.is_empty());
    let (list, plan) = UserService::after_list_lookup(Ok(vec![user(1), user(2)])).unwrap();
    assert_eq!(list.len(), 2);
    assert_eq!(plan.set_key.as_deref(), Some("users:list"));
    assert_eq!(
        UserService::after_user_lookup(999999, Err(DbError::RowNotFound)).err(),
        Some(ServiceError::NotFound)
    );
}

#[test]
fn update_and_delete_plans() {
    let (_, plan) = UserService::after_update(4, Ok(user(4))).unwrap();
    assert_eq!(plan.set_key.as_deref(), Some("user:4"));
    assert_eq!(plan.invalidate, vec!["users:list".to_string()]);
    let plan = UserService::after_delete(4, Ok(1)).ok().unwrap();
    assert!(plan.set_key.is_none());
    assert_eq!(plan.invalidate, vec!["user:4".to_string(), "users:list".to_string()]);
    let err = UserService::after_delete(4, Ok(0)).err().unwrap();
    assert_eq!(err, ServiceError::NotFound);
    assert_eq!(err.status_code(), 404);
}

#[test]
fn registered_event_creates_profile_named_by_email() {
    let e = UserEvent::registered(&RegisterResponse { id: 12, email: "jane.doe@example.com".to_string() });
    assert_eq!(e.event_type, "user.registered");
    assert_eq!(e.key(), "12");
    let nu = e.new_user().unwrap();
    assert_eq!(nu.name, "jane.doe");
    assert_eq!(nu.email, "jane.doe@example.com");
    let no_at = UserEvent { event_type: "user.registered".to_string(), user_id: 1, email: "plain".to_string() };
    assert_eq!(no_at.new_user().unwrap().name, "plain");
    let other = UserEvent { event_type: "user.deleted".to_string(), user_id: 1, email: "a@b".to_string() };
    assert!(other.new_user().is_none());
    assert_eq!(USER_EVENTS_TOPIC, "user.events");
}

#[test]
fn health_is_degraded_when_a_dependency_is_down() {
    let h = health_report("user-service", true, true, true);
    assert_eq!((h.status_code, h.status), (200, "healthy"));
    assert_eq!((h.master, h.replica, h.redis), ("up", "up", "up"));
    let h = health_report("auth-service", true, false, true);
    assert_eq!((h.status_code, h.status), (503, "degraded"));
    assert_eq!(h.replica, "down");
    assert_eq!(h.service, "auth-service");
}

#[test]
fn app_config_from_settings() {
    let c = AppConfig::from_env_values(Some("s3cret"), None, None).ok().unwrap();
    assert_eq!(c.jwt_secret, "s3cret");
    assert_eq!(c.access_token_ttl_secs, 300);
    assert_eq!(c.refresh_token_ttl_days, 7);
    let c = AppConfig::from_env_values(Some("s"), Some("-60"), Some("+30")).ok().unwrap();
    assert_eq!(c.access_token_ttl_secs, -60);
    assert_eq!(c.refresh_token_ttl_days, 30);
    assert_eq!(AppConfig::from_env_values(None, None, None).err(), Some("JWT_SECRET must be set".to_string()));
    assert_eq!(
        AppConfig::from_env_values(Some("s"), Some("5m"), None).err(),
        Some("ACCESS_TOKEN_TTL_SECS must be a number".to_string())
    );
    assert_eq!(
        AppConfig::from_env_values(Some("s"), None, Some("")).err(),
        Some("REFRESH_TOKEN_TTL_DAYS must be a number".to_string())
    );
}

#[test]
fn pool_settings_from_settings() {
    let p = PoolSettings::from_env_values(Some("postgres://w"), None, None).ok().unwrap();
    assert_eq!(p.read_url, "postgres://w");
    assert_eq!(p.max_size, 10);
    assert_eq!(p.roles(), ("same", "same"));
    let p = PoolSettings::from_env_values(Some("postgres://w"), Some("postgres://r"), Some("25")).ok().unwrap();
    assert_eq!(p.max_size, 25);
    assert_eq!(p.roles(), ("master", "replica"));
    assert_eq!(
        PoolSettings::from_env_values(None, None, None).err(),
        Some("DATABASE_URL must be set".to_string())
    );
    assert_eq!(
        PoolSettings::from_env_values(Some("w"), None, Some("-1")).err(),
        Some("DB_POOL_MAX_SIZE must be a valid u32".to_string())
    );
}

#[test]
fn integers_parse_as_rust_does() {
    assert_eq!(parse_i64("9223372036854775807"), Some(i64::MAX));
    assert_eq!(parse_i64("-9223372036854775808"), Some(i64::MIN));
    assert_eq!(parse_i64("9223372036854775808"), None);
    assert_eq!(parse_i64("+7"), Some(7));
    assert_eq!(parse_i64("-"), None);
    assert_eq!(parse_i64(" 1"), None);
    assert_eq!(parse_u32("4294967295"), Some(u32::MAX));
    assert_eq!(parse_u32("4294967296"), None);
    assert_eq!(parse_u32("+0"), Some(0));
    assert_eq!(parse_u32("-0"), None);
}

#[test]
fn text_helpers() {
    assert_eq!(i32_to_string(i32::MIN), "-2147483648");
    assert_eq!(i32_to_string(0), "0");
    assert_eq!(to_hex_lower(&[0x00, 0xab, 0x7f]), "00ab7f");
    assert_eq!(strip_prefix("Bearer x", "Bearer "), Some("x".to_string()));
    assert_eq!(strip_prefix("Bear", "Bearer "), None);
    assert_eq!(split_whitespace("\t a  b\nc "), vec!["a".to_string(), "b".to_string(), "c".to_string()]);
}

#[test]
fn coverage_selects_services_by_prefix() {
    let all = coverage_services();
    let names = |v: Vec<ServiceInfo>| v.iter().map(|s| s.name).collect::<Vec<_>>();
    assert_eq!(names(select_services(&all, None)), vec!["auth-service", "user-service"]);
    assert_eq!(names(select_services(&all, Some("auth"))), vec!["auth-service"]);
    assert_eq!(names(select_services(&all, Some("user-service"))), vec!["user-service"]);
    assert!(select_services(&all, Some("billing")).is_empty());
    assert_eq!(names(select_services(&all, Some(""))), vec!["auth-service", "user-service"]);
}
