use rust_microservices::crypto::pkce_challenge;
use rust_microservices::events::UserEvent;
use rust_microservices::json::Json;
use rust_microservices::models::{AuthorizationCode, User};
use rust_microservices::oauth::OAuthService;
use rust_microservices::openapi::parse_specs;
use rust_microservices::postman::parse_optional_field;
use rust_microservices::scopes::validate_scopes;
use rust_microservices::text::{i32_to_string, parse_i64, u64_to_string, parse_u32};
use rust_microservices::textops::{join, split_char};
use rust_microservices::users::{user_cache_key, users_list_cache_key, UserService};
use std::collections::HashMap;

#[test]
fn decimal_text_reads_back() {
    for n in [0i32, 7, -7, 10, 99, -100, i32::MAX, i32::MIN] {
        assert_eq!(parse_i64(&i32_to_string(n)), Some(n as i64));
    }
    for n in [0u64, 1, 4294967295] {
        assert_eq!(parse_u32(&u64_to_string(n)), Some(n as u32));
    }
}

#[test]
fn distinct_users_have_distinct_keys() {
    let keys: Vec<String> = [1, 11, -1, 0, 110].iter().map(|&i| user_cache_key(i)).collect();
    for i in 0..keys.len() {
        assert_ne!(keys[i], users_list_cache_key());
        for j in 0..keys.len() {
            if i != j {
                assert_ne!(keys[i], keys[j]);
            }
        }
    }
}

fn apply(cache: &mut HashMap<String, String>, set_key: &Option<String>, invalidate: &[String], value: &str) {
    if let Some(k) = set_key {
        cache.insert(k.clone(), value.to_string());
    }
    for k in invalidate {
        cache.remove(k);
    }
}

#[test]
fn writes_refresh_and_deletes_clear_the_cache() {
    let mut cache: HashMap<String, String> = HashMap::new();
    cache.insert("user:1".to_string(), "old".to_string());
    cache.insert("user:2".to_string(), "other".to_string());
    cache.insert("users:list".to_string(), "[..]".to_string());
    let (_, plan) = UserService::after_update(1, Ok(User { id: 1, name: "n".to_string(), email: "e".to_string() }))
        .unwrap();
    apply(&mut cache, &plan.set_key, &plan.invalidate, "new");
    assert_eq!(cache.get("user:1").map(|s| s.as_str()), Some("new"));
    assert!(!cache.contains_key("users:list"));
    assert_eq!(cache.get("user:2").map(|s| s.as_str()), Some("other"));
    let plan = UserService::after_delete(1, Ok(1)).ok().unwrap();
    apply(&mut cache, &plan.set_key, &plan.invalidate, "unused");
    assert!(!cache.contains_key("user:1"));
    assert_eq!(cache.get("user:2").map(|s| s.as_str()), Some("other"));
}

#[test]
fn scopes_allow_themselves_and_chain() {
    assert_eq!(validate_scopes("read write", "read write"), Ok(()));
    assert_eq!(validate_scopes("read", "read write"), Ok(()));
    assert_eq!(validate_scopes("read write", "read write admin"), Ok(()));
    assert_eq!(validate_scopes("read", "read write admin"), Ok(()));
}

#[test]
fn used_code_is_refused_whatever_is_presented() {
    let verifier = "v-123";
    let code = AuthorizationCode {
        id: 1,
        code: "c".to_string(),
        client_id: "client-1".to_string(),
        user_id: 1,
        redirect_uri: "https://example.com/callback".to_string(),
        scopes: "read".to_string(),
        code_challenge: pkce_challenge(verifier),
        code_challenge_method: "S256".to_string(),
        expires_at: i64::MAX,
        used: true,
        created_at: 0,
    };
    for (client, uri, v) in [("client-1", "https://example.com/callback", verifier), ("x", "y", "z")] {
        let err = OAuthService::check_authorization_code(Ok(code.clone()), client, uri, v, 0).unwrap_err();
        assert_eq!(err.description().as_deref(), Some("Authorization code already used"));
    }
}

#[test]
fn name_is_email_local_part() {
    for (email, name) in [("a@b", "a"), ("@x", ""), ("x@y@z", "x"), ("none", "none")] {
        let e = UserEvent { event_type: "user.registered".to_string(), user_id: 1, email: email.to_string() };
        let nu = e.new_user().unwrap();
        assert_eq!(nu.name, name);
        assert!(email.starts_with(&nu.name));
        assert!(!nu.name.contains('@'));
    }
}

#[test]
fn optional_marker_roundtrip() {
    for f in ["id", "", "a?b"] {
        assert_eq!(parse_optional_field(&format!("{f}?")), (f.to_string(), true));
    }
}

#[test]
fn split_then_join_gives_text_back() {
    for t in ["", "/", "a/b", "//x//", "no-slash"] {
        assert_eq!(join(&split_char(t, '/'), "/"), t);
    }
}

#[test]
fn parsed_operations_use_upper_case_methods() {
    let mut methods = Vec::new();
    for m in ["get", "post", "put", "delete", "patch", "head", "options", "GET"] {
        methods.push((m.to_string(), Json::Object(vec![("operationId".to_string(), Json::Str(format!("op_{m}")))])));
    }
    let spec = Json::Object(vec![("paths".to_string(), Json::Object(vec![("/p".to_string(), Json::Object(methods))]))]);
    let ops = parse_specs(&vec![("s".to_string(), spec)]);
    let found: Vec<String> = ops.services[0].1.iter().map(|(_, o)| o.method.clone()).collect();
    assert_eq!(found, vec!["GET", "POST", "PUT", "DELETE", "PATCH"]);
}

#[test]
fn a_code_works_once_through_its_stored_state() {
    let verifier = "v-9";
    let mut store: HashMap<String, AuthorizationCode> = HashMap::new();
    store.insert(
        "k".to_string(),
        AuthorizationCode {
            id: 1,
            code: "k".to_string(),
            client_id: "client-1".to_string(),
            user_id: 1,
            redirect_uri: "https://example.com/callback".to_string(),
            scopes: "read".to_string(),
            code_challenge: pkce_challenge(verifier),
            code_challenge_method: "S256".to_string(),
            expires_at: 100,
            used: false,
            created_at: 0,
        },
    );
    let lookup = |s: &HashMap<String, AuthorizationCode>| {
        s.get("k").cloned().ok_or(rust_microservices::errors::DbError::RowNotFound)
    };
    let first = OAuthService::redeem_authorization_code(lookup(&store), "client-1", "https://example.com/callback", verifier, 50);
    let redeemed = first.ok().unwrap();
    store.insert("k".to_string(), redeemed.store);
    let second = OAuthService::redeem_authorization_code(lookup(&store), "client-1", "https://example.com/callback", verifier, 50);
    assert_eq!(second.err().unwrap().description().as_deref(), Some("Authorization code already used"));
}
