use rust_microservices::collection::{
    build_body, build_custom_request, build_folder, build_item, build_openapi_request, generate_collection,
    PostmanRequest, RequestBody, RequestUrl,
};
use rust_microservices::json::Json;
use rust_microservices::openapi::{parse_specs, OperationMap};
use rust_microservices::postman::{
    append_save_lines, build_test_script, parse_optional_field, AuthConfig, BodyConfig, FolderConfig, Overlay,
    OverlayInfo, RequestConfig,
};
use rust_microservices::textops::{join, replace_all, split_char, trim_start_char};

const FORM: &str = "application/x-www-form-urlencoded";

fn obj(members: Vec<(&str, Json)>) -> Json {
    Json::Object(members.into_iter().map(|(k, v)| (k.to_string(), v)).collect())
}

fn text(x: &str) -> Json {
    Json::Str(x.to_string())
}

fn with_content(ct: &str) -> Json {
    obj(vec![("content", obj(vec![(ct, obj(vec![]))]))])
}

fn user_spec() -> Json {
    obj(vec![
        ("openapi", text("3.0.3")),
        (
            "paths",
            obj(vec![
                (
                    "/api/v1/users/{id}",
                    obj(vec![
                        ("get", obj(vec![("operationId", text("get_user"))])),
                        (
                            "put",
                            obj(vec![
                                ("operationId", text("update_user")),
                                ("requestBody", with_content("application/json")),
                            ]),
                        ),
                        ("parameters", Json::Array(vec![])),
                    ]),
                ),
                ("/not-an-object", text("x")),
                (
                    "/other",
                    obj(vec![
                        ("head", obj(vec![("operationId", text("head_op"))])),
                        ("get", obj(vec![("summary", text("no id"))])),
                        ("delete", obj(vec![("operationId", Json::Number("7".to_string()))])),
                    ]),
                ),
            ]),
        ),
    ])
}

fn auth_spec() -> Json {
    obj(vec![(
        "paths",
        obj(vec![(
            "/api/v1/oauth/token",
            obj(vec![(
                "post",
                obj(vec![("operationId", text("token")), ("requestBody", with_content(FORM))]),
            )]),
        )]),
    )])
}

fn operations() -> OperationMap {
    parse_specs(&vec![
        ("user".to_string(), user_spec()),
        ("auth".to_string(), auth_spec()),
        ("empty".to_string(), obj(vec![])),
    ])
}

fn request(name: &str) -> RequestConfig {
    RequestConfig {
        name: name.to_string(),
        operation: None,
        service: None,
        url_base: None,
        path_params: None,
        query_override: None,
        custom: None,
        method: None,
        url: None,
        content_type: None,
        body: None,
        auth: None,
        prerequest: None,
        save: None,
        expect_status: None,
        accept_status: None,
    }
}

fn pairs(v: &[(&str, &str)]) -> Vec<(String, String)> {
    v.iter().map(|(a, b)| (a.to_string(), b.to_string())).collect()
}

fn strings(v: &[&str]) -> Vec<String> {
    v.iter().map(|s| s.to_string()).collect()
}

fn raw_url(r: &PostmanRequest) -> String {
    match &r.url {
        RequestUrl::Raw(u) => u.clone(),
        RequestUrl::Parts { raw, .. } => raw.clone(),
    }
}

#[test]
fn parse_specs_keeps_named_operations_of_known_methods() {
    let ops = operations();
    let get = ops.get_operation("user", "get_user").unwrap();
    assert_eq!(get.method, "GET");
    assert_eq!(get.path, "/api/v1/users/{id}");
    assert_eq!(get.content_type, None);
    let put = ops.get_operation("user", "update_user").unwrap();
    assert_eq!(put.method, "PUT");
    assert_eq!(put.content_type.as_deref(), Some("application/json"));
    let token = ops.get_operation("auth", "token").unwrap();
    assert_eq!(token.method, "POST");
    assert_eq!(token.content_type.as_deref(), Some(FORM));
    assert!(ops.get_operation("user", "head_op").is_none());
    assert!(ops.get_operation("user", "token").is_none());
    assert!(ops.get_operation("missing", "get_user").is_none());
    assert_eq!(ops.services.len(), 3);
    assert_eq!(ops.services[0].1.len(), 2);
    assert_eq!(ops.services[2].1.len(), 0);
}

#[test]
fn later_spec_of_same_service_replaces_earlier() {
    let ops = parse_specs(&vec![("user".to_string(), user_spec()), ("user".to_string(), auth_spec())]);
    assert!(ops.get_operation("user", "get_user").is_none());
    assert!(ops.get_operation("user", "token").is_some());
}

#[test]
fn json_content_type_wins_over_form() {
    let spec = obj(vec![(
        "paths",
        obj(vec![(
            "/both",
            obj(vec![(
                "patch",
                obj(vec![
                    ("operationId", text("both")),
                    (
                        "requestBody",
                        obj(vec![("content", obj(vec![(FORM, obj(vec![])), ("application/json", obj(vec![]))]))]),
                    ),
                ]),
            )]),
        )]),
    )]);
    let ops = parse_specs(&vec![("s".to_string(), spec)]);
    let op = ops.get_operation("s", "both").unwrap();
    assert_eq!(op.method, "PATCH");
    assert_eq!(op.content_type.as_deref(), Some("application/json"));
}

#[test]
fn openapi_request_substitutes_path_params() {
    let ops = operations();
    let mut rc = request("Get user");
    rc.service = Some("user".to_string());
    rc.operation = Some("get_user".to_string());
    rc.path_params = Some(pairs(&[("id", "{{user_id}}")]));
    let r = build_openapi_request(&rc, &ops).unwrap();
    assert_eq!(r.method, "GET");
    assert_eq!(raw_url(&r), "{{gateway_url}}/api/v1/users/{{user_id}}");
    assert!(r.header.is_none());
    assert!(r.body.is_none());
    assert!(r.auth.is_none());
}

#[test]
fn openapi_request_with_query_has_url_parts() {
    let ops = operations();
    let mut rc = request("List");
    rc.service = Some("user".to_string());
    rc.operation = Some("get_user".to_string());
    rc.url_base = Some("user_url".to_string());
    rc.path_params = Some(pairs(&[("id", "5")]));
    rc.query_override = Some(pairs(&[("limit", "10"), ("offset", "0")]));
    let r = build_openapi_request(&rc, &ops).unwrap();
    match &r.url {
        RequestUrl::Parts { raw, host, path, query } => {
            assert_eq!(raw, "{{user_url}}/api/v1/users/5?limit=10&offset=0");
            assert_eq!(host, &strings(&["{{user_url}}"]));
            assert_eq!(path, &strings(&["api", "v1", "users", "5"]));
            assert_eq!(query, &pairs(&[("limit", "10"), ("offset", "0")]));
        }
        RequestUrl::Raw(_) => panic!("expected url parts"),
    }
}

#[test]
fn openapi_request_body_uses_operation_content_type() {
    let ops = operations();
    let mut rc = request("Token");
    rc.service = Some("auth".to_string());
    rc.operation = Some("token".to_string());
    rc.body = Some(BodyConfig {
        pretty: "{\n  \"grant_type\": \"client_credentials\"\n}".to_string(),
        members: Some(vec![("grant_type".to_string(), text("client_credentials"), "\"client_credentials\"".to_string())]),
    });
    rc.auth = Some(AuthConfig { auth_type: "bearer".to_string(), token: "{{access_token}}".to_string() });
    let r = build_openapi_request(&rc, &ops).unwrap();
    assert_eq!(r.method, "POST");
    assert_eq!(r.header, Some(pairs(&[("Content-Type", FORM)])));
    match r.body {
        Some(RequestBody::Urlencoded(f)) => assert_eq!(f, pairs(&[("grant_type", "client_credentials")])),
        _ => panic!("expected form body"),
    }
    let auth = r.auth.unwrap();
    assert_eq!(auth.auth_type, "bearer");
    assert_eq!(auth.bearer, pairs(&[("token", "{{access_token}}")]));
}

#[test]
fn openapi_request_json_body_is_pretty_text() {
    let ops = operations();
    let mut rc = request("Update");
    rc.service = Some("user".to_string());
    rc.operation = Some("update_user".to_string());
    rc.body = Some(BodyConfig { pretty: "{\n  \"name\": \"x\"\n}".to_string(), members: None });
    let r = build_openapi_request(&rc, &ops).unwrap();
    assert_eq!(r.header, Some(pairs(&[("Content-Type", "application/json")])));
    match r.body {
        Some(RequestBody::Raw(t)) => assert_eq!(t, "{\n  \"name\": \"x\"\n}"),
        _ => panic!("expected raw body"),
    }
}

#[test]
fn openapi_request_missing_operation_is_none() {
    let ops = operations();
    let mut rc = request("Missing");
    rc.service = Some("user".to_string());
    rc.operation = Some("nope".to_string());
    assert!(build_openapi_request(&rc, &ops).is_none());
    rc.operation = None;
    assert!(build_openapi_request(&rc, &ops).is_none());
}

#[test]
fn custom_request_defaults() {
    let mut rc = request("Health");
    rc.custom = Some(true);
    let r = build_custom_request(&rc);
    assert_eq!(r.method, "GET");
    assert_eq!(raw_url(&r), "");
    assert!(r.header.is_none());
    rc.method = Some("POST".to_string());
    rc.url = Some("{{auth_url}}/health".to_string());
    rc.body = Some(BodyConfig { pretty: "[]".to_string(), members: None });
    let r = build_custom_request(&rc);
    assert_eq!(r.method, "POST");
    assert_eq!(raw_url(&r), "{{auth_url}}/health");
    assert!(r.header.is_none());
    match r.body {
        Some(RequestBody::Raw(t)) => assert_eq!(t, "[]"),
        _ => panic!("expected raw body"),
    }
    rc.content_type = Some(FORM.to_string());
    let r = build_custom_request(&rc);
    assert_eq!(r.header, Some(pairs(&[("Content-Type", FORM)])));
    match r.body {
        Some(RequestBody::Urlencoded(f)) => assert!(f.is_empty()),
        _ => panic!("expected form body"),
    }
}

#[test]
fn body_mode_follows_content_type() {
    let b = BodyConfig {
        pretty: "{\"a\": 1, \"b\": \"x y\", \"c\": [true]}".to_string(),
        members: Some(vec![
            ("a".to_string(), Json::Number("1".to_string()), "1".to_string()),
            ("b".to_string(), text("x y"), "\"x y\"".to_string()),
            ("c".to_string(), Json::Array(vec![Json::Bool(true)]), "[true]".to_string()),
        ]),
    };
    match build_body(FORM, &b) {
        RequestBody::Urlencoded(f) => assert_eq!(f, pairs(&[("a", "1"), ("b", "x y"), ("c", "[true]")])),
        _ => panic!("expected form body"),
    }
    match build_body("text/plain", &b) {
        RequestBody::Raw(t) => assert_eq!(t, "{\"a\": 1, \"b\": \"x y\", \"c\": [true]}"),
        _ => panic!("expected raw body"),
    }
}

#[test]
fn optional_field_marker() {
    assert_eq!(parse_optional_field("client_secret?"), ("client_secret".to_string(), true));
    assert_eq!(parse_optional_field("client_id"), ("client_id".to_string(), false));
    assert_eq!(parse_optional_field("?"), (String::new(), true));
    assert_eq!(parse_optional_field(""), (String::new(), false));
}

#[test]
fn save_lines_set_variables() {
    let mut lines = vec!["start".to_string()];
    append_save_lines(&mut lines, &pairs(&[("token", "access_token"), ("rt", "refresh_token?")]), "  ");
    assert_eq!(
        lines,
        strings(&[
            "start",
            "  pm.collectionVariables.set('token', json.access_token);",
            "  if (json.refresh_token) {",
            "      pm.collectionVariables.set('rt', json.refresh_token);",
            "  }",
        ])
    );
}

#[test]
fn test_script_with_accepted_statuses() {
    let mut rc = request("Register");
    rc.accept_status = Some(vec![201, 409]);
    rc.save = Some(pairs(&[("client_id", "client_id"), ("secret", "client_secret?")]));
    assert_eq!(
        build_test_script(&rc),
        strings(&[
            "if (pm.response.code === 201) {",
            "    var json = pm.response.json();",
            "    pm.collectionVariables.set('client_id', json.client_id);",
            "    if (json.client_secret) {",
            "        pm.collectionVariables.set('secret', json.client_secret);",
            "    }",
            "    pm.test('Register - success', function () {",
            "        pm.response.to.have.status(201);",
            "    });",
            "} else if (pm.response.code === 409) {",
            "    pm.test('Register - already exists (OK)', function () {",
            "        pm.response.to.have.status(409);",
            "    });",
            "}",
        ])
    );
}

#[test]
fn test_script_with_saved_fields_defaults_to_200() {
    let mut rc = request("Login");
    rc.save = Some(pairs(&[("token", "access_token")]));
    assert_eq!(
        build_test_script(&rc),
        strings(&[
            "pm.test('Login - success', function () {",
            "    pm.response.to.have.status(200);",
            "    var json = pm.response.json();",
            "    pm.collectionVariables.set('token', json.access_token);",
            "});",
        ])
    );
}

#[test]
fn test_script_with_expected_status_only() {
    let mut rc = request("Delete");
    rc.expect_status = Some(204);
    assert_eq!(
        build_test_script(&rc),
        strings(&[
            "pm.test('Delete', function () {",
            "    pm.response.to.have.status(204);",
            "});",
        ])
    );
    assert!(build_test_script(&request("Nothing")).is_empty());
}

fn overlay(folders: Vec<FolderConfig>) -> Overlay {
    Overlay {
        info: OverlayInfo { name: "Rust Microservices".to_string(), description: "API".to_string() },
        services: pairs(&[("user", "http://localhost:8082/api-docs/openapi.json")]),
        variables: pairs(&[("gateway_url", "http://localhost:8080"), ("user_id", "")]),
        scripts: vec![("auth".to_string(), strings(&["console.log('auth');"]))],
        folders,
    }
}

#[test]
fn item_has_prerequest_and_test_scripts() {
    let ops = operations();
    let ov = overlay(vec![]);
    let mut rc = request("Get user");
    rc.service = Some("user".to_string());
    rc.operation = Some("get_user".to_string());
    rc.prerequest = Some("auth".to_string());
    rc.expect_status = Some(200);
    let item = build_item(&rc, &ops, &ov).unwrap();
    assert_eq!(item.name, "Get user");
    let events = item.event.unwrap();
    assert_eq!(events.len(), 2);
    assert_eq!(events[0].listen, "prerequest");
    assert_eq!(events[0].exec_lines, strings(&["console.log('auth');"]));
    assert_eq!(events[1].listen, "test");
    assert_eq!(events[1].exec_lines.len(), 3);

    rc.prerequest = Some("unknown".to_string());
    rc.expect_status = None;
    let item = build_item(&rc, &ops, &ov).unwrap();
    assert!(item.event.is_none());

    rc.operation = Some("nope".to_string());
    assert!(build_item(&rc, &ops, &ov).is_none());
    rc.custom = Some(true);
    assert!(build_item(&rc, &ops, &ov).is_some());
}

#[test]
fn folder_skips_requests_without_operation() {
    let ops = operations();
    let mut ok = request("Get user");
    ok.service = Some("user".to_string());
    ok.operation = Some("get_user".to_string());
    let mut missing = request("Missing");
    missing.service = Some("user".to_string());
    missing.operation = Some("nope".to_string());
    let folder = FolderConfig {
        name: "Users".to_string(),
        description: Some("User endpoints".to_string()),
        auth: Some(AuthConfig { auth_type: "bearer".to_string(), token: "{{token}}".to_string() }),
        requests: vec![missing, ok],
    };
    let ov = overlay(vec![]);
    let f = build_folder(&folder, &ops, &ov);
    assert_eq!(f.name, "Users");
    assert_eq!(f.item.len(), 1);
    assert_eq!(f.item[0].name, "Get user");
    assert_eq!(f.description.as_deref(), Some("User endpoints"));
    assert_eq!(f.auth.unwrap().bearer, pairs(&[("token", "{{token}}")]));
}

#[test]
fn collection_has_info_variables_and_folders() {
    let ops = operations();
    let mut health = request("Health");
    health.custom = Some(true);
    health.url = Some("{{gateway_url}}/health".to_string());
    let folder = FolderConfig { name: "Health".to_string(), description: None, auth: None, requests: vec![health] };
    let ov = overlay(vec![folder]);
    let c = generate_collection(&ov, &ops);
    assert_eq!(c.name, "Rust Microservices");
    assert_eq!(c.description, "API");
    assert_eq!(c.schema, "https://schema.getpostman.com/json/collection/v2.1.0/collection.json");
    assert_eq!(c.variable.len(), 2);
    assert_eq!(c.variable[0].key, "gateway_url");
    assert_eq!(c.variable[0].value, "http://localhost:8080");
    assert_eq!(c.variable[0].var_type, "string");
    assert_eq!(c.item.len(), 1);
    assert_eq!(c.item[0].item.len(), 1);
    assert!(c.item[0].description.is_none());
    assert!(c.item[0].auth.is_none());
}

#[test]
fn replace_split_trim_join() {
    assert_eq!(replace_all("a{x}b{x}", "{x}", "1"), "a1b1");
    assert_eq!(replace_all("aaa", "aa", "b"), "ba");
    assert_eq!(replace_all("none", "{x}", "1"), "none");
    assert_eq!(trim_start_char("//a/b", '/'), "a/b");
    assert_eq!(split_char("/a//b/", '/'), strings(&["", "a", "", "b", ""]));
    assert_eq!(split_char("", '/'), strings(&[""]));
    assert_eq!(join(&strings(&["a", "b", "c"]), "&"), "a&b&c");
    assert_eq!(join(&strings(&[]), "&"), "");
    let parts = split_char("x/y//z", '/');
    assert_eq!(join(&parts, "/"), "x/y//z");
}
