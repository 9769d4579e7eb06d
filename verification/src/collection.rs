//! Building the API collection from the overlay and the operations of the
//! services' API descriptions: one folder per overlay folder, one item per
//! request that can be built, each with its request, pre-request script and
//! test script.

use vstd::prelude::*;
use crate::assoc::{assoc_map, lookup, named};
use crate::json::{opt_text, Json};
use crate::openapi::OperationMap;
use crate::postman::{
    build_test_script, opt_vec_view, test_script_lines, AuthConfig, BodyConfig, FolderConfig,
    Overlay, RequestConfig,
};
use crate::text::str_eq;
use crate::textops::{joined, replace_all, replaced, split_char, split_on, texts, trim_start_char, trimmed_start, join};

verus! {

/// The schema address every collection names.
pub open spec fn collection_schema() -> Seq<char> {
    "https://schema.getpostman.com/json/collection/v2.1.0/collection.json"@
}

/// Pairs of strings by their texts.
pub open spec fn pairs(v: Seq<(String, String)>) -> Seq<(Seq<char>, Seq<char>)> {
    v.map_values(|p: (String, String)| (p.0@, p.1@))
}

/// The pairs of an optional list; none where there is no list.
pub open spec fn opt_pairs(o: Option<Vec<(String, String)>>) -> Seq<(Seq<char>, Seq<char>)> {
    match o {
        Some(v) => pairs(v@),
        None => Seq::empty(),
    }
}

/// The text of an optional string, or `d` where there is none.
pub open spec fn or_text(o: Option<String>, d: Seq<char>) -> Seq<char> {
    match o {
        Some(s) => s@,
        None => d,
    }
}

/// Bearer authentication of a request or folder.
pub struct AuthView {
    pub auth_type: Seq<char>,
    pub bearer: Seq<(Seq<char>, Seq<char>)>,
}

/// The URL of a request.
pub enum UrlView {
    Raw(Seq<char>),
    Parts {
        raw: Seq<char>,
        host: Seq<Seq<char>>,
        path: Seq<Seq<char>>,
        query: Seq<(Seq<char>, Seq<char>)>,
    },
}

/// The body of a request.
pub enum BodyView {
    Urlencoded(Seq<(Seq<char>, Seq<char>)>),
    Raw(Seq<char>),
}

/// A request of the collection.
pub struct RequestView {
    pub method: Seq<char>,
    pub url: UrlView,
    pub header: Option<Seq<(Seq<char>, Seq<char>)>>,
    pub body: Option<BodyView>,
    pub auth: Option<AuthView>,
}

/// An item of the collection: a named request with its scripts, each a
/// `listen` moment and its lines.
pub struct ItemView {
    pub name: Seq<char>,
    pub request: RequestView,
    pub event: Option<Seq<(Seq<char>, Seq<Seq<char>>)>>,
}

/// A folder of the collection.
pub struct FolderView {
    pub name: Seq<char>,
    pub item: Seq<ItemView>,
    pub description: Option<Seq<char>>,
    pub auth: Option<AuthView>,
}

/// The collection: its information, variables (key, value, type) and folders.
pub struct CollectionView {
    pub name: Seq<char>,
    pub description: Seq<char>,
    pub schema: Seq<char>,
    pub variable: Seq<(Seq<char>, Seq<char>, Seq<char>)>,
    pub item: Seq<FolderView>,
}

/// Bearer authentication as the collection writes it.
pub struct BearerAuth {
    pub auth_type: String,
    pub bearer: Vec<(String, String)>,
}

impl View for BearerAuth {
    type V = AuthView;

    open spec fn view(&self) -> AuthView {
        AuthView { auth_type: self.auth_type@, bearer: pairs(self.bearer@) }
    }
}

/// The URL of a request: one text, or the text with its parts.
pub enum RequestUrl {
    Raw(String),
    Parts { raw: String, host: Vec<String>, path: Vec<String>, query: Vec<(String, String)> },
}

impl View for RequestUrl {
    type V = UrlView;

    open spec fn view(&self) -> UrlView {
        match self {
            RequestUrl::Raw(s) => UrlView::Raw(s@),
            RequestUrl::Parts { raw, host, path, query } => UrlView::Parts {
                raw: raw@,
                host: texts(host@),
                path: texts(path@),
                query: pairs(query@),
            },
        }
    }
}

/// The body of a request: form fields, or raw text.
pub enum RequestBody {
    Urlencoded(Vec<(String, String)>),
    Raw(String),
}

impl View for RequestBody {
    type V = BodyView;

    open spec fn view(&self) -> BodyView {
        match self {
            RequestBody::Urlencoded(f) => BodyView::Urlencoded(pairs(f@)),
            RequestBody::Raw(s) => BodyView::Raw(s@),
        }
    }
}

/// The view of optional authentication.
pub open spec fn opt_auth(o: Option<BearerAuth>) -> Option<AuthView> {
    match o {
        Some(a) => Some(a@),
        None => None,
    }
}

/// The view of an optional body.
pub open spec fn opt_body(o: Option<RequestBody>) -> Option<BodyView> {
    match o {
        Some(b) => Some(b@),
        None => None,
    }
}

/// The view of optional headers.
pub open spec fn opt_header(o: Option<Vec<(String, String)>>) -> Option<Seq<(Seq<char>, Seq<char>)>> {
    match o {
        Some(h) => Some(pairs(h@)),
        None => None,
    }
}

/// A request of the collection.
pub struct PostmanRequest {
    pub method: String,
    pub url: RequestUrl,
    pub header: Option<Vec<(String, String)>>,
    pub body: Option<RequestBody>,
    pub auth: Option<BearerAuth>,
}

impl View for PostmanRequest {
    type V = RequestView;

    open spec fn view(&self) -> RequestView {
        RequestView {
            method: self.method@,
            url: self.url@,
            header: opt_header(self.header),
            body: opt_body(self.body),
            auth: opt_auth(self.auth),
        }
    }
}

/// A script of an item: when it runs (`prerequest` or `test`) and its lines.
pub struct ItemEvent {
    pub listen: String,
    pub exec_lines: Vec<String>,
}

/// The scripts of an item by their views.
pub open spec fn events_view(v: Seq<ItemEvent>) -> Seq<(Seq<char>, Seq<Seq<char>>)> {
    v.map_values(|e: ItemEvent| (e.listen@, texts(e.exec_lines@)))
}

/// An item of the collection.
pub struct PostmanItem {
    pub name: String,
    pub request: PostmanRequest,
    pub event: Option<Vec<ItemEvent>>,
}

impl View for PostmanItem {
    type V = ItemView;

    open spec fn view(&self) -> ItemView {
        ItemView {
            name: self.name@,
            request: self.request@,
            event: match self.event {
                Some(e) => Some(events_view(e@)),
                None => None,
            },
        }
    }
}

/// A folder of the collection.
pub struct PostmanFolder {
    pub name: String,
    pub item: Vec<PostmanItem>,
    pub description: Option<String>,
    pub auth: Option<BearerAuth>,
}

/// Items by their views.
pub open spec fn items_view(v: Seq<PostmanItem>) -> Seq<ItemView> {
    v.map_values(|i: PostmanItem| i@)
}

impl View for PostmanFolder {
    type V = FolderView;

    open spec fn view(&self) -> FolderView {
        FolderView {
            name: self.name@,
            item: items_view(self.item@),
            description: opt_text(self.description),
            auth: opt_auth(self.auth),
        }
    }
}

/// A variable of the collection.
pub struct CollectionVariable {
    pub key: String,
    pub value: String,
    pub var_type: String,
}

/// The collection.
pub struct PostmanCollection {
    pub name: String,
    pub description: String,
    pub schema: String,
    pub variable: Vec<CollectionVariable>,
    pub item: Vec<PostmanFolder>,
}

/// Collection variables as (key, value, type).
pub open spec fn variables_view(v: Seq<CollectionVariable>) -> Seq<(Seq<char>, Seq<char>, Seq<char>)> {
    v.map_values(|c: CollectionVariable| (c.key@, c.value@, c.var_type@))
}

/// Folders by their views.
pub open spec fn folders_view(v: Seq<PostmanFolder>) -> Seq<FolderView> {
    v.map_values(|f: PostmanFolder| f@)
}

impl View for PostmanCollection {
    type V = CollectionView;

    open spec fn view(&self) -> CollectionView {
        CollectionView {
            name: self.name@,
            description: self.description@,
            schema: self.schema@,
            variable: variables_view(self.variable@),
            item: folders_view(self.item@),
        }
    }
}

// ── What each piece of the collection is ────────────────────────────────

/// Bearer authentication with the overlay's type and token.
pub open spec fn auth_view(a: AuthConfig) -> AuthView {
    AuthView { auth_type: a.auth_type@, bearer: seq![("token"@, a.token@)] }
}

/// Optional overlay authentication as the collection writes it.
pub open spec fn opt_auth_view(a: Option<AuthConfig>) -> Option<AuthView> {
    match a {
        Some(x) => Some(auth_view(x)),
        None => None,
    }
}

/// The text a body member takes as a form field: a string's content, any other
/// value's JSON text.
pub open spec fn form_text(value: Json, json_text: String) -> Seq<char> {
    match value {
        Json::Str(s) => s@,
        _ => json_text@,
    }
}

/// The form fields of a body's members: each key with its form text, in order.
pub open spec fn form_fields(members: Seq<(String, Json, String)>) -> Seq<(Seq<char>, Seq<char>)> {
    members.map_values(|m: (String, Json, String)| (m.0@, form_text(m.1, m.2)))
}

/// A body sent with the content type `ct`: form fields for form encoding (none
/// where the body is not an object), else the pretty JSON text.
pub open spec fn body_view(ct: Seq<char>, b: BodyConfig) -> BodyView {
    if ct == "application/x-www-form-urlencoded"@ {
        BodyView::Urlencoded(
            match b.members {
                Some(ms) => form_fields(ms@),
                None => Seq::empty(),
            },
        )
    } else {
        BodyView::Raw(b.pretty@)
    }
}

/// A custom request: the overlay's method (`GET` by default) and URL (empty by
/// default), a content-type header where one is given, the body sent with that
/// content type (JSON by default), and the authentication.
pub open spec fn custom_request_view(rc: RequestConfig) -> RequestView {
    RequestView {
        method: or_text(rc.method, "GET"@),
        url: UrlView::Raw(or_text(rc.url, ""@)),
        header: match rc.content_type {
            Some(ct) => Some(seq![("Content-Type"@, ct@)]),
            None => None,
        },
        body: match rc.body {
            Some(b) => Some(body_view(or_text(rc.content_type, "application/json"@), b)),
            None => None,
        },
        auth: opt_auth_view(rc.auth),
    }
}

/// The path with each `{name}` placeholder replaced by its value, one
/// parameter after another.
pub open spec fn substituted(path: Seq<char>, params: Seq<(Seq<char>, Seq<char>)>) -> Seq<char>
    decreases params.len(),
{
    if params.len() == 0 {
        path
    } else {
        replaced(
            substituted(path, params.drop_last()),
            "{"@ + params.last().0 + "}"@,
            params.last().1,
        )
    }
}

/// Each query parameter as `key=value`.
pub open spec fn query_texts(q: Seq<(Seq<char>, Seq<char>)>) -> Seq<Seq<char>> {
    q.map_values(|p: (Seq<char>, Seq<char>)| p.0 + "="@ + p.1)
}

/// Whether the request names a service and an operation that the service's
/// API description has.
pub open spec fn operation_found(
    rc: RequestConfig,
    ops: Map<Seq<char>, Map<Seq<char>, (Seq<char>, Seq<char>, Option<Seq<char>>)>>,
) -> bool {
    &&& rc.service is Some
    &&& rc.operation is Some
    &&& ops.contains_key(rc.service->0@)
    &&& ops[rc.service->0@].contains_key(rc.operation->0@)
}

/// The URL of an operation's request: `{{base}}` (the variable named by the
/// overlay, `gateway_url` by default) and the operation's path with the path
/// parameters put in; with query parameters, the URL also in parts.
pub open spec fn operation_url(rc: RequestConfig, op_path: Seq<char>) -> UrlView {
    let base = "{{"@ + or_text(rc.url_base, "gateway_url"@) + "}}"@;
    let path = substituted(op_path, opt_pairs(rc.path_params));
    match rc.query_override {
        Some(q) => UrlView::Parts {
            raw: base + path + "?"@ + joined(query_texts(pairs(q@)), "&"@),
            host: seq![base],
            path: split_on(trimmed_start(path, '/'), '/'),
            query: pairs(q@),
        },
        None => UrlView::Raw(base + path),
    }
}

/// The request of an operation that the overlay names: the operation's method,
/// its URL, the body (with a content-type header) sent with the operation's
/// content type (JSON by default), and the authentication. `None` where the
/// operation is not found.
pub open spec fn openapi_request_view(
    rc: RequestConfig,
    ops: Map<Seq<char>, Map<Seq<char>, (Seq<char>, Seq<char>, Option<Seq<char>>)>>,
) -> Option<RequestView> {
    if operation_found(rc, ops) {
        let op = ops[rc.service->0@][rc.operation->0@];
        let ct = match op.2 {
            Some(c) => c,
            None => "application/json"@,
        };
        Some(
            RequestView {
                method: op.0,
                url: operation_url(rc, op.1),
                header: match rc.body {
                    Some(_) => Some(seq![("Content-Type"@, ct)]),
                    None => None,
                },
                body: match rc.body {
                    Some(b) => Some(body_view(ct, b)),
                    None => None,
                },
                auth: opt_auth_view(rc.auth),
            },
        )
    } else {
        None
    }
}

/// The scripts of an item: the named pre-request script where the overlay has
/// it, then the test script where it has lines.
pub open spec fn item_events(rc: RequestConfig, scripts: Map<Seq<char>, Vec<String>>) -> Seq<
    (Seq<char>, Seq<Seq<char>>),
> {
    let pre = match rc.prerequest {
        Some(sn) => if scripts.contains_key(sn@) {
            seq![("prerequest"@, texts(scripts[sn@]@))]
        } else {
            Seq::empty()
        },
        None => Seq::empty(),
    };
    let t = test_script_lines(
        rc.name@,
        opt_vec_view(rc.accept_status),
        opt_vec_view(rc.save),
        rc.expect_status,
    );
    pre + if t.len() > 0 {
        seq![("test"@, t)]
    } else {
        Seq::empty()
    }
}

/// The item of a request: custom where the overlay says so, else the
/// operation's request (no item where the operation is not found); with its
/// scripts, where it has any.
pub open spec fn item_view(
    rc: RequestConfig,
    ops: Map<Seq<char>, Map<Seq<char>, (Seq<char>, Seq<char>, Option<Seq<char>>)>>,
    scripts: Map<Seq<char>, Vec<String>>,
) -> Option<ItemView> {
    let req = if rc.custom == Some(true) {
        Some(custom_request_view(rc))
    } else {
        openapi_request_view(rc, ops)
    };
    match req {
        Some(r) => {
            let ev = item_events(rc, scripts);
            Some(
                ItemView {
                    name: rc.name@,
                    request: r,
                    event: if ev.len() > 0 {
                        Some(ev)
                    } else {
                        None
                    },
                },
            )
        },
        None => None,
    }
}

/// The items of the requests that have one, in order.
pub open spec fn present_items(
    rs: Seq<RequestConfig>,
    ops: Map<Seq<char>, Map<Seq<char>, (Seq<char>, Seq<char>, Option<Seq<char>>)>>,
    scripts: Map<Seq<char>, Vec<String>>,
) -> Seq<ItemView>
    decreases rs.len(),
{
    if rs.len() == 0 {
        Seq::empty()
    } else {
        let prev = present_items(rs.drop_last(), ops, scripts);
        match item_view(rs.last(), ops, scripts) {
            Some(i) => prev.push(i),
            None => prev,
        }
    }
}

/// A folder: its name, items, description and authentication.
pub open spec fn folder_view(
    fc: FolderConfig,
    ops: Map<Seq<char>, Map<Seq<char>, (Seq<char>, Seq<char>, Option<Seq<char>>)>>,
    scripts: Map<Seq<char>, Vec<String>>,
) -> FolderView {
    FolderView {
        name: fc.name@,
        item: present_items(fc.requests@, ops, scripts),
        description: opt_text(fc.description),
        auth: opt_auth_view(fc.auth),
    }
}

/// The named scripts of the overlay by name.
pub open spec fn scripts_map(overlay: Overlay) -> Map<Seq<char>, Vec<String>> {
    assoc_map(named(overlay.scripts@))
}

/// The collection of an overlay: its information, each variable as a string
/// variable, and a folder per overlay folder.
pub open spec fn collection_view(
    overlay: Overlay,
    ops: Map<Seq<char>, Map<Seq<char>, (Seq<char>, Seq<char>, Option<Seq<char>>)>>,
) -> CollectionView {
    CollectionView {
        name: overlay.info.name@,
        description: overlay.info.description@,
        schema: collection_schema(),
        variable: overlay.variables@.map_values(
            |v: (String, String)| (v.0@, v.1@, "string"@),
        ),
        item: overlay.folders@.map_values(
            |f: FolderConfig| folder_view(f, ops, scripts_map(overlay)),
        ),
    }
}

/// The request gets an item: it is custom, or the operation it names is found.
pub open spec fn item_built(
    rc: RequestConfig,
    ops: Map<Seq<char>, Map<Seq<char>, (Seq<char>, Seq<char>, Option<Seq<char>>)>>,
) -> bool {
    rc.custom == Some(true) || operation_found(rc, ops)
}

/// A request that gets an item has a non-empty accepted-status list, if any: the
/// first status is the one a successful response has.
pub open spec fn accept_list_ok(
    rc: RequestConfig,
    ops: Map<Seq<char>, Map<Seq<char>, (Seq<char>, Seq<char>, Option<Seq<char>>)>>,
) -> bool {
    item_built(rc, ops) ==> (rc.accept_status matches Some(a) ==> a@.len() > 0)
}

/// The same of every request of a folder.
pub open spec fn accept_lists_nonempty(
    rs: Seq<RequestConfig>,
    ops: Map<Seq<char>, Map<Seq<char>, (Seq<char>, Seq<char>, Option<Seq<char>>)>>,
) -> bool {
    forall|i: int| 0 <= i < rs.len() ==> accept_list_ok(#[trigger] rs[i], ops)
}

/// The same of every folder of the overlay.
pub open spec fn overlay_accept_lists_nonempty(
    overlay: Overlay,
    ops: Map<Seq<char>, Map<Seq<char>, (Seq<char>, Seq<char>, Option<Seq<char>>)>>,
) -> bool {
    forall|i: int| 0 <= i < overlay.folders@.len() ==> accept_lists_nonempty(
        (#[trigger] overlay.folders@[i]).requests@,
        ops,
    )
}

// ── Building ────────────────────────────────────────────────────────────

fn copy_opt_str(s: &Option<String>) -> (r: Option<String>)
    ensures
        opt_text(r) == opt_text(*s),
{
    match s {
        Some(x) => Some(x.clone()),
        None => None,
    }
}

/// A copy of a list of strings.
fn copy_lines(v: &Vec<String>) -> (r: Vec<String>)
    ensures
        texts(r@) == texts(v@),
{
    let mut r: Vec<String> = Vec::new();
    let mut i: usize = 0;
    while i < v.len()
        invariant
            i <= v@.len(),
            r@.len() == i,
            texts(r@) == texts(v@.take(i as int)),
        decreases v@.len() - i,
    {
        let x = v[i].clone();
        let ghost before = r@;
        r.push(x);
        assert(r@ =~= before.push(x));
        assert(v@.take(i + 1) =~= v@.take(i as int).push(v@[i as int]));
        assert(texts(r@) =~= texts(before).push(x@));
        assert(texts(v@.take(i + 1)) =~= texts(v@.take(i as int)).push(v@[i as int]@));
        assert(x@ == v@[i as int]@);
        assert(texts(r@) =~= texts(v@.take(i + 1)));
        i = i + 1;
    }
    assert(v@.take(i as int) =~= v@);
    r
}

/// A copy of a list of string pairs.
fn copy_pairs(v: &Vec<(String, String)>) -> (r: Vec<(String, String)>)
    ensures
        pairs(r@) == pairs(v@),
{
    let mut r: Vec<(String, String)> = Vec::new();
    let mut i: usize = 0;
    while i < v.len()
        invariant
            i <= v@.len(),
            r@.len() == i,
            pairs(r@) == pairs(v@.take(i as int)),
        decreases v@.len() - i,
    {
        let x = (v[i].0.clone(), v[i].1.clone());
        let ghost before = r@;
        r.push(x);
        assert(r@ =~= before.push(x));
        assert(v@.take(i + 1) =~= v@.take(i as int).push(v@[i as int]));
        assert(pairs(r@) =~= pairs(before).push((x.0@, x.1@)));
        assert(pairs(v@.take(i + 1)) =~= pairs(v@.take(i as int)).push((v@[i as int].0@, v@[i as int].1@)));
        assert(pairs(r@) =~= pairs(v@.take(i + 1)));
        i = i + 1;
    }
    assert(v@.take(i as int) =~= v@);
    r
}

/// Bearer authentication with the overlay's type and token.
pub fn build_auth(auth: &AuthConfig) -> (r: BearerAuth)
    ensures
        r@ == auth_view(*auth),
{
    let mut bearer: Vec<(String, String)> = Vec::new();
    bearer.push((String::from_str("token"), auth.token.clone()));
    let r = BearerAuth { auth_type: auth.auth_type.clone(), bearer };
    assert(pairs(r.bearer@) =~= seq![("token"@, auth.token@)]);
    r
}

fn build_opt_auth(auth: &Option<AuthConfig>) -> (r: Option<BearerAuth>)
    ensures
        opt_auth(r) == opt_auth_view(*auth),
{
    match auth {
        Some(a) => Some(build_auth(a)),
        None => None,
    }
}

/// The form fields of a body's members.
fn build_form_fields(ms: &Vec<(String, Json, String)>) -> (r: Vec<(String, String)>)
    ensures
        pairs(r@) == form_fields(ms@),
{
    let mut r: Vec<(String, String)> = Vec::new();
    let mut i: usize = 0;
    while i < ms.len()
        invariant
            i <= ms@.len(),
            r@.len() == i,
            pairs(r@) == form_fields(ms@.take(i as int)),
        decreases ms@.len() - i,
    {
        let text = match &ms[i].1 {
            Json::Str(s) => s.clone(),
            _ => ms[i].2.clone(),
        };
        let x = (ms[i].0.clone(), text);
        let ghost before = r@;
        r.push(x);
        assert(r@ =~= before.push(x));
        assert(ms@.take(i + 1) =~= ms@.take(i as int).push(ms@[i as int]));
        assert(pairs(r@) =~= pairs(before).push((x.0@, x.1@)));
        assert(form_fields(ms@.take(i + 1)) =~= form_fields(ms@.take(i as int)).push(
            (ms@[i as int].0@, form_text(ms@[i as int].1, ms@[i as int].2)),
        ));
        i = i + 1;
    }
    assert(ms@.take(i as int) =~= ms@);
    r
}

/// The body sent with the content type `content_type`: form fields for form
/// encoding, else the pretty JSON text.
pub fn build_body(content_type: &str, body: &BodyConfig) -> (r: RequestBody)
    ensures
        r@ == body_view(content_type@, *body),
{
    if str_eq(content_type, "application/x-www-form-urlencoded") {
        match &body.members {
            Some(ms) => RequestBody::Urlencoded(build_form_fields(ms)),
            None => {
                let r = RequestBody::Urlencoded(Vec::new());
                assert(pairs(Seq::<(String, String)>::empty()) =~= Seq::empty());
                r
            },
        }
    } else {
        RequestBody::Raw(body.pretty.clone())
    }
}

/// A content-type header.
fn content_type_header(ct: &str) -> (h: Vec<(String, String)>)
    ensures
        pairs(h@) == seq![("Content-Type"@, ct@)],
{
    let mut h: Vec<(String, String)> = Vec::new();
    h.push((String::from_str("Content-Type"), String::from_str(ct)));
    assert(pairs(h@) =~= seq![("Content-Type"@, ct@)]);
    h
}

/// The request of a custom overlay entry.
pub fn build_custom_request(rc: &RequestConfig) -> (r: PostmanRequest)
    ensures
        r@ == custom_request_view(*rc),
{
    let method = match &rc.method {
        Some(m) => m.clone(),
        None => String::from_str("GET"),
    };
    let url = match &rc.url {
        Some(u) => u.clone(),
        None => String::from_str(""),
    };
    let header = match &rc.content_type {
        Some(ct) => Some(content_type_header(ct.as_str())),
        None => None,
    };
    let body = match &rc.body {
        Some(b) => {
            let ct = match &rc.content_type {
                Some(c) => c.as_str(),
                None => "application/json",
            };
            Some(build_body(ct, b))
        },
        None => None,
    };
    PostmanRequest { method, url: RequestUrl::Raw(url), header, body, auth: build_opt_auth(&rc.auth) }
}

/// The path with each parameter's `{name}` placeholder replaced by its value.
fn substitute_params(path: &str, params: &Vec<(String, String)>) -> (r: String)
    ensures
        r@ == substituted(path@, pairs(params@)),
{
    let mut p = String::from_str(path);
    let mut i: usize = 0;
    while i < params.len()
        invariant
            i <= params@.len(),
            p@ == substituted(path@, pairs(params@.take(i as int))),
        decreases params@.len() - i,
    {
        let mut pat = String::from_str("{");
        pat.append(params[i].0.as_str());
        pat.append("}");
        proof {
            reveal_strlit("{");
        }
        p = replace_all(p.as_str(), pat.as_str(), params[i].1.as_str());
        assert(pairs(params@.take(i + 1)).drop_last() =~= pairs(params@.take(i as int)));
        i = i + 1;
    }
    assert(params@.take(i as int) =~= params@);
    p
}

/// Each query parameter as `key=value`.
fn query_strings(q: &Vec<(String, String)>) -> (r: Vec<String>)
    ensures
        texts(r@) == query_texts(pairs(q@)),
{
    let mut r: Vec<String> = Vec::new();
    let mut i: usize = 0;
    while i < q.len()
        invariant
            i <= q@.len(),
            r@.len() == i,
            texts(r@) == query_texts(pairs(q@.take(i as int))),
        decreases q@.len() - i,
    {
        let mut s = q[i].0.clone();
        s.append("=");
        s.append(q[i].1.as_str());
        let ghost before = r@;
        r.push(s);
        assert(r@ =~= before.push(s));
        assert(q@.take(i + 1) =~= q@.take(i as int).push(q@[i as int]));
        assert(texts(r@) =~= texts(before).push(s@));
        assert(pairs(q@.take(i + 1)) =~= pairs(q@.take(i as int)).push((q@[i as int].0@, q@[i as int].1@)));
        assert(query_texts(pairs(q@.take(i + 1))) =~= query_texts(pairs(q@.take(i as int))).push(
            q@[i as int].0@ + "="@ + q@[i as int].1@,
        ));
        assert(texts(r@) =~= query_texts(pairs(q@.take(i + 1))));
        i = i + 1;
    }
    assert(q@.take(i as int) =~= q@);
    r
}

/// The URL of an operation's request.
fn build_operation_url(rc: &RequestConfig, op_path: &str) -> (r: RequestUrl)
    ensures
        r@ == operation_url(*rc, op_path@),
{
    let url_base = match &rc.url_base {
        Some(b) => b.as_str(),
        None => "gateway_url",
    };
    let mut base = String::from_str("{{");
    base.append(url_base);
    base.append("}}");
    let path = match &rc.path_params {
        Some(params) => substitute_params(op_path, params),
        None => {
            let p = String::from_str(op_path);
            assert(pairs(Seq::<(String, String)>::empty()) =~= Seq::empty());
            p
        },
    };
    match &rc.query_override {
        Some(q) => {
            let qs = join(&query_strings(q), "&");
            let mut raw = base.clone();
            raw.append(path.as_str());
            raw.append("?");
            raw.append(qs.as_str());
            let mut host: Vec<String> = Vec::new();
            host.push(base);
            let trimmed = trim_start_char(path.as_str(), '/');
            let parts = split_char(trimmed.as_str(), '/');
            let r = RequestUrl::Parts { raw, host, path: parts, query: copy_pairs(q) };
            proof {
                let b = "{{"@ + or_text(rc.url_base, "gateway_url"@) + "}}"@;
                assert(texts(host@) =~= seq![b]);
            }
            r
        },
        None => {
            base.append(path.as_str());
            RequestUrl::Raw(base)
        },
    }
}

/// The request of an operation that the overlay names; `None` where the
/// overlay names no service or operation, or the operation is not found.
pub fn build_openapi_request(rc: &RequestConfig, operations: &OperationMap) -> (r: Option<PostmanRequest>)
    ensures
        match r {
            Some(req) => openapi_request_view(*rc, operations@) == Some(req@),
            None => openapi_request_view(*rc, operations@) is None,
        },
{
    let service = match &rc.service {
        Some(s) => s,
        None => return None,
    };
    let op_id = match &rc.operation {
        Some(o) => o,
        None => return None,
    };
    let op = match operations.get_operation(service.as_str(), op_id.as_str()) {
        Some(op) => op,
        None => return None,
    };
    let url = build_operation_url(rc, op.path.as_str());
    let ct = match &op.content_type {
        Some(c) => c.as_str(),
        None => "application/json",
    };
    let (header, body) = match &rc.body {
        Some(b) => (Some(content_type_header(ct)), Some(build_body(ct, b))),
        None => (None, None),
    };
    let req = PostmanRequest {
        method: op.method.clone(),
        url,
        header,
        body,
        auth: build_opt_auth(&rc.auth),
    };
    Some(req)
}

/// The item of an overlay request; `None` where its request cannot be built.
pub fn build_item(rc: &RequestConfig, operations: &OperationMap, overlay: &Overlay) -> (r: Option<
    PostmanItem,
>)
    requires
        accept_list_ok(*rc, operations@),
    ensures
        match r {
            Some(item) => item_view(*rc, operations@, scripts_map(*overlay)) == Some(item@),
            None => item_view(*rc, operations@, scripts_map(*overlay)) is None,
        },
{
    let custom = match rc.custom {
        Some(c) => c,
        None => false,
    };
    let request = if custom {
        build_custom_request(rc)
    } else {
        match build_openapi_request(rc, operations) {
            Some(req) => req,
            None => return None,
        }
    };
    let ghost scripts = scripts_map(*overlay);
    let mut events: Vec<ItemEvent> = Vec::new();
    match &rc.prerequest {
        Some(script_name) => match lookup(&overlay.scripts, script_name.as_str()) {
            Some(lines) => {
                events.push(ItemEvent { listen: String::from_str("prerequest"), exec_lines: copy_lines(lines) });
            },
            None => {},
        },
        None => {},
    }
    let ghost pre = events_view(events@);
    let test_lines = build_test_script(rc);
    if test_lines.len() > 0 {
        events.push(ItemEvent { listen: String::from_str("test"), exec_lines: test_lines });
    }
    proof {
        let t = test_script_lines(
            rc.name@,
            opt_vec_view(rc.accept_status),
            opt_vec_view(rc.save),
            rc.expect_status,
        );
        assert(t.len() == test_lines@.len());
        assert(events_view(events@) =~= item_events(*rc, scripts));
    }
    let event = if events.len() > 0 {
        Some(events)
    } else {
        None
    };
    let item = PostmanItem { name: rc.name.clone(), request, event };
    Some(item)
}

/// The folder of an overlay folder: the items of its requests that can be
/// built, in order.
pub fn build_folder(folder: &FolderConfig, operations: &OperationMap, overlay: &Overlay) -> (r: PostmanFolder)
    requires
        accept_lists_nonempty(folder.requests@, operations@),
    ensures
        r@ == folder_view(*folder, operations@, scripts_map(*overlay)),
{
    let ghost scripts = scripts_map(*overlay);
    let mut items: Vec<PostmanItem> = Vec::new();
    let mut i: usize = 0;
    while i < folder.requests.len()
        invariant
            i <= folder.requests@.len(),
            accept_lists_nonempty(folder.requests@, operations@),
            scripts == scripts_map(*overlay),
            items_view(items@) == present_items(folder.requests@.take(i as int), operations@, scripts),
        decreases folder.requests@.len() - i,
    {
        let ghost before = items_view(items@);
        proof {
            assert(folder.requests@.take(i + 1).drop_last() =~= folder.requests@.take(i as int));
            assert(folder.requests@.take(i + 1).last() == folder.requests@[i as int]);
        }
        match build_item(&folder.requests[i], operations, overlay) {
            Some(item) => {
                items.push(item);
                assert(items_view(items@) =~= before.push(items@.last()@));
            },
            None => {},
        }
        i = i + 1;
    }
    assert(folder.requests@.take(i as int) =~= folder.requests@);
    PostmanFolder {
        name: folder.name.clone(),
        item: items,
        description: copy_opt_str(&folder.description),
        auth: build_opt_auth(&folder.auth),
    }
}

/// The collection of an overlay.
pub fn generate_collection(overlay: &Overlay, operations: &OperationMap) -> (r: PostmanCollection)
    requires
        overlay_accept_lists_nonempty(*overlay, operations@),
    ensures
        r@ == collection_view(*overlay, operations@),
{
    let mut variable: Vec<CollectionVariable> = Vec::new();
    let mut i: usize = 0;
    while i < overlay.variables.len()
        invariant
            i <= overlay.variables@.len(),
            variable@.len() == i,
            variables_view(variable@) == overlay.variables@.take(i as int).map_values(
                |v: (String, String)| (v.0@, v.1@, "string"@),
            ),
        decreases overlay.variables@.len() - i,
    {
        let v = CollectionVariable {
            key: overlay.variables[i].0.clone(),
            value: overlay.variables[i].1.clone(),
            var_type: String::from_str("string"),
        };
        let ghost before = variable@;
        variable.push(v);
        assert(variable@ =~= before.push(v));
        assert(overlay.variables@.take(i + 1) =~= overlay.variables@.take(i as int).push(overlay.variables@[i as int]));
        assert(variables_view(variable@) =~= variables_view(before).push((v.key@, v.value@, v.var_type@)));
        assert(overlay.variables@.take(i + 1).map_values(|v: (String, String)| (v.0@, v.1@, "string"@))
            =~= overlay.variables@.take(i as int).map_values(|v: (String, String)| (v.0@, v.1@, "string"@)).push(
            (overlay.variables@[i as int].0@, overlay.variables@[i as int].1@, "string"@),
        ));
        assert(variables_view(variable@) =~= overlay.variables@.take(i + 1).map_values(
            |v: (String, String)| (v.0@, v.1@, "string"@),
        ));
        i = i + 1;
    }
    assert(overlay.variables@.take(i as int) =~= overlay.variables@);
    let mut folders: Vec<PostmanFolder> = Vec::new();
    let mut j: usize = 0;
    while j < overlay.folders.len()
        invariant
            j <= overlay.folders@.len(),
            folders@.len() == j,
            overlay_accept_lists_nonempty(*overlay, operations@),
            folders_view(folders@) == overlay.folders@.take(j as int).map_values(
                |f: FolderConfig| folder_view(f, operations@, scripts_map(*overlay)),
            ),
        decreases overlay.folders@.len() - j,
    {
        assert(accept_lists_nonempty(overlay.folders@[j as int].requests@, operations@));
        let f = build_folder(&overlay.folders[j], operations, overlay);
        let ghost before = folders@;
        folders.push(f);
        assert(folders@ =~= before.push(f));
        assert(overlay.folders@.take(j + 1) =~= overlay.folders@.take(j as int).push(overlay.folders@[j as int]));
        assert(folders_view(folders@) =~= folders_view(before).push(f@));
        assert(overlay.folders@.take(j + 1).map_values(|f: FolderConfig| folder_view(f, operations@, scripts_map(*overlay)))
            =~= overlay.folders@.take(j as int).map_values(|f: FolderConfig| folder_view(f, operations@, scripts_map(*overlay))).push(
            folder_view(overlay.folders@[j as int], operations@, scripts_map(*overlay)),
        ));
        assert(folders_view(folders@) =~= overlay.folders@.take(j + 1).map_values(
            |f: FolderConfig| folder_view(f, operations@, scripts_map(*overlay)),
        ));
        j = j + 1;
    }
    assert(overlay.folders@.take(j as int) =~= overlay.folders@);
    PostmanCollection {
        name: overlay.info.name.clone(),
        description: overlay.info.description.clone(),
        schema: String::from_str(
            "https://schema.getpostman.com/json/collection/v2.1.0/collection.json",
        ),
        variable,
        item: folders,
    }
}

} // verus!
