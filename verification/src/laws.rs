//! Properties that hold across the operations of the library.

use vstd::prelude::*;
use crate::crypto::pkce_s256;
use crate::events::{first_at, name_from_email};
use crate::models::{AuthorizationCode, AuthorizeParams};
use crate::oauth::{code_exchange_failure, refresh_failure, AUTHORIZATION_CODE_TTL_MICROS};
use crate::models::RefreshToken;
use crate::errors::DbError;
use crate::postman::optional_field;
use crate::scopes::scopes_allowed;
use crate::text::{digit_char, lemma_digit_char, all_digits, decimal, decimal_int, digits_value, integer_text_value, is_ascii_digit, words};
use crate::auth::password_ok;
use crate::collection::{
    body_view, collection_view, custom_request_view, item_view, openapi_request_view, operation_found, operation_url,
    opt_pairs, or_text, pairs, present_items, query_texts, scripts_map, substituted, AuthView, BodyView, UrlView,
};
use crate::crypto::{argon2_accepts, phc_string_parses};
use crate::oauth::{
    client_secret_ok, code_lookup, code_refusal, refresh_refusal, token_lookup, used_code,
    verify_client_secret_spec,
};
use crate::json::Json;
use crate::json::{json_get, json_members, member_index, opt_text};
use crate::openapi::{body_content_type, http_method_upper, operation_entry, method_entries, path_entries, spec_operations};
use crate::postman::{AuthConfig, BodyConfig, Overlay, opt_vec_view, other_status_lines, save_lines, test_script_lines, RequestConfig};
use crate::grant::{grant_wf, step_outcome, CodeGrant, CodeGrantAction, CodeGrantEvent};
use crate::config::AppConfig;
use crate::models::AuthUser;
use crate::oauth::is_access_token_for;
use crate::token::{expiry, jwt_hs256, validation_outcome};
use crate::textops::{joined, replaced, split_on, texts, trimmed_start};
use crate::users::{apply_plan, sets_key, user_key, users_list_key, CachePlan};

verus! {

proof fn lemma_decimal_digits(n: nat)
    ensures
        all_digits(decimal(n)),
        digits_value(decimal(n)) == n,
        decimal(n).len() >= 1,
    decreases n,
{
    if n < 10 {
        lemma_digit_char(n);
        let s = decimal(n);
        assert(s.drop_last() =~= Seq::<char>::empty());
        assert(digits_value(Seq::<char>::empty()) == 0);
        assert(s.last() == digit_char(n));
        assert(digits_value(s) == digits_value(s.drop_last()) * 10 + n);
    } else {
        lemma_digit_char(n % 10);
        lemma_decimal_digits(n / 10);
        let p = decimal(n / 10);
        let s = decimal(n);
        assert(s.drop_last() =~= p);
        assert(s.last() == digit_char(n % 10));
        assert(digits_value(s) == digits_value(p) * 10 + (n % 10));
        assert forall|i: int| 0 <= i < s.len() implies is_ascii_digit(#[trigger] s[i]) by {
            if i < p.len() {
                assert(s[i] == p[i]);
            }
        }
    }
}

/// Decimal text is one-to-one: different numbers never share a text.
pub proof fn law_decimal_injective(a: int, b: int)
    requires
        decimal_int(a) == decimal_int(b),
    ensures
        a == b,
{
    if a < 0 {
        lemma_decimal_digits((-a) as nat);
    } else {
        lemma_decimal_digits(a as nat);
    }
    if b < 0 {
        lemma_decimal_digits((-b) as nat);
    } else {
        lemma_decimal_digits(b as nat);
    }
    let s = decimal_int(a);
    if a < 0 && b < 0 {
        assert(s.drop_first() =~= decimal((-a) as nat));
        assert(s.drop_first() =~= decimal((-b) as nat));
    } else if a < 0 {
        assert(s[0] == '-');
        assert(is_ascii_digit(decimal(b as nat)[0]));
    } else if b < 0 {
        assert(s[0] == '-');
        assert(is_ascii_digit(decimal(a as nat)[0]));
    }
}

/// Distinct users have distinct cache keys.
pub proof fn law_user_keys_distinct(a: i32, b: i32)
    requires
        a != b,
    ensures
        user_key(a) != user_key(b),
        user_key(a) != users_list_key(),
{
    reveal_strlit("user:");
    if user_key(a) == user_key(b) {
        assert(user_key(a).skip(5) =~= decimal_int(a as int));
        assert(user_key(b).skip(5) =~= decimal_int(b as int));
        law_decimal_injective(a as int, b as int);
    }
    reveal_strlit("user:");
    reveal_strlit("users:list");
    assert(user_key(a)[4] != users_list_key()[4]);
}

/// Parsing reads back what decimal formatting writes: the text of `n` parses
/// to `n`, signed or (for non-negative `n`) unsigned.
pub proof fn law_parse_reads_decimal(n: int)
    ensures
        integer_text_value(decimal_int(n), true) == Some(n),
        n >= 0 ==> integer_text_value(decimal_int(n), false) == Some(n),
{
    if n < 0 {
        let m = (-n) as nat;
        lemma_decimal_digits(m);
        let s = decimal_int(n);
        assert(s.drop_first() =~= decimal(m));
    } else {
        lemma_decimal_digits(n as nat);
        assert(is_ascii_digit(decimal(n as nat)[0]));
    }
}

/// An authorization code can be redeemed only if it is unused, unexpired, presented
/// by the client it was issued to with the same redirect URI, and the code
/// verifier hashes to the stored PKCE challenge.
pub proof fn law_code_redeemed_only_when_valid(
    c: AuthorizationCode,
    client_id: Seq<char>,
    redirect_uri: Seq<char>,
    verifier: Seq<char>,
    now: i64,
)
    requires
        code_exchange_failure(c, client_id, redirect_uri, verifier, now) is None,
    ensures
        !c.used,
        now <= c.expires_at,
        c.client_id@ == client_id,
        c.redirect_uri@ == redirect_uri,
        pkce_s256(verifier) == c.code_challenge@,
{
}

/// A code once marked used is refused whatever else is presented.
pub proof fn law_used_code_refused(
    c: AuthorizationCode,
    client_id: Seq<char>,
    redirect_uri: Seq<char>,
    verifier: Seq<char>,
    now: i64,
)
    requires
        c.used,
    ensures
        code_exchange_failure(c, client_id, redirect_uri, verifier, now) == Some(
            "Authorization code already used"@,
        ),
{
}

/// A code stored as the authorization step issues it (unused, bound to the
/// request's client, redirect URI and challenge, expiring ten minutes after
/// `issued_at`) is redeemed with the verifier whose `S256` challenge was sent, by
/// the same client and redirect URI, up to ten minutes after issue.
pub proof fn law_issued_code_redeemable(
    params: AuthorizeParams,
    stored: AuthorizationCode,
    issued_at: i64,
    verifier: Seq<char>,
    now: i64,
)
    requires
        params.code_challenge@ == pkce_s256(verifier),
        stored.client_id == params.client_id,
        stored.redirect_uri == params.redirect_uri,
        stored.code_challenge == params.code_challenge,
        stored.expires_at == issued_at + AUTHORIZATION_CODE_TTL_MICROS,
        !stored.used,
        now <= issued_at + AUTHORIZATION_CODE_TTL_MICROS,
    ensures
        code_exchange_failure(stored, params.client_id@, params.redirect_uri@, verifier, now) is None,
{
}

/// A refresh token is used only while unexpired and by the client it was issued to.
pub proof fn law_refresh_only_when_valid(t: RefreshToken, client_id: Seq<char>, now: i64)
    requires
        refresh_failure(t, client_id, now) is None,
    ensures
        now <= t.expires_at,
        t.client_id@ == client_id,
{
}

/// Every scope list is allowed against itself.
pub proof fn law_scopes_reflexive(s: Seq<char>)
    ensures
        scopes_allowed(s, s),
{
    assert forall|i: int| 0 <= i < words(s).len() implies words(s).contains(#[trigger] words(s)[i]) by {
    }
}

/// Scope allowance is transitive: scopes allowed against a subset of the client's
/// scopes are allowed against the client's scopes.
pub proof fn law_scopes_transitive(a: Seq<char>, b: Seq<char>, c: Seq<char>)
    requires
        scopes_allowed(a, b),
        scopes_allowed(b, c),
    ensures
        scopes_allowed(a, c),
{
    assert forall|i: int| 0 <= i < words(a).len() implies words(c).contains(#[trigger] words(a)[i]) by {
        assert(words(b).contains(words(a)[i]));
        let j = choose|j: int| 0 <= j < words(b).len() && words(b)[j] == words(a)[i];
        assert(words(c).contains(words(b)[j]));
    }
}

/// After a user is written (created or updated) the cache serves the written
/// profile under the user's key, no longer holds the user list, and keeps every
/// other user's entry.
pub proof fn law_write_refreshes_cache<V>(
    cache: Map<Seq<char>, V>,
    plan: CachePlan,
    id: i32,
    written: V,
    other: i32,
)
    requires
        sets_key(plan, user_key(id)),
        plan.invalidate@.len() == 1,
        plan.invalidate@[0]@ == users_list_key(),
        other != id,
    ensures
        apply_plan(cache, plan, written).dom().contains(user_key(id)),
        apply_plan(cache, plan, written)[user_key(id)] == written,
        !apply_plan(cache, plan, written).dom().contains(users_list_key()),
        cache.dom().contains(user_key(other)) ==> apply_plan(cache, plan, written).dom().contains(
            user_key(other),
        ) && apply_plan(cache, plan, written)[user_key(other)] == cache[user_key(other)],
{
    law_user_keys_distinct(id, other);
    law_user_keys_distinct(other, id);
    let after = apply_plan(cache, plan, written);
    assert(after.dom().contains(user_key(id))) by {
        if !after.dom().contains(user_key(id)) {
            assert(user_key(id) != users_list_key());
        }
    }
}

/// After a user is deleted the cache holds neither the user's profile nor the
/// user list, and keeps every other user's entry.
pub proof fn law_delete_clears_cache<V>(
    cache: Map<Seq<char>, V>,
    plan: CachePlan,
    id: i32,
    any: V,
    other: i32,
)
    requires
        plan.set_key is None,
        plan.invalidate@.len() == 2,
        plan.invalidate@[0]@ == user_key(id),
        plan.invalidate@[1]@ == users_list_key(),
        other != id,
    ensures
        !apply_plan(cache, plan, any).dom().contains(user_key(id)),
        !apply_plan(cache, plan, any).dom().contains(users_list_key()),
        cache.dom().contains(user_key(other)) ==> apply_plan(cache, plan, any).dom().contains(
            user_key(other),
        ) && apply_plan(cache, plan, any)[user_key(other)] == cache[user_key(other)],
{
    law_user_keys_distinct(id, other);
    law_user_keys_distinct(other, id);
}

/// The name derived from an email is the part before its first `@`: a prefix of
/// the email with no `@` in it.
pub proof fn law_name_is_local_part(email: Seq<char>)
    ensures
        name_from_email(email).len() <= email.len(),
        email.take(name_from_email(email).len() as int) == name_from_email(email),
        forall|i: int| 0 <= i < name_from_email(email).len() ==> #[trigger] name_from_email(email)[i] != '@',
        first_at(email) matches Some(i) ==> 0 <= i < email.len() && email[i] == '@',
    decreases email.len(),
{
    if email.len() > 0 && email[0] != '@' {
        let t = email.drop_first();
        law_name_is_local_part(t);
        let n = name_from_email(email);
        match first_at(t) {
            Some(i) => {
                assert(first_at(email) == Some(i + 1));
                assert(n =~= email.take(i + 1));
                assert(name_from_email(t) =~= t.take(i));
                assert forall|k: int| 0 <= k < n.len() implies #[trigger] n[k] != '@' by {
                    if k > 0 {
                        assert(n[k] == name_from_email(t)[k - 1]);
                    }
                }
            },
            None => {
                assert forall|k: int| 0 <= k < n.len() implies #[trigger] n[k] != '@' by {
                    if k > 0 {
                        assert(n[k] == t[k - 1]);
                    }
                }
            },
        }
    }
    assert(email.take(name_from_email(email).len() as int) =~= name_from_email(email));
}

/// Marking a saved field optional and reading the mark back gives the field.
pub proof fn law_optional_field_roundtrip(field: Seq<char>)
    ensures
        optional_field(field.push('?')) == (field, true),
{
    assert(field.push('?').drop_last() =~= field);
}

proof fn lemma_joined_push(p: Seq<Seq<char>>, sep: Seq<char>, e: Seq<char>)
    requires
        p.len() >= 1,
    ensures
        joined(p.push(e), sep) == joined(p, sep) + sep + e,
{
    assert(p.push(e).drop_last() =~= p);
}

proof fn lemma_joined_extend_last(p: Seq<Seq<char>>, sep: Seq<char>, x: char)
    requires
        p.len() >= 1,
    ensures
        joined(p.update(p.len() - 1, p.last().push(x)), sep) == joined(p, sep).push(x),
{
    let q = p.update(p.len() - 1, p.last().push(x));
    if p.len() == 1 {
        assert(joined(q, sep) == q[0]);
    } else {
        assert(q.drop_last() =~= p.drop_last());
        assert(joined(q, sep) =~= joined(p, sep).push(x));
    }
}

/// Splitting a text at a character and joining the pieces with that character
/// gives the text back: no character is lost or added.
pub proof fn law_split_join(s: Seq<char>, c: char)
    ensures
        split_on(s, c).len() >= 1,
        joined(split_on(s, c), seq![c]) == s,
    decreases s.len(),
{
    if s.len() == 0 {
        assert(joined(split_on(s, c), seq![c]) =~= s);
    } else {
        law_split_join(s.drop_last(), c);
        let p = split_on(s.drop_last(), c);
        if s.last() == c {
            lemma_joined_push(p, seq![c], Seq::empty());
        } else {
            lemma_joined_extend_last(p, seq![c], s.last());
        }
        assert(s.drop_last().push(s.last()) =~= s);
    }
}

/// An HTTP method name as operations carry it.
pub open spec fn is_upper_http_method(m: Seq<char>) -> bool {
    m == "GET"@ || m == "POST"@ || m == "PUT"@ || m == "DELETE"@ || m == "PATCH"@
}

proof fn lemma_method_entries(path: Seq<char>, methods: Seq<(String, Json)>)
    ensures
        forall|i: int|
            0 <= i < method_entries(path, methods).len() ==> is_upper_http_method(
                (#[trigger] method_entries(path, methods)[i]).1.0,
            ) && method_entries(path, methods)[i].1.1 == path,
    decreases methods.len(),
{
    if methods.len() > 0 {
        lemma_method_entries(path, methods.drop_last());
        let prev = method_entries(path, methods.drop_last());
        match operation_entry(path, methods.last().0@, methods.last().1) {
            Some(e) => {
                assert(is_upper_http_method(e.1.0) && e.1.1 == path);
                assert forall|i: int| 0 <= i < method_entries(path, methods).len() implies is_upper_http_method(
                    (#[trigger] method_entries(path, methods)[i]).1.0,
                ) && method_entries(path, methods)[i].1.1 == path by {
                    if i < prev.len() {
                        assert(method_entries(path, methods)[i] == prev[i]);
                    }
                }
            },
            None => {},
        }
    }
}

proof fn lemma_path_entries(paths: Seq<(String, Json)>)
    ensures
        forall|i: int|
            0 <= i < path_entries(paths).len() ==> is_upper_http_method(
                (#[trigger] path_entries(paths)[i]).1.0,
            ),
    decreases paths.len(),
{
    if paths.len() > 0 {
        lemma_path_entries(paths.drop_last());
        let prev = path_entries(paths.drop_last());
        match json_members(paths.last().1) {
            Some(ms) => {
                lemma_method_entries(paths.last().0@, ms);
                let tail = method_entries(paths.last().0@, ms);
                assert forall|i: int| 0 <= i < path_entries(paths).len() implies is_upper_http_method(
                    (#[trigger] path_entries(paths)[i]).1.0,
                ) by {
                    if i >= prev.len() {
                        assert(path_entries(paths)[i] == tail[i - prev.len()]);
                    }
                }
            },
            None => {
                assert(path_entries(paths) =~= prev);
            },
        }
    }
}

/// Every operation taken from an API description carries one of the five HTTP
/// methods, in upper case.
pub proof fn law_operation_methods(spec: Json)
    ensures
        forall|i: int|
            0 <= i < spec_operations(spec).len() ==> is_upper_http_method(
                (#[trigger] spec_operations(spec)[i]).1.0,
            ),
{
    match crate::json::json_get(spec, "paths"@) {
        Some(p) => match json_members(p) {
            Some(ps) => lemma_path_entries(ps),
            None => {},
        },
        None => {},
    }
}

/// A folder never has more items than the overlay has requests in it: each
/// request gives one item or none.
pub proof fn law_items_at_most_requests(
    rs: Seq<RequestConfig>,
    ops: Map<Seq<char>, Map<Seq<char>, (Seq<char>, Seq<char>, Option<Seq<char>>)>>,
    scripts: Map<Seq<char>, Vec<String>>,
)
    ensures
        present_items(rs, ops, scripts).len() <= rs.len(),
    decreases rs.len(),
{
    if rs.len() > 0 {
        law_items_at_most_requests(rs.drop_last(), ops, scripts);
    }
}

/// A client's secret authenticates against the hash its registration stored:
/// what registration promises of the pair is what the secret check accepts.
pub proof fn law_registered_secret_authenticates(secret: Seq<char>, stored_hash: Seq<char>)
    requires
        client_secret_ok(secret, stored_hash),
    ensures
        verify_client_secret_spec(secret, stored_hash, Ok(())),
{
}

/// A password accepted at registration logs in: the stored hash parses and the
/// password verifies against it, so the credential check gives the user back.
pub proof fn law_registered_password_logs_in(password: Seq<char>, stored_hash: Seq<char>)
    requires
        password_ok(password, stored_hash),
    ensures
        phc_string_parses(stored_hash),
        argon2_accepts(vstd::utf8::encode_utf8(password), stored_hash),
{
}

/// An authorization code works once: when a redemption of the code `k` succeeds
/// and the record it gives back (marked used) is stored under `k`, every later
/// redemption of `k`, by whoever and whenever, is refused as already used.
pub proof fn law_code_single_use(
    store: Map<Seq<char>, AuthorizationCode>,
    k: Seq<char>,
    client_id: Seq<char>,
    redirect_uri: Seq<char>,
    verifier: Seq<char>,
    now: i64,
    later_client_id: Seq<char>,
    later_redirect_uri: Seq<char>,
    later_verifier: Seq<char>,
    later: i64,
)
    requires
        code_refusal(code_lookup(store, k), client_id, redirect_uri, verifier, now) is None,
    ensures
        code_refusal(
            code_lookup(store.insert(k, used_code(store[k])), k),
            later_client_id,
            later_redirect_uri,
            later_verifier,
            later,
        ) == Some("Authorization code already used"@),
{
}

/// A refresh token works once: when a redemption of the token `x` succeeds, `x` is
/// deleted as the redemption asks and the rotated-in token `y` (another text) is
/// stored, every later redemption of `x` is refused as an unknown token.
pub proof fn law_refresh_single_use(
    store: Map<Seq<char>, RefreshToken>,
    x: Seq<char>,
    client_id: Seq<char>,
    now: i64,
    y: Seq<char>,
    rotated_in: RefreshToken,
    later_client_id: Seq<char>,
    later: i64,
)
    requires
        refresh_refusal(token_lookup(store, x), client_id, now) is None,
        y != x,
    ensures
        token_lookup(store.remove(x).insert(y, rotated_in), x) == Err::<RefreshToken, DbError>(
            DbError::RowNotFound,
        ),
        refresh_refusal(token_lookup(store.remove(x).insert(y, rotated_in), x), later_client_id, later)
            == Some("Invalid refresh token"@),
{
}

/// A token the service signs validates under the same secret: the access token
/// signed at `now` with lifetime `ttl` is accepted, or refused only as expired.
pub proof fn law_signed_token_validates(
    now: usize,
    sub: Seq<char>,
    email: Option<Seq<char>>,
    client_id: Seq<char>,
    scopes: Seq<char>,
    secret: Seq<char>,
    ttl: i64,
    r: Result<(), String>,
)
    requires
        validation_outcome(jwt_hs256(sub, email, client_id, scopes, expiry(now, ttl), now, secret), secret, r),
    ensures
        r is Ok || r->Err_0@ == "ExpiredSignature"@,
{
    let token = jwt_hs256(sub, email, client_id, scopes, expiry(now, ttl), now, secret);
    assert(token == jwt_hs256(sub, email, client_id, scopes, expiry(now, ttl), now, secret));
}

/// Tokens of the authorization-code grant are issued only in a stage where the
/// request's client secret has verified against the client's stored hash and the
/// code was redeemable by this request (unused, unexpired, same client and
/// redirect URI, matching PKCE verifier).
pub proof fn law_grant_tokens_after_checks(s: CodeGrant)
    requires
        grant_wf(s),
        s is AwaitRefreshStored,
    ensures
        client_secret_ok(s->AwaitRefreshStored_req.client_secret@, s->AwaitRefreshStored_secret_hash@),
        code_exchange_failure(
            s->AwaitRefreshStored_code,
            s->AwaitRefreshStored_req.client_id@,
            s->AwaitRefreshStored_exchange.redirect_uri@,
            s->AwaitRefreshStored_exchange.code_verifier@,
            s->AwaitRefreshStored_at,
        ) is None,
{
}

/// An authorization-code exchange answers tokens for the user found for the
/// redeemed code: from the stage that looks the user up, once the store finds
/// user `u` and then stores the refresh token, the answer is a token response
/// whose access token is signed for `u`'s id and email, the request's client and
/// the code's scopes, whose scope is the code's, and whose refresh token is the
/// one handed to the store for `u`.
pub proof fn law_code_exchange_answers_user_token(
    s: CodeGrant,
    u: AuthUser,
    stored: RefreshToken,
    config: AppConfig,
    later_config: AppConfig,
    now: i64,
    later: i64,
    r1: (CodeGrant, CodeGrantAction),
    r2: (CodeGrant, CodeGrantAction),
)
    requires
        s is AwaitUser,
        step_outcome(s, CodeGrantEvent::UserFound(Ok(u)), config, now, r1),
        step_outcome(r1.0, CodeGrantEvent::RefreshStored(Ok(stored)), later_config, later, r2),
    ensures
        r1.1 matches CodeGrantAction::StoreRefresh(rec) && rec.user_id == u.id,
        r2.1 matches CodeGrantAction::Answer(Ok(resp)) && (is_access_token_for(
            resp.access_token@,
            decimal_int(u.id as int),
            Some(u.email@),
            s->AwaitUser_req.client_id@,
            s->AwaitUser_code.scopes@,
            config,
        ) && resp.scope@ == s->AwaitUser_code.scopes@ && resp.refresh_token == Some(
            r1.1->StoreRefresh_0.token,
        )),
        r2.0 is Finished,
{
}

proof fn lemma_method_entries_complete(path: Seq<char>, methods: Seq<(String, Json)>, j: int)
    requires
        0 <= j < methods.len(),
        operation_entry(path, methods[j].0@, methods[j].1) is Some,
    ensures
        method_entries(path, methods).contains(operation_entry(path, methods[j].0@, methods[j].1)->0),
    decreases methods.len(),
{
    let e = operation_entry(path, methods[j].0@, methods[j].1)->0;
    let prev = method_entries(path, methods.drop_last());
    if j == methods.len() - 1 {
        assert(method_entries(path, methods) == prev.push(e));
        assert(method_entries(path, methods)[prev.len() as int] == e);
    } else {
        assert(methods.drop_last()[j] == methods[j]);
        lemma_method_entries_complete(path, methods.drop_last(), j);
        let k = choose|k: int| 0 <= k < prev.len() && prev[k] == e;
        match operation_entry(path, methods.last().0@, methods.last().1) {
            Some(x) => assert(method_entries(path, methods)[k] == prev.push(x)[k]),
            None => {},
        }
    }
}

proof fn lemma_path_entries_complete(paths: Seq<(String, Json)>, i: int, j: int)
    requires
        0 <= i < paths.len(),
        json_members(paths[i].1) is Some,
        0 <= j < json_members(paths[i].1)->0.len(),
        operation_entry(paths[i].0@, json_members(paths[i].1)->0[j].0@, json_members(paths[i].1)->0[j].1) is Some,
    ensures
        path_entries(paths).contains(
            operation_entry(paths[i].0@, json_members(paths[i].1)->0[j].0@, json_members(paths[i].1)->0[j].1)->0,
        ),
    decreases paths.len(),
{
    let ms = json_members(paths[i].1)->0;
    let e = operation_entry(paths[i].0@, ms[j].0@, ms[j].1)->0;
    let prev = path_entries(paths.drop_last());
    if i == paths.len() - 1 {
        lemma_method_entries_complete(paths[i].0@, ms, j);
        let tail = method_entries(paths[i].0@, ms);
        let k = choose|k: int| 0 <= k < tail.len() && tail[k] == e;
        assert(path_entries(paths) == prev + tail);
        assert(path_entries(paths)[prev.len() + k] == e);
    } else {
        assert(paths.drop_last()[i] == paths[i]);
        lemma_path_entries_complete(paths.drop_last(), i, j);
        let k = choose|k: int| 0 <= k < prev.len() && prev[k] == e;
        let tail = match json_members(paths.last().1) {
            Some(ms2) => method_entries(paths.last().0@, ms2),
            None => Seq::empty(),
        };
        assert(path_entries(paths) == prev + tail);
        assert(path_entries(paths)[k] == e);
    }
}

/// Every operation of an API description is read: for each path whose value is an
/// object and each of its methods that is one of the five HTTP methods with a
/// string `operationId`, that operation is among the operations read, whatever
/// paths come before or after it.
pub proof fn law_operations_complete(spec: Json, i: int, j: int)
    requires
        json_get(spec, "paths"@) is Some,
        json_members(json_get(spec, "paths"@)->0) is Some,
        0 <= i < json_members(json_get(spec, "paths"@)->0)->0.len(),
        json_members(json_members(json_get(spec, "paths"@)->0)->0[i].1) is Some,
        0 <= j < json_members(json_members(json_get(spec, "paths"@)->0)->0[i].1)->0.len(),
        http_method_upper(json_members(json_members(json_get(spec, "paths"@)->0)->0[i].1)->0[j].0@) is Some,
        json_get(json_members(json_members(json_get(spec, "paths"@)->0)->0[i].1)->0[j].1, "operationId"@) matches Some(
            Json::Str(_),
        ),
    ensures
        ({
            let ps = json_members(json_get(spec, "paths"@)->0)->0;
            let ms = json_members(ps[i].1)->0;
            let id = json_get(ms[j].1, "operationId"@)->0->Str_0;
            spec_operations(spec).contains(
                (id@, (http_method_upper(ms[j].0@)->0, ps[i].0@, body_content_type(ms[j].1))),
            )
        }),
{
    let ps = json_members(json_get(spec, "paths"@)->0)->0;
    let ms = json_members(ps[i].1)->0;
    assert(operation_entry(ps[i].0@, ms[j].0@, ms[j].1) is Some);
    lemma_path_entries_complete(ps, i, j);
}

proof fn lemma_method_entries_sound(path: Seq<char>, methods: Seq<(String, Json)>, k: int)
    requires
        0 <= k < method_entries(path, methods).len(),
    ensures
        exists|j: int|
            0 <= j < methods.len() && operation_entry(path, #[trigger] methods[j].0@, methods[j].1) == Some(
                method_entries(path, methods)[k],
            ),
    decreases methods.len(),
{
    let prev = method_entries(path, methods.drop_last());
    if k < prev.len() {
        lemma_method_entries_sound(path, methods.drop_last(), k);
        let j = choose|j: int|
            0 <= j < methods.drop_last().len() && operation_entry(path, #[trigger] methods.drop_last()[j].0@, methods.drop_last()[j].1)
                == Some(prev[k]);
        assert(methods.drop_last()[j] == methods[j]);
        match operation_entry(path, methods.last().0@, methods.last().1) {
            Some(x) => assert(method_entries(path, methods)[k] == prev.push(x)[k]),
            None => {},
        }
    } else {
        let j = methods.len() - 1;
        assert(methods[j] == methods.last());
    }
}

proof fn lemma_path_entries_sound(paths: Seq<(String, Json)>, k: int)
    requires
        0 <= k < path_entries(paths).len(),
    ensures
        exists|i: int, j: int|
            0 <= i < paths.len() && json_members(paths[i].1) is Some && 0 <= j < json_members(paths[i].1)->0.len()
                && operation_entry(paths[i].0@, json_members(paths[i].1)->0[j].0@, #[trigger] json_members(paths[i].1)->0[j].1)
                == Some(path_entries(paths)[k]),
    decreases paths.len(),
{
    let prev = path_entries(paths.drop_last());
    let last = paths.len() - 1;
    assert(paths[last] == paths.last());
    if k < prev.len() {
        lemma_path_entries_sound(paths.drop_last(), k);
        let (i, j) = choose|i: int, j: int|
            0 <= i < paths.drop_last().len() && json_members(paths.drop_last()[i].1) is Some && 0 <= j
                < json_members(paths.drop_last()[i].1)->0.len() && operation_entry(
                paths.drop_last()[i].0@,
                json_members(paths.drop_last()[i].1)->0[j].0@,
                #[trigger] json_members(paths.drop_last()[i].1)->0[j].1,
            ) == Some(prev[k]);
        assert(paths.drop_last()[i] == paths[i]);
        assert(path_entries(paths)[k] == prev[k]);
    } else {
        let ms = json_members(paths.last().1)->0;
        assert(json_members(paths.last().1) is Some);
        assert(path_entries(paths) == prev + method_entries(paths.last().0@, ms));
        assert(path_entries(paths)[k] == method_entries(paths.last().0@, ms)[k - prev.len()]);
        lemma_method_entries_sound(paths.last().0@, ms, k - prev.len());
        let j = choose|j: int|
            0 <= j < ms.len() && operation_entry(paths.last().0@, #[trigger] ms[j].0@, ms[j].1) == Some(
                method_entries(paths.last().0@, ms)[k - prev.len()],
            );
        assert(json_members(paths[last].1)->0[j] == ms[j]);
    }
}

/// Every operation read from an API description is one that it describes: its
/// id is the string `operationId` of one of the five methods of a path whose
/// value is an object, with that method in upper case, that path, and that
/// method's request content type.
pub proof fn law_operations_sound(spec: Json, k: int)
    requires
        0 <= k < spec_operations(spec).len(),
    ensures
        json_get(spec, "paths"@) is Some,
        json_members(json_get(spec, "paths"@)->0) is Some,
        ({
            let ps = json_members(json_get(spec, "paths"@)->0)->0;
            exists|i: int, j: int|
                0 <= i < ps.len() && json_members(ps[i].1) is Some && 0 <= j < json_members(ps[i].1)->0.len()
                    && http_method_upper(json_members(ps[i].1)->0[j].0@) is Some && (json_get(
                    #[trigger] json_members(ps[i].1)->0[j].1,
                    "operationId"@,
                ) matches Some(Json::Str(id)) && spec_operations(spec)[k] == (
                    id@,
                    (
                        http_method_upper(json_members(ps[i].1)->0[j].0@)->0,
                        ps[i].0@,
                        body_content_type(json_members(ps[i].1)->0[j].1),
                    ),
                ))
        }),
{
    let ps = json_members(json_get(spec, "paths"@)->0)->0;
    lemma_path_entries_sound(ps, k);
    let (i, j) = choose|i: int, j: int|
        0 <= i < ps.len() && json_members(ps[i].1) is Some && 0 <= j < json_members(ps[i].1)->0.len()
            && operation_entry(ps[i].0@, json_members(ps[i].1)->0[j].0@, #[trigger] json_members(ps[i].1)->0[j].1) == Some(
            path_entries(ps)[k],
        );
    assert(json_members(ps[i].1) is Some);
}

/// A request with fields to save and no accepted-status list gets one test: it
/// checks the request's expected status (200 when it names none), then reads the
/// response, saves each field and closes the test.
pub proof fn law_saved_fields_test_checks_expected_status(
    name: Seq<char>,
    save: Seq<(String, String)>,
    expect: Option<u16>,
)
    ensures
        ({
            let lines = test_script_lines(name, None, Some(save), expect);
            let status: u16 = match expect {
                Some(e) => e,
                None => 200,
            };
            &&& lines.len() >= 4
            &&& lines[0] == "pm.test('"@ + name + " - success', function () {"@
            &&& lines[1] == "    pm.response.to.have.status("@ + decimal(status as nat) + ");"@
            &&& lines[2] == "    var json = pm.response.json();"@
            &&& lines.last() == "});"@
        }),
{
    let lines = test_script_lines(name, None, Some(save), expect);
    let st: u16 = match expect {
        Some(e) => e,
        None => 200,
    };
    assert(lines == seq![
        "pm.test('"@ + name + " - success', function () {"@,
        "    pm.response.to.have.status("@ + decimal(st as nat) + ");"@,
        "    var json = pm.response.json();"@,
    ] + save_lines(save, "    "@) + seq!["});"@]);
}

/// A request with only an expected status gets one three-line test of that status;
/// a request with neither statuses nor fields to save gets no script.
pub proof fn law_expected_status_only_test(name: Seq<char>, e: u16)
    ensures
        test_script_lines(name, None, None, Some(e)) == seq![
            "pm.test('"@ + name + "', function () {"@,
            "    pm.response.to.have.status("@ + decimal(e as nat) + ");"@,
            "});"@,
        ],
        test_script_lines(name, None, None, None).len() == 0,
{
}

proof fn lemma_other_status_lines(name: Seq<char>, statuses: Seq<u16>, k: int)
    requires
        0 <= k < statuses.len(),
    ensures
        other_status_lines(name, statuses).len() == 4 * statuses.len(),
        other_status_lines(name, statuses)[4 * k] == "} else if (pm.response.code === "@ + decimal(
            statuses[k] as nat,
        ) + ") {"@,
        other_status_lines(name, statuses)[4 * k + 2] == "        pm.response.to.have.status("@ + decimal(
            statuses[k] as nat,
        ) + ");"@,
    decreases statuses.len(),
{
    let prev = other_status_lines(name, statuses.drop_last());
    if statuses.len() > 1 {
        if k < statuses.len() - 1 {
            lemma_other_status_lines(name, statuses.drop_last(), k);
            assert(statuses.drop_last()[k] == statuses[k]);
        } else {
            lemma_other_status_lines(name, statuses.drop_last(), 0);
        }
    }
}

/// With accepted statuses, the script branches on the response code: it opens
/// with the first accepted status, which its success test checks, and each further
/// accepted status, in order, gets a branch of its own that checks it; it closes
/// the branches at the end.
pub proof fn law_accepted_statuses_branch(
    name: Seq<char>,
    accept: Seq<u16>,
    save: Option<Seq<(String, String)>>,
    expect: Option<u16>,
    k: int,
)
    requires
        accept.len() > 0,
        1 <= k < accept.len(),
    ensures
        ({
            let lines = test_script_lines(name, Some(accept), save, expect);
            let n = lines.len();
            &&& lines[0] == "if (pm.response.code === "@ + decimal(accept[0] as nat) + ") {"@
            &&& lines.last() == "}"@
            &&& lines[n - 1 - 4 * (accept.len() - 1) + 4 * (k - 1)] == "} else if (pm.response.code === "@
                + decimal(accept[k] as nat) + ") {"@
            &&& lines[n - 1 - 4 * (accept.len() - 1) - 2] == "        pm.response.to.have.status("@ + decimal(
                accept[0] as nat,
            ) + ");"@
        }),
{
    let others = accept.skip(1);
    lemma_other_status_lines(name, others, k - 1);
    assert(others[k - 1] == accept[k]);
    let primary = decimal(accept[0] as nat);
    let mid = match save {
        Some(sv) => seq!["    var json = pm.response.json();"@] + save_lines(sv, "    "@),
        None => Seq::empty(),
    };
    let lines = test_script_lines(name, Some(accept), save, expect);
    let head = seq!["if (pm.response.code === "@ + primary + ") {"@] + mid + seq![
        "    pm.test('"@ + name + " - success', function () {"@,
        "        pm.response.to.have.status("@ + primary + ");"@,
        "    });"@,
    ];
    assert(lines == head + other_status_lines(name, others) + seq!["}"@]);
    assert(lines[0] == head[0]);
    assert(lines[head.len() + 4 * (k - 1)] == other_status_lines(name, others)[4 * (k - 1)]);
    assert(lines[head.len() - 2] == head[head.len() - 2]);
}

/// The bearer authentication an overlay entry asks for, as a collection writes it.
pub open spec fn bearer_of(a: Option<AuthConfig>) -> Option<AuthView> {
    match a {
        Some(x) => Some(AuthView { auth_type: x.auth_type@, bearer: seq![("token"@, x.token@)] }),
        None => None,
    }
}

/// A custom request is the overlay entry's own: its method (GET when it names
/// none), its URL as one text (empty when none), a content-type header exactly
/// when it names a content type, a body exactly when it has one, and its
/// authentication, a bearer token under the key `token`.
pub proof fn law_custom_request_is_the_entrys(rc: RequestConfig)
    ensures
        custom_request_view(rc).method == (match rc.method {
            Some(m) => m@,
            None => "GET"@,
        }),
        custom_request_view(rc).url == UrlView::Raw(
            match rc.url {
                Some(u) => u@,
                None => Seq::<char>::empty(),
            },
        ),
        custom_request_view(rc).header == (match rc.content_type {
            Some(ct) => Some(seq![("Content-Type"@, ct@)]),
            None => None,
        }),
        custom_request_view(rc).body is Some <==> rc.body is Some,
        custom_request_view(rc).auth == bearer_of(rc.auth),
{
    reveal_strlit("");
    assert(""@ =~= Seq::<char>::empty());
}

/// The request of an operation carries the operation's method, the overlay
/// entry's authentication, and a body (with its content-type header) exactly when
/// the entry has one.
pub proof fn law_operation_request_is_the_operations(
    rc: RequestConfig,
    ops: Map<Seq<char>, Map<Seq<char>, (Seq<char>, Seq<char>, Option<Seq<char>>)>>,
)
    requires
        operation_found(rc, ops),
    ensures
        openapi_request_view(rc, ops) is Some,
        openapi_request_view(rc, ops)->0.method == ops[rc.service->0@][rc.operation->0@].0,
        openapi_request_view(rc, ops)->0.auth == bearer_of(rc.auth),
        openapi_request_view(rc, ops)->0.body is Some <==> rc.body is Some,
        openapi_request_view(rc, ops)->0.header is Some <==> rc.body is Some,
{
}

/// How many of the requests get an item.
pub open spec fn count_built(
    rs: Seq<RequestConfig>,
    ops: Map<Seq<char>, Map<Seq<char>, (Seq<char>, Seq<char>, Option<Seq<char>>)>>,
    scripts: Map<Seq<char>, Vec<String>>,
) -> nat
    decreases rs.len(),
{
    if rs.len() == 0 {
        0
    } else {
        count_built(rs.drop_last(), ops, scripts) + if item_view(rs.last(), ops, scripts) is Some {
            1nat
        } else {
            0nat
        }
    }
}

/// A folder's items are the items of its requests, in the overlay's order: there
/// is one per request that gets an item, and the item of request `i` comes right
/// after the items of the requests before it.
pub proof fn law_items_keep_request_order(
    rs: Seq<RequestConfig>,
    ops: Map<Seq<char>, Map<Seq<char>, (Seq<char>, Seq<char>, Option<Seq<char>>)>>,
    scripts: Map<Seq<char>, Vec<String>>,
    i: int,
)
    requires
        0 <= i < rs.len(),
        item_view(rs[i], ops, scripts) is Some,
    ensures
        present_items(rs, ops, scripts).len() == count_built(rs, ops, scripts),
        count_built(rs.take(i), ops, scripts) < present_items(rs, ops, scripts).len(),
        present_items(rs, ops, scripts)[count_built(rs.take(i), ops, scripts) as int] == item_view(
            rs[i],
            ops,
            scripts,
        )->0,
    decreases rs.len(),
{
    lemma_items_count(rs, ops, scripts);
    let prev = present_items(rs.drop_last(), ops, scripts);
    lemma_items_count(rs.drop_last(), ops, scripts);
    if i == rs.len() - 1 {
        assert(rs.take(i) =~= rs.drop_last());
    } else {
        assert(rs.drop_last()[i] == rs[i]);
        assert(rs.drop_last().take(i) =~= rs.take(i));
        law_items_keep_request_order(rs.drop_last(), ops, scripts, i);
        match item_view(rs.last(), ops, scripts) {
            Some(x) => assert(present_items(rs, ops, scripts) == prev.push(x)),
            None => {},
        }
    }
}

proof fn lemma_items_count(
    rs: Seq<RequestConfig>,
    ops: Map<Seq<char>, Map<Seq<char>, (Seq<char>, Seq<char>, Option<Seq<char>>)>>,
    scripts: Map<Seq<char>, Vec<String>>,
)
    ensures
        present_items(rs, ops, scripts).len() == count_built(rs, ops, scripts),
    decreases rs.len(),
{
    if rs.len() > 0 {
        lemma_items_count(rs.drop_last(), ops, scripts);
    }
}

/// An item carries its request's name and request (the custom request for a
/// custom entry, else the operation's request); its scripts are the named
/// pre-request script first, where the overlay has it, and the test script last,
/// where it has lines; an item with neither has no scripts. No item is built
/// exactly for a non-custom entry whose operation is not found.
pub proof fn law_item_is_the_requests(
    rc: RequestConfig,
    ops: Map<Seq<char>, Map<Seq<char>, (Seq<char>, Seq<char>, Option<Seq<char>>)>>,
    scripts: Map<Seq<char>, Vec<String>>,
)
    ensures
        item_view(rc, ops, scripts) is None <==> (rc.custom != Some(true) && !operation_found(rc, ops)),
        item_view(rc, ops, scripts) matches Some(it) ==> {
            let t = test_script_lines(rc.name@, opt_vec_view(rc.accept_status), opt_vec_view(rc.save), rc.expect_status);
            let has_pre = rc.prerequest matches Some(sn) && scripts.contains_key(sn@);
            &&& it.name == rc.name@
            &&& rc.custom == Some(true) ==> it.request == custom_request_view(rc)
            &&& rc.custom != Some(true) ==> Some(it.request) == openapi_request_view(rc, ops)
            &&& (!has_pre && t.len() == 0) <==> it.event is None
            &&& has_pre ==> (it.event matches Some(ev) && ev[0] == ("prerequest"@, texts(
                scripts[rc.prerequest->0@]@,
            )))
            &&& t.len() > 0 ==> (it.event matches Some(ev) && ev.last() == ("test"@, t))
        },
{
}

/// A collection has the overlay's name and description, the collection schema's
/// address, one string variable per overlay variable and one folder per overlay
/// folder, both in the overlay's order; each folder has its overlay folder's name,
/// description and authentication.
pub proof fn law_collection_is_the_overlays(
    overlay: Overlay,
    ops: Map<Seq<char>, Map<Seq<char>, (Seq<char>, Seq<char>, Option<Seq<char>>)>>,
    i: int,
    j: int,
)
    ensures
        collection_view(overlay, ops).name == overlay.info.name@,
        collection_view(overlay, ops).description == overlay.info.description@,
        collection_view(overlay, ops).schema
            == "https://schema.getpostman.com/json/collection/v2.1.0/collection.json"@,
        collection_view(overlay, ops).variable.len() == overlay.variables@.len(),
        collection_view(overlay, ops).item.len() == overlay.folders@.len(),
        0 <= i < overlay.variables@.len() ==> collection_view(overlay, ops).variable[i] == (
            overlay.variables@[i].0@,
            overlay.variables@[i].1@,
            "string"@,
        ),
        0 <= j < overlay.folders@.len() ==> {
            let f = collection_view(overlay, ops).item[j];
            let fc = overlay.folders@[j];
            &&& f.name == fc.name@
            &&& f.description == opt_text(fc.description)
            &&& f.auth == bearer_of(fc.auth)
            &&& f.item == present_items(fc.requests@, ops, scripts_map(overlay))
        },
{
}

/// A path with no placeholders stays as it is when parameters are put in.
pub proof fn law_replace_without_occurrence(s: Seq<char>, pat: Seq<char>, rep: Seq<char>)
    requires
        pat.len() > 0,
        forall|k: int| 0 <= k && k + pat.len() <= s.len() ==> #[trigger] s.subrange(k, k + pat.len()) != pat,
    ensures
        replaced(s, pat, rep) == s,
    decreases s.len(),
{
    if s.len() > 0 {
        let t = s.drop_first();
        assert forall|k: int| 0 <= k && k + pat.len() <= t.len() implies #[trigger] t.subrange(k, k + pat.len())
            != pat by {
            assert(t.subrange(k, k + pat.len()) =~= s.subrange(k + 1, k + 1 + pat.len()));
        }
        if pat.len() <= s.len() {
            assert(s.take(pat.len() as int) =~= s.subrange(0, pat.len() as int));
            let k: int = 0;
            assert(s.subrange(k, k + pat.len()) != pat);
            assert(s.subrange(k, k + pat.len()) =~= s.subrange(0, pat.len() as int));
            assert(s.take(pat.len() as int) != pat);
        }
        law_replace_without_occurrence(t, pat, rep);
        assert(replaced(s, pat, rep) == seq![s[0]] + replaced(t, pat, rep));
        assert(seq![s[0]] + t =~= s);
    }
}

/// A placeholder at the start of a text is replaced and the rest is treated the
/// same way: replacing in `pat + rest` gives `rep` followed by the replacement in
/// `rest`.
pub proof fn law_replace_leading_occurrence(rest: Seq<char>, pat: Seq<char>, rep: Seq<char>)
    requires
        pat.len() > 0,
    ensures
        replaced(pat + rest, pat, rep) == rep + replaced(rest, pat, rep),
{
    let s = pat + rest;
    assert(s.take(pat.len() as int) =~= pat);
    assert(s.skip(pat.len() as int) =~= rest);
}

/// The URL of an operation's request starts with the `{{base}}` variable
/// (`gateway_url` by default) followed by the path; without path parameters the
/// path is the operation's; with query parameters the URL text continues with `?`
/// and the `key=value` pairs joined by `&`, its host is the base, its path
/// segments joined by `/` are the path without leading slashes, and its query is
/// the overlay's.
pub proof fn law_operation_url_parts(rc: RequestConfig, op_path: Seq<char>)
    ensures
        ({
            let base = "{{"@ + or_text(rc.url_base, "gateway_url"@) + "}}"@;
            let path = substituted(op_path, opt_pairs(rc.path_params));
            &&& rc.path_params is None ==> path == op_path
            &&& rc.query_override is None ==> operation_url(rc, op_path) == UrlView::Raw(base + path)
            &&& rc.query_override matches Some(q) ==> (operation_url(rc, op_path) matches UrlView::Parts {
                raw,
                host,
                path: parts,
                query,
            } && raw == base + path + "?"@ + joined(query_texts(pairs(q@)), "&"@) && host == seq![base]
                && joined(parts, seq!['/']) == trimmed_start(path, '/') && query == pairs(q@))
        }),
{
    let path = substituted(op_path, opt_pairs(rc.path_params));
    law_split_join(trimmed_start(path, '/'), '/');
}

/// A body sent form-encoded is its members as fields, in order: each key with a
/// string member's content or any other member's JSON text; no fields for a body
/// that is not an object. Sent otherwise, it is its pretty JSON text.
pub proof fn law_body_forms(ct: Seq<char>, b: BodyConfig, k: int)
    ensures
        ct != "application/x-www-form-urlencoded"@ ==> body_view(ct, b) == BodyView::Raw(b.pretty@),
        ct == "application/x-www-form-urlencoded"@ ==> (body_view(ct, b) matches BodyView::Urlencoded(f) && {
            &&& b.members is None ==> f.len() == 0
            &&& b.members matches Some(ms) ==> f.len() == ms@.len() && (0 <= k < ms@.len() ==> f[k] == (
                ms@[k].0@,
                match ms@[k].1 {
                    Json::Str(s) => s@,
                    _ => ms@[k].2@,
                },
            ))
        }),
{
}

/// An operation's request content type prefers JSON: JSON where `requestBody.content`
/// has a JSON entry, else form encoding where it has one, else none.
pub proof fn law_body_content_type_prefers_json(details: Json, rb: Json, c: Json)
    requires
        json_get(details, "requestBody"@) == Some(rb),
        json_get(rb, "content"@) == Some(c),
    ensures
        json_members(c) matches Some(ms) && member_index(ms, "application/json"@) is Some ==> body_content_type(details)
            == Some("application/json"@),
        json_members(c) matches Some(ms) && member_index(ms, "application/json"@) is None && member_index(
            ms,
            "application/x-www-form-urlencoded"@,
        ) is Some ==> body_content_type(details) == Some("application/x-www-form-urlencoded"@),
        json_members(c) is None ==> body_content_type(details) is None,
{
}

} // verus!
