//! Scope checks: a requested scope list against the scopes a client may use,
//! and an authenticated caller's scopes against the one an endpoint requires.

use vstd::prelude::*;
use crate::errors::ServiceError;
use crate::jwt_auth::AuthenticatedUser;
use crate::text::{split_whitespace, words};
use crate::errors::concat_str;

verus! {

/// The first scope of `requested`, in order, that `allowed` does not list.
pub open spec fn first_disallowed(requested: Seq<Seq<char>>, allowed: Seq<Seq<char>>) -> Option<
    Seq<char>,
>
    decreases requested.len(),
{
    if requested.len() == 0 {
        None
    } else if allowed.contains(requested[0]) {
        first_disallowed(requested.drop_first(), allowed)
    } else {
        Some(requested[0])
    }
}

/// Every scope named in `requested` is named in `allowed` (both are
/// whitespace-separated lists).
pub open spec fn scopes_allowed(requested: Seq<char>, allowed: Seq<char>) -> bool {
    forall|i: int|
        0 <= i < words(requested).len() ==> words(allowed).contains(#[trigger] words(requested)[i])
}

/// The description given when a requested scope is not allowed.
pub open spec fn scope_not_allowed_text(scope: Seq<char>) -> Seq<char> {
    "Scope '"@ + scope + "' not allowed"@
}

/// What `validate_scopes` answers.
pub open spec fn validate_scopes_spec(requested: Seq<char>, allowed: Seq<char>) -> Result<
    (),
    Seq<char>,
> {
    match first_disallowed(words(requested), words(allowed)) {
        None => Ok(()),
        Some(t) => Err(scope_not_allowed_text(t)),
    }
}

/// No requested scope is disallowed exactly when every one is allowed.
pub proof fn lemma_first_disallowed_none(requested: Seq<Seq<char>>, allowed: Seq<Seq<char>>)
    ensures
        first_disallowed(requested, allowed) is None <==> (forall|i: int|
            0 <= i < requested.len() ==> allowed.contains(#[trigger] requested[i])),
        first_disallowed(requested, allowed) matches Some(t) ==> requested.contains(t)
            && !allowed.contains(t),
    decreases requested.len(),
{
    if requested.len() > 0 {
        let rest = requested.drop_first();
        lemma_first_disallowed_none(rest, allowed);
        if allowed.contains(requested[0]) {
            if forall|i: int| 0 <= i < rest.len() ==> allowed.contains(#[trigger] rest[i]) {
                assert forall|i: int| 0 <= i < requested.len() implies allowed.contains(
                    #[trigger] requested[i],
                ) by {
                    if i > 0 {
                        assert(requested[i] == rest[i - 1]);
                    }
                }
            } else {
                let k = choose|k: int| 0 <= k < rest.len() && !allowed.contains(#[trigger] rest[k]);
                assert(requested[k + 1] == rest[k]);
            }
            if first_disallowed(rest, allowed) is Some {
                let t = first_disallowed(rest, allowed)->Some_0;
                let k = choose|k: int| 0 <= k < rest.len() && rest[k] == t;
                assert(requested[k + 1] == t);
            }
        } else {
            assert(requested[0] == requested[0]);
        }
    }
}

/// `needle` is one of `haystack`.
pub fn contains_string(haystack: &Vec<String>, needle: &String) -> (b: bool)
    ensures
        b == exists|i: int| 0 <= i < haystack@.len() && #[trigger] haystack@[i]@ == needle@,
{
    let mut i: usize = 0;
    while i < haystack.len()
        invariant
            i <= haystack@.len(),
            forall|k: int| 0 <= k < i ==> #[trigger] haystack@[k]@ != needle@,
        decreases haystack@.len() - i,
    {
        if haystack[i] == *needle {
            return true;
        }
        i = i + 1;
    }
    false
}

/// Checks that every scope in `requested` is one the client may use
/// (`allowed`); otherwise names the first one that is not.
pub fn validate_scopes(requested: &str, allowed: &str) -> (r: Result<(), ServiceError>)
    ensures
        match validate_scopes_spec(requested@, allowed@) {
            Ok(_) => r is Ok,
            Err(text) => r matches Err(ServiceError::InvalidRequest(m)) && m@ == text,
        },
        r is Ok <==> scopes_allowed(requested@, allowed@),
{
    let allowed_set = split_whitespace(allowed);
    let req = split_whitespace(requested);
    let ghost rw = words(requested@);
    let ghost aw = words(allowed@);
    proof {
        assert(allowed_set@.len() == aw.len());
    }
    let mut i: usize = 0;
    assert(rw.skip(0) =~= rw);
    while i < req.len()
        invariant
            rw == words(requested@),
            aw == words(allowed@),
            req@.len() == rw.len(),
            forall|k: int| 0 <= k < req@.len() ==> #[trigger] req@[k]@ == rw[k],
            allowed_set@.len() == aw.len(),
            forall|k: int| 0 <= k < allowed_set@.len() ==> #[trigger] allowed_set@[k]@ == aw[k],
            i <= req@.len(),
            first_disallowed(rw, aw) == first_disallowed(rw.skip(i as int), aw),
        decreases req@.len() - i,
    {
        let ghost rest = rw.skip(i as int);
        assert(rest[0] == rw[i as int]);
        let found = contains_string(&allowed_set, &req[i]);
        if !found {
            proof {
                if aw.contains(rw[i as int]) {
                    let k = choose|k: int| 0 <= k < aw.len() && aw[k] == rw[i as int];
                    assert(allowed_set@[k]@ == req@[i as int]@);
                }
                assert(!aw.contains(rw[i as int]));
                assert(!aw.contains(rest[0]));
                assert(first_disallowed(rest, aw) == Some(rest[0]));
            }
            let msg = concat_str3("Scope '", req[i].as_str(), "' not allowed");
            proof {
                lemma_first_disallowed_none(rw, aw);
                assert(first_disallowed(rw, aw) == Some(rw[i as int]));
                assert(words(requested@)[i as int] == rw[i as int]);
                assert(!words(allowed@).contains(words(requested@)[i as int]));
                assert(!scopes_allowed(requested@, allowed@));
                assert(msg@ == scope_not_allowed_text(rw[i as int]));
            }
            return Err(ServiceError::InvalidRequest(msg));
        }
        proof {
            let k = choose|k: int| 0 <= k < allowed_set@.len() && #[trigger] allowed_set@[k]@ == req@[i as int]@;
            assert(aw[k] == rw[i as int]);
            assert(aw.contains(rw[i as int]));
            assert(rest.drop_first() =~= rw.skip(i + 1));
        }
        i = i + 1;
    }
    proof {
        assert(rw.skip(i as int).len() == 0);
        lemma_first_disallowed_none(rw, aw);
    }
    Ok(())
}

/// `a`, then `b`, then `c`, as a new string.
pub fn concat_str3(a: &str, b: &str, c: &str) -> (s: String)
    ensures
        s@ == a@ + b@ + c@,
{
    let mut s = String::from_str(a);
    s.append(b);
    s.append(c);
    s
}

/// The description given when a caller lacks the scope an endpoint requires.
pub open spec fn insufficient_scope_text(required: Seq<char>) -> Seq<char> {
    "Insufficient scope. Required: "@ + required
}

/// Checks that the authenticated caller holds the `required` scope.
pub fn require_scope(auth: &AuthenticatedUser, required: &str) -> (r: Result<(), ServiceError>)
    ensures
        r is Ok <==> exists|i: int|
            0 <= i < auth.scopes@.len() && #[trigger] auth.scopes@[i]@ == required@,
        r matches Err(e) ==> e matches ServiceError::Forbidden(m) && m@ == insufficient_scope_text(
            required@,
        ),
{
    let req = String::from_str(required);
    if contains_string(&auth.scopes, &req) {
        Ok(())
    } else {
        Err(ServiceError::Forbidden(concat_str("Insufficient scope. Required: ", required)))
    }
}

} // verus!
