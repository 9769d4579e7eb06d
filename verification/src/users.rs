//! The user profile service's cache-aside policy: which cache keys a read
//! fills and which a write refreshes or drops.

use vstd::prelude::*;
use crate::errors::{concat_str, from_db_spec, DbError, ServiceError};
use crate::models::User;
use crate::text::{decimal_int, i32_to_string};

verus! {

/// Cache key of one user's profile.
pub open spec fn user_key(id: i32) -> Seq<char> {
    "user:"@ + decimal_int(id as int)
}

/// Cache key of the list of all users.
pub open spec fn users_list_key() -> Seq<char> {
    "users:list"@
}

/// Cache key of one user's profile: `user:<id>`.
pub fn user_cache_key(id: i32) -> (k: String)
    ensures
        k@ == user_key(id),
{
    let n = i32_to_string(id);
    concat_str("user:", n.as_str())
}

/// Cache key of the list of all users: `users:list`.
pub fn users_list_cache_key() -> (k: String)
    ensures
        k@ == users_list_key(),
{
    String::from_str("users:list")
}

/// The cache writes that follow a read or a write: store the value just read or
/// written under `set_key`, and drop the `invalidate` keys.
pub struct CachePlan {
    pub set_key: Option<String>,
    pub invalidate: Vec<String>,
}

/// A model of the cache: keys to the values stored under them.
pub open spec fn apply_plan<V>(cache: Map<Seq<char>, V>, plan: CachePlan, value: V) -> Map<
    Seq<char>,
    V,
> {
    let after_set = match plan.set_key {
        Some(k) => cache.insert(k@, value),
        None => cache,
    };
    after_set.remove_keys(Set::new(|k: Seq<char>| exists|i: int| 0 <= i < plan.invalidate@.len() && #[trigger] plan.invalidate@[i]@ == k))
}

/// The plan stores the value under `key`.
pub open spec fn sets_key(plan: CachePlan, key: Seq<char>) -> bool {
    plan.set_key matches Some(k) && k@ == key
}

/// The cache-aside rules of the user service.
pub struct UserService;

impl UserService {
    /// After a user is created: answer it, cache it under its key and drop the
    /// cached list. An email already taken is a conflict (409), with nothing cached.
    pub fn after_create(created: Result<User, DbError>) -> (r: Result<(User, CachePlan), ServiceError>)
        ensures
            match created {
                Ok(u) => r matches Ok((v, plan)) && v == u && sets_key(plan, user_key(u.id)) && plan.invalidate@.len() == 1 && plan.invalidate@[0]@ == users_list_key(),
                Err(DbError::UniqueViolation(_)) => r matches Err(ServiceError::Conflict(m)) && m@
                    == "Email already exists"@,
                Err(e) => r == Err::<(User, CachePlan), ServiceError>(from_db_spec(e)),
            },
    {
        match created {
            Ok(u) => {
                let key = user_cache_key(u.id);
                let mut inv: Vec<String> = Vec::new();
                inv.push(users_list_cache_key());
                Ok((u, CachePlan { set_key: Some(key), invalidate: inv }))
            },
            Err(DbError::UniqueViolation(_)) => Err(
                ServiceError::Conflict(String::from_str("Email already exists")),
            ),
            Err(e) => Err(ServiceError::from(e)),
        }
    }

    /// After a user is looked up on a cache miss: answer it and cache it under its key.
    pub fn after_user_lookup(id: i32, found: Result<User, DbError>) -> (r: Result<
        (User, CachePlan),
        ServiceError,
    >)
        ensures
            match found {
                Ok(u) => r matches Ok((v, plan)) && v == u && sets_key(plan, user_key(id))
                    && plan.invalidate@.len() == 0,
                Err(e) => r == Err::<(User, CachePlan), ServiceError>(from_db_spec(e)),
            },
    {
        match found {
            Ok(u) => Ok((u, CachePlan { set_key: Some(user_cache_key(id)), invalidate: Vec::new() })),
            Err(e) => Err(ServiceError::from(e)),
        }
    }

    /// After the user list is read on a cache miss: answer it and cache it.
    pub fn after_list_lookup(found: Result<Vec<User>, DbError>) -> (r: Result<
        (Vec<User>, CachePlan),
        ServiceError,
    >)
        ensures
            match found {
                Ok(us) => r matches Ok((v, plan)) && v == us && sets_key(plan, users_list_key()) && plan.invalidate@.len() == 0,
                Err(e) => r == Err::<(Vec<User>, CachePlan), ServiceError>(from_db_spec(e)),
            },
    {
        match found {
            Ok(us) => Ok((us, CachePlan { set_key: Some(users_list_cache_key()), invalidate: Vec::new() })),
            Err(e) => Err(ServiceError::from(e)),
        }
    }

    /// After user `id` is updated: answer the new profile, cache it under the
    /// user's key and drop the cached list.
    pub fn after_update(id: i32, updated: Result<User, DbError>) -> (r: Result<
        (User, CachePlan),
        ServiceError,
    >)
        ensures
            match updated {
                Ok(u) => r matches Ok((v, plan)) && v == u && sets_key(plan, user_key(id))
                    && plan.invalidate@.len() == 1 && plan.invalidate@[0]@ == users_list_key(),
                Err(e) => r == Err::<(User, CachePlan), ServiceError>(from_db_spec(e)),
            },
    {
        match updated {
            Ok(u) => {
                let mut inv: Vec<String> = Vec::new();
                inv.push(users_list_cache_key());
                Ok((u, CachePlan { set_key: Some(user_cache_key(id)), invalidate: inv }))
            },
            Err(e) => Err(ServiceError::from(e)),
        }
    }

    /// After user `id` is deleted (`deleted` rows): no row means the user was not
    /// found; otherwise drop the user's cached profile and the cached list.
    pub fn after_delete(id: i32, deleted: Result<u64, DbError>) -> (r: Result<CachePlan, ServiceError>)
        ensures
            match deleted {
                Ok(0) => r == Err::<CachePlan, ServiceError>(ServiceError::NotFound),
                Ok(_) => r matches Ok(plan) && plan.set_key is None && plan.invalidate@.len() == 2
                    && plan.invalidate@[0]@ == user_key(id) && plan.invalidate@[1]@ == users_list_key(),
                Err(e) => r == Err::<CachePlan, ServiceError>(from_db_spec(e)),
            },
    {
        match deleted {
            Ok(n) => {
                if n == 0 {
                    return Err(ServiceError::NotFound);
                }
                let mut inv: Vec<String> = Vec::new();
                inv.push(user_cache_key(id));
                inv.push(users_list_cache_key());
                Ok(CachePlan { set_key: None, invalidate: inv })
            },
            Err(e) => Err(ServiceError::from(e)),
        }
    }
}

} // verus!
