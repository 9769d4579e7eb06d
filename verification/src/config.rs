//! Service settings read from the environment: the token settings of the
//! authentication service and the database pool settings of both services.

use vstd::prelude::*;
use crate::text::{integer_text_value, parse_i64, parse_u32};

verus! {

/// Settings of the authentication service.
pub struct AppConfig {
    pub jwt_secret: String,
    pub access_token_ttl_secs: i64,
    pub refresh_token_ttl_days: i64,
}

/// The `i64` a setting's text gives, or `default` when the setting is absent;
/// `None` when the text is not an `i64`.
pub open spec fn i64_setting(text: Option<Seq<char>>, default: i64) -> Option<i64> {
    match text {
        None => Some(default),
        Some(t) => match integer_text_value(t, true) {
            Some(v) => if i64::MIN <= v <= i64::MAX {
                Some(v as i64)
            } else {
                None
            },
            None => None,
        },
    }
}

/// The `u32` a setting's text gives, or `default` when the setting is absent;
/// `None` when the text is not a `u32`.
pub open spec fn u32_setting(text: Option<Seq<char>>, default: u32) -> Option<u32> {
    match text {
        None => Some(default),
        Some(t) => match integer_text_value(t, false) {
            Some(v) => if 0 <= v <= u32::MAX {
                Some(v as u32)
            } else {
                None
            },
            None => None,
        },
    }
}

/// The text of an optional string slice.
pub open spec fn opt_seq(o: Option<&str>) -> Option<Seq<char>> {
    match o {
        Some(s) => Some(s@),
        None => None,
    }
}

fn setting_i64(text: Option<&str>, default: i64) -> (r: Option<i64>)
    ensures
        r == i64_setting(opt_seq(text), default),
{
    match text {
        None => Some(default),
        Some(t) => parse_i64(t),
    }
}

fn setting_u32(text: Option<&str>, default: u32) -> (r: Option<u32>)
    ensures
        r == u32_setting(opt_seq(text), default),
{
    match text {
        None => Some(default),
        Some(t) => parse_u32(t),
    }
}

impl AppConfig {
    /// Builds the settings from the values of `JWT_SECRET`, `ACCESS_TOKEN_TTL_SECS`
    /// (default 300) and `REFRESH_TOKEN_TTL_DAYS` (default 7); the error names the
    /// first setting that is missing or not a number.
    pub fn from_env_values(
        jwt_secret: Option<&str>,
        access_token_ttl_secs: Option<&str>,
        refresh_token_ttl_days: Option<&str>,
    ) -> (r: Result<AppConfig, String>)
        ensures
            jwt_secret is None ==> (r matches Err(m) && m@ == "JWT_SECRET must be set"@),
            jwt_secret is Some && i64_setting(opt_seq(access_token_ttl_secs), 300) is None ==> (r matches Err(m)
                && m@ == "ACCESS_TOKEN_TTL_SECS must be a number"@),
            jwt_secret is Some && i64_setting(opt_seq(access_token_ttl_secs), 300) is Some && i64_setting(
                opt_seq(refresh_token_ttl_days),
                7,
            ) is None ==> (r matches Err(m) && m@ == "REFRESH_TOKEN_TTL_DAYS must be a number"@),
            r matches Ok(c) ==> jwt_secret is Some && c.jwt_secret@ == jwt_secret->Some_0@ && Some(
                c.access_token_ttl_secs,
            ) == i64_setting(opt_seq(access_token_ttl_secs), 300) && Some(c.refresh_token_ttl_days)
                == i64_setting(opt_seq(refresh_token_ttl_days), 7),
            jwt_secret is Some && i64_setting(opt_seq(access_token_ttl_secs), 300) is Some && i64_setting(
                opt_seq(refresh_token_ttl_days),
                7,
            ) is Some ==> r is Ok,
    {
        let secret = match jwt_secret {
            Some(s) => String::from_str(s),
            None => return Err(String::from_str("JWT_SECRET must be set")),
        };
        let access = match setting_i64(access_token_ttl_secs, 300) {
            Some(v) => v,
            None => return Err(String::from_str("ACCESS_TOKEN_TTL_SECS must be a number")),
        };
        let refresh = match setting_i64(refresh_token_ttl_days, 7) {
            Some(v) => v,
            None => return Err(String::from_str("REFRESH_TOKEN_TTL_DAYS must be a number")),
        };
        Ok(
            AppConfig {
                jwt_secret: secret,
                access_token_ttl_secs: access,
                refresh_token_ttl_days: refresh,
            },
        )
    }
}

/// Where the database pools connect and how many connections each may hold.
pub struct PoolSettings {
    pub write_url: String,
    pub read_url: String,
    pub max_size: u32,
}

impl PoolSettings {
    /// Builds the settings from `DATABASE_URL` (required), `DATABASE_READ_URL`
    /// (defaults to the write URL) and `DB_POOL_MAX_SIZE` (default 10).
    pub fn from_env_values(
        write_url: Option<&str>,
        read_url: Option<&str>,
        max_size: Option<&str>,
    ) -> (r: Result<PoolSettings, String>)
        ensures
            write_url is None ==> (r matches Err(m) && m@ == "DATABASE_URL must be set"@),
            write_url is Some && u32_setting(opt_seq(max_size), 10) is None ==> (r matches Err(m) && m@
                == "DB_POOL_MAX_SIZE must be a valid u32"@),
            write_url is Some && u32_setting(opt_seq(max_size), 10) is Some ==> (r matches Ok(p)
                && p.write_url@ == write_url->Some_0@ && p.read_url@ == (match read_url {
                Some(u) => u@,
                None => write_url->Some_0@,
            }) && Some(p.max_size) == u32_setting(opt_seq(max_size), 10)),
    {
        let w = match write_url {
            Some(u) => String::from_str(u),
            None => return Err(String::from_str("DATABASE_URL must be set")),
        };
        let r = match read_url {
            Some(u) => String::from_str(u),
            None => String::from_str(w.as_str()),
        };
        let m = match setting_u32(max_size, 10) {
            Some(v) => v,
            None => return Err(String::from_str("DB_POOL_MAX_SIZE must be a valid u32")),
        };
        Ok(PoolSettings { write_url: w, read_url: r, max_size: m })
    }

    /// The roles reported for the write and read pools: `same` for both when they
    /// share a URL, else `master` and `replica`.
    pub fn roles(&self) -> (r: (&'static str, &'static str))
        ensures
            self.write_url@ == self.read_url@ ==> r.0@ == "same"@ && r.1@ == "same"@,
            self.write_url@ != self.read_url@ ==> r.0@ == "master"@ && r.1@ == "replica"@,
    {
        if self.write_url == self.read_url {
            ("same", "same")
        } else {
            ("master", "replica")
        }
    }
}

} // verus!
