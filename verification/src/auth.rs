//! User registration and credential checks.

use vstd::prelude::*;
use vstd::string::StringSliceAdditionalSpecFns;
use crate::crypto::{argon2_accepts, argon2_hash_password, argon2_verify_password, phc_string_parses};
use crate::errors::{concat_str, from_db_spec, DbError, ServiceError};
use crate::events::{first_at, lemma_first_at};
use crate::models::{AuthUser, NewAuthUser, RegisterRequest, RegisterResponse};

verus! {

/// Shortest accepted password, in characters.
pub const MIN_PASSWORD_CHARS: usize = 8;

/// An email address is well formed: it has an `@` with text before the first one
/// and after it.
pub open spec fn email_ok(email: Seq<char>) -> bool {
    first_at(email) matches Some(i) && 0 < i && i + 1 < email.len()
}

/// Whether `email` is well formed.
pub fn email_well_formed(email: &str) -> (b: bool)
    ensures
        b == email_ok(email@),
{
    let n = email.unicode_len();
    let mut i: usize = 0;
    while i < n && email.get_char(i) != '@'
        invariant
            n == email@.len(),
            i <= n,
            forall|k: int| 0 <= k < i ==> #[trigger] email@[k] != '@',
        decreases n - i,
    {
        i = i + 1;
    }
    proof {
        lemma_first_at(email@, i as int);
    }
    i < n && 0 < i && i + 1 < n
}

/// `password` logs in against the stored hash `phc`.
pub open spec fn password_ok(password: Seq<char>, phc: Seq<char>) -> bool {
    phc_string_parses(phc) && argon2_accepts(vstd::utf8::encode_utf8(password), phc)
}

/// User registration and login checks.
pub struct AuthService;

impl AuthService {
    /// Checks a registration and hashes its password. A malformed email is
    /// refused, then a password shorter than eight characters; the stored hash is a
    /// PHC string (it begins with `$`) that verifies the password.
    pub fn prepare_registration(req: &RegisterRequest) -> (r: Result<NewAuthUser, ServiceError>)
        ensures
            !email_ok(req.email@) ==> (r matches Err(ServiceError::InvalidRequest(m)) && m@
                == "Invalid email format"@),
            email_ok(req.email@) && req.password@.len() < 8 ==> (r matches Err(
                ServiceError::InvalidRequest(m),
            ) && m@ == "Password must be at least 8 characters"@),
            email_ok(req.email@) && 8 <= req.password@.len() && vstd::utf8::encode_utf8(req.password@).len()
                <= 0xFFFF_FFFF ==> r is Ok,
            r matches Ok(u) ==> u.email == req.email && password_ok(req.password@, u.password_hash@)
                && u.password_hash@.len() > 0 && u.password_hash@[0] == '$',
            r matches Err(e) ==> (e matches ServiceError::InvalidRequest(_)) || (e matches ServiceError::InternalError(
                _,
            )),
    {
        if !email_well_formed(req.email.as_str()) {
            return Err(ServiceError::InvalidRequest(String::from_str("Invalid email format")));
        }
        let pw = req.password.as_str();
        if pw.unicode_len() < MIN_PASSWORD_CHARS {
            return Err(
                ServiceError::InvalidRequest(String::from_str("Password must be at least 8 characters")),
            );
        }
        match argon2_hash_password(pw.as_bytes()) {
            Err(e) => Err(ServiceError::InternalError(concat_str("Hash error: ", e.as_str()))),
            Ok(hash) => Ok(NewAuthUser { email: req.email.clone(), password_hash: hash }),
        }
    }

    /// The registration answer once the user is stored: its id and email; an
    /// email already registered is a conflict, other storage errors map as usual.
    pub fn finish_registration(created: Result<AuthUser, DbError>) -> (r: Result<
        RegisterResponse,
        ServiceError,
    >)
        ensures
            match created {
                Ok(u) => r matches Ok(resp) && resp.id == u.id && resp.email == u.email,
                Err(DbError::UniqueViolation(_)) => r matches Err(ServiceError::Conflict(m)) && m@
                    == "Email already registered"@,
                Err(e) => r == Err::<RegisterResponse, ServiceError>(from_db_spec(e)),
            },
    {
        match created {
            Ok(u) => Ok(RegisterResponse { id: u.id, email: u.email }),
            Err(DbError::UniqueViolation(_)) => Err(
                ServiceError::Conflict(String::from_str("Email already registered")),
            ),
            Err(e) => Err(ServiceError::from(e)),
        }
    }

    /// Checks a login against the user looked up by email: an unknown email and a
    /// wrong password are both `Invalid credentials`; an unreadable stored hash is an
    /// internal error.
    pub fn verify_credentials(found: Result<AuthUser, DbError>, password: &str) -> (r: Result<
        AuthUser,
        ServiceError,
    >)
        ensures
            match found {
                Err(_) => r matches Err(ServiceError::Unauthorized(m)) && m@ == "Invalid credentials"@,
                Ok(u) => if !phc_string_parses(u.password_hash@) {
                    r matches Err(ServiceError::InternalError(m)) && m@.len() >= 18 && m@.take(18)
                        == "Hash parse error: "@
                } else if !argon2_accepts(vstd::utf8::encode_utf8(password@), u.password_hash@) {
                    r matches Err(ServiceError::Unauthorized(m)) && m@ == "Invalid credentials"@
                } else {
                    r == Ok::<AuthUser, ServiceError>(u)
                },
            },
    {
        let u = match found {
            Ok(u) => u,
            Err(_) => return Err(ServiceError::Unauthorized(String::from_str("Invalid credentials"))),
        };
        match argon2_verify_password(password.as_bytes(), u.password_hash.as_str()) {
            Err(e) => {
                let m = concat_str("Hash parse error: ", e.as_str());
                proof {
                    reveal_strlit("Hash parse error: ");
                    assert(m@.take(18) =~= "Hash parse error: "@);
                }
                Err(ServiceError::InternalError(m))
            },
            Ok(false) => Err(ServiceError::Unauthorized(String::from_str("Invalid credentials"))),
            Ok(true) => Ok(u),
        }
    }
}

} // verus!
