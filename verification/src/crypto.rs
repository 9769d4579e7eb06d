//! Calls into the hashing, encoding and randomness crates, and the PKCE
//! code challenge built from them.

use vstd::prelude::*;

verus! {

/// The SHA-256 digest of `data`.
pub uninterp spec fn sha256_digest(data: Seq<u8>) -> Seq<u8>;

/// The unpadded URL-safe Base64 text (RFC 4648 §5, no `=`) of `data`.
pub uninterp spec fn base64_url_no_pad(data: Seq<u8>) -> Seq<char>;

/// `PasswordHash::new` accepts `phc` as a PHC-format password hash string.
pub uninterp spec fn phc_string_parses(phc: Seq<char>) -> bool;

/// `Argon2::default().verify_password(password, &PasswordHash::new(phc))` succeeds.
pub uninterp spec fn argon2_accepts(password: Seq<u8>, phc: Seq<char>) -> bool;

/// SHA-256 of `data` (`sha2::Sha256::digest`). Claimed: the digest is the one
/// `sha256_digest` names, and it is 32 bytes long.
#[verifier::external_body]
pub(crate) fn sha256(data: &[u8]) -> (r: Vec<u8>)
    ensures
        r@ == sha256_digest(data@),
        r@.len() == 32,
{
    <sha2::Sha256 as sha2::Digest>::digest(data).to_vec()
}

/// Unpadded URL-safe Base64 of `data` (`base64` crate, `URL_SAFE_NO_PAD.encode`).
/// Claimed: the text is the one `base64_url_no_pad` names.
#[verifier::external_body]
pub(crate) fn base64_url_encode(data: &[u8]) -> (r: String)
    ensures
        r@ == base64_url_no_pad(data@),
{
    base64::Engine::encode(&base64::engine::general_purpose::URL_SAFE_NO_PAD, data)
}

/// 32 bytes from the thread-local generator (`rand::Rng::fill` on
/// `rand::thread_rng()`). Claimed: only the length; the bytes are chance.
#[verifier::external_body]
pub(crate) fn random_bytes_32() -> (r: Vec<u8>)
    ensures
        r@.len() == 32,
{
    let mut b = [0u8; 32];
    rand::Rng::fill(&mut rand::thread_rng(), &mut b[..]);
    b.to_vec()
}

/// Hashes `password` with Argon2 (default parameters) under a fresh random salt
/// (`SaltString::generate(&mut OsRng)`, `Argon2::default().hash_password`), giving the
/// PHC string, or the error's text. Claimed: hashing succeeds for every password of at
/// most `u32::MAX` bytes (argon2's only input check that can fail here), and the PHC
/// string it gives (written by `PasswordHash`'s `Display`, which begins with the `$`
/// separator) parses and verifies `password` (verification re-hashes with the salt
/// and parameters the string records). Which salt is drawn is chance, so the string
/// itself is not named; the OS random source panicking is not ruled out.
#[verifier::external_body]
pub(crate) fn argon2_hash_password(password: &[u8]) -> (r: Result<String, String>)
    ensures
        password@.len() <= 0xFFFF_FFFF ==> r is Ok,
        r matches Ok(h) ==> phc_string_parses(h@) && argon2_accepts(password@, h@) && h@.len() > 0
            && h@[0] == '$',
{
    let salt = argon2::password_hash::SaltString::generate(&mut rand::rngs::OsRng);
    match argon2::PasswordHasher::hash_password(&argon2::Argon2::default(), password, &salt) {
        Ok(h) => Ok(h.to_string()),
        Err(e) => Err(e.to_string()),
    }
}

/// Checks `password` against a stored PHC string: parses it (`PasswordHash::new`,
/// error text on failure) and verifies (`Argon2::default().verify_password`).
/// Claimed: `Ok` exactly when the string parses, and then whether verification
/// succeeded; the error text is the crate's and is not stated.
#[verifier::external_body]
pub(crate) fn argon2_verify_password(password: &[u8], phc: &str) -> (r: Result<bool, String>)
    ensures
        r is Ok <==> phc_string_parses(phc@),
        r matches Ok(b) ==> b == argon2_accepts(password@, phc@),
{
    match argon2::password_hash::PasswordHash::new(phc) {
        Err(e) => Err(e.to_string()),
        Ok(h) => Ok(
            argon2::PasswordVerifier::verify_password(&argon2::Argon2::default(), password, &h).is_ok(),
        ),
    }
}

/// The PKCE (`S256`) code challenge of a code verifier: unpadded URL-safe Base64 of
/// the SHA-256 of its UTF-8 bytes.
pub open spec fn pkce_s256(verifier: Seq<char>) -> Seq<char> {
    base64_url_no_pad(sha256_digest(vstd::utf8::encode_utf8(verifier)))
}

/// Computes the `S256` code challenge of a PKCE code verifier.
pub fn pkce_challenge(verifier: &str) -> (c: String)
    ensures
        c@ == pkce_s256(verifier@),
{
    let digest = sha256(verifier.as_bytes());
    base64_url_encode(digest.as_slice())
}

} // verus!
