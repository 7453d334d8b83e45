//! Credential hashing and the stateless session-token service.
//!
//! Hashing wraps a memory-hard password hash whose output string embeds its
//! own algorithm parameters and salt. Tokens are compact signed strings
//! carrying the user's identity as their subject; the process-wide signing
//! key is an explicit value handed in by the caller, so validity is a
//! function of the key and the token alone.
use vstd::prelude::*;

use crate::models::UserClaims;
use crate::users::UsersError;

verus! {

/// What checking `plaintext` against the stored hash string `hash` yields:
/// `None` when `hash` cannot be parsed as a hash string (or the check itself
/// fails internally), `Some(b)` when it can, with `b` the verification
/// outcome; a parseable hash string that carries no hash output verifies
/// false. The hash string embeds its salt and parameters, so the outcome
/// depends on the two arguments alone.
pub uninterp spec fn password_verifies(plaintext: Seq<char>, hash: Seq<char>) -> Option<bool>;

/// Relies on argon2's `PasswordHasher::hash_password` with a fresh random
/// salt: the returned PHC string embeds algorithm, version, parameters and
/// salt, and `PasswordVerifier::verify_password` accepts the hashed
/// plaintext against it. Hashing only rejects a password longer than its
/// byte-length bound; below a quarter of that bound any character count
/// fits, so hashing succeeds (salt generation does not return an error).
#[verifier::external_body]
fn argon2_hash(plaintext: &str) -> (r: Result<String, ()>)
    ensures
        r matches Ok(h) ==> password_verifies(plaintext@, h@) == Some(true),
        plaintext@.len() <= 0x3FFF_FFFF ==> r is Ok,
{
    let salt = argon2::password_hash::SaltString::generate(
        &mut argon2::password_hash::rand_core::OsRng,
    );
    match argon2::PasswordHasher::hash_password(
        &argon2::Argon2::default(),
        plaintext.as_bytes(),
        &salt,
    ) {
        Ok(h) => Ok(h.to_string()),
        Err(_) => Err(()),
    }
}

/// Relies on argon2's `PasswordHash::new` and
/// `PasswordVerifier::verify_password`: parsing the hash string and
/// recomputing the hash under its embedded salt and parameters are
/// deterministic in the two arguments, a mismatch is reported as
/// `Error::Password`, and any other failure means the hash string could not
/// be used.
#[verifier::external_body]
fn argon2_verify(plaintext: &str, hash: &str) -> (r: Option<bool>)
    ensures
        r == password_verifies(plaintext@, hash@),
{
    match argon2::password_hash::PasswordHash::new(hash) {
        Ok(parsed) => match argon2::PasswordVerifier::verify_password(
            &argon2::Argon2::default(),
            plaintext.as_bytes(),
            &parsed,
        ) {
            Ok(()) => Some(true),
            Err(argon2::password_hash::Error::Password) => Some(false),
            Err(_) => None,
        },
        Err(_) => None,
    }
}

/// Hashes a plaintext password into a self-describing hash string.
///
/// Every hash this returns is accepted for the plaintext it was produced
/// from, and every plaintext of ordinary length hashes successfully.
/// Failure means an internal hashing fault, never anything about the
/// plaintext.
pub fn hash_password(plaintext: &str) -> (r: Result<String, UsersError>)
    ensures
        r matches Ok(h) ==> password_verifies(plaintext@, h@) == Some(true),
        plaintext@.len() <= 0x3FFF_FFFF ==> r is Ok,
        r matches Err(e) ==> e is Argon2,
{
    match argon2_hash(plaintext) {
        Ok(h) => Ok(h),
        Err(_) => Err(UsersError::Argon2),
    }
}

/// Checks a plaintext password against a stored hash string.
///
/// Succeeds exactly when the hash accepts the plaintext; a wrong password is
/// `InvalidCredentials`, while a hash string that cannot be used at all is a
/// hashing fault — never to be confused with a credential failure.
pub fn verify_credentials(plaintext: &str, stored_hash: &str) -> (r: Result<(), UsersError>)
    ensures
        r is Ok <==> password_verifies(plaintext@, stored_hash@) == Some(true),
        password_verifies(plaintext@, stored_hash@) == Some(false) ==> (r matches Err(e)
            && e is InvalidCredentials),
        password_verifies(plaintext@, stored_hash@) is None ==> (r matches Err(e)
            && e is Argon2),
{
    match argon2_verify(plaintext, stored_hash) {
        Some(true) => Ok(()),
        Some(false) => Err(UsersError::InvalidCredentials),
        None => Err(UsersError::Argon2),
    }
}

/// The process-wide token-signing key, as its raw bytes. Constructed once at
/// startup and passed in read-only wherever tokens are issued or checked;
/// rotating it invalidates every previously issued token.
#[derive(Debug, Clone)]
pub struct SigningKey {
    pub bytes: Vec<u8>,
}

/// What decoding `token` under the key bytes `key` yields, checking the
/// signature but pinned to a fixed verification time: the token's subject
/// when the signature and format check out and a subject is present, `None`
/// otherwise. With time pinned, the outcome depends on the two arguments
/// alone.
pub uninterp spec fn token_subject(key: Seq<u8>, token: Seq<char>) -> Option<Seq<char>>;

/// Relies on jwt_simple's `HS256Key::generate`: a fresh 32-byte random key.
#[verifier::external_body]
pub fn generate_signing_key() -> (r: SigningKey)
    ensures
        r.bytes@.len() == 32,
{
    SigningKey { bytes: jwt_simple::algorithms::HS256Key::generate().to_bytes() }
}

/// Relies on jwt_simple's `MACLike::authenticate` for `HS256Key`: the token
/// it returns carries the given subject, an issued-at stamp and no expiry,
/// and `MACLike::verify_token` under the same key — as the decode wrapper
/// below calls it, with no token-length cap — recovers that subject,
/// whatever the subject's length. Signing fails only at the weak-key gate
/// (a key shorter than 12 bytes); for any longer key, these claims
/// serialize and sign without failure.
#[verifier::external_body]
fn hs256_sign_subject(key: &SigningKey, subject: &str) -> (r: Result<String, ()>)
    ensures
        r matches Ok(t) ==> token_subject(key.bytes@, t@) == Some(subject@),
        key.bytes@.len() >= 12 ==> r is Ok,
{
    let k = jwt_simple::algorithms::HS256Key::from_bytes(key.bytes.as_slice());
    let mut claims = jwt_simple::claims::Claims::create(jwt_simple::prelude::Duration::from_secs(
        0,
    ));
    claims.expires_at = None;
    claims.invalid_before = None;
    claims.subject = Some(subject.to_string());
    jwt_simple::prelude::MACLike::authenticate(&k, claims).map_err(|_| ())
}

/// Relies on jwt_simple's `MACLike::verify_token` for `HS256Key`, with the
/// verification time pinned, future stamps accepted and the token-length
/// cap lifted (so that every token the sign wrapper produces is accepted),
/// making the outcome a function of the key and token alone: the token's
/// subject when the signature and format check out, `None` otherwise.
#[verifier::external_body]
fn hs256_decode_subject(key: &SigningKey, token: &str) -> (r: Option<String>)
    ensures
        r matches Some(s) ==> token_subject(key.bytes@, token@) == Some(s@),
        r is None ==> token_subject(key.bytes@, token@) is None,
{
    let k = jwt_simple::algorithms::HS256Key::from_bytes(key.bytes.as_slice());
    let mut options = jwt_simple::common::VerificationOptions::default();
    options.artificial_time = Some(jwt_simple::prelude::UnixTimeStamp::from_secs(0));
    options.accept_future = true;
    options.max_token_length = None;
    match jwt_simple::prelude::MACLike::verify_token::<jwt_simple::claims::NoCustomClaims>(
        &k,
        token,
        Some(options),
    ) {
        Ok(claims) => claims.subject,
        Err(_) => None,
    }
}

/// Signs the given claims into a session token under `key`.
///
/// Every token this returns decodes, under the same key, back to exactly the
/// claims it was issued for, and issuing succeeds under every key of twelve
/// or more bytes — every generated key included. Failure means a signing
/// fault, surfaced as an internal error.
pub fn issue_token(key: &SigningKey, claims: &UserClaims) -> (r: Result<String, UsersError>)
    ensures
        r matches Ok(t) ==> token_subject(key.bytes@, t@) == Some(claims.id@),
        key.bytes@.len() >= 12 ==> r is Ok,
        r matches Err(e) ==> e is InternalServerError,
{
    match hs256_sign_subject(key, claims.id.as_str()) {
        Ok(t) => Ok(t),
        Err(_) => Err(UsersError::InternalServerError),
    }
}

/// Checks a presented token under `key` and recovers the claims it carries.
///
/// Accepts exactly the tokens that decode to a subject under `key`; a bad
/// signature, a malformed token and a missing subject all collapse into the
/// one `TokenInvalid` cause, so the caller learns nothing about which check
/// failed.
pub fn verify_token(key: &SigningKey, token: &str) -> (r: Result<UserClaims, UsersError>)
    ensures
        r is Ok <==> token_subject(key.bytes@, token@) is Some,
        r matches Ok(c) ==> token_subject(key.bytes@, token@) == Some(c.id@),
        r matches Err(e) ==> e is TokenInvalid,
{
    match hs256_decode_subject(key, token) {
        Some(s) => Ok(UserClaims { id: s }),
        None => Err(UsersError::TokenInvalid),
    }
}

/// Law: hashing then verifying accepts the hashed plaintext. `hash_password`
/// ensures of every hash it returns that `password_verifies` accepts the
/// hashing plaintext against it; this lemma states that any such pair is one
/// `verify_credentials` answers with success, and never with a credential or
/// hashing failure.
pub proof fn lemma_hash_verify_round_trip(plaintext: Seq<char>, hash: Seq<char>)
    requires
        password_verifies(plaintext, hash) == Some(true),
    ensures
        password_verifies(plaintext, hash) is Some,
        password_verifies(plaintext, hash)->0,
{
}

/// Law: issuing then verifying is the identity on claims. `issue_token`
/// ensures of every token it returns that the token's decoded subject under
/// the issuing key is the issued identity; this lemma states that any such
/// token is one `verify_token` accepts, and that the claims it yields carry
/// that identity back unchanged.
pub proof fn lemma_issue_verify_round_trip(key: Seq<u8>, token: Seq<char>, id: Seq<char>)
    requires
        token_subject(key, token) == Some(id),
    ensures
        token_subject(key, token) is Some,
        token_subject(key, token)->0 == id,
{
}

} // verus!
