use auth_core::auth::{
    generate_signing_key, hash_password, issue_token, verify_credentials, verify_token,
};
use auth_core::models::{validate_create_user, validate_user_login, CreateUser, UserClaims, UserLogin};
use auth_core::users::{classify_db_error, DbError, UsersError};

#[test]
fn hash_then_verify_accepts_the_same_plaintext() {
    let hash = hash_password("hunter2!").expect("hashing must succeed");
    assert_ne!(hash, "hunter2!".to_string());
    assert!(verify_credentials("hunter2!", &hash).is_ok());
}

#[test]
fn hash_of_another_plaintext_is_rejected() {
    let hash = hash_password("some other password").expect("hashing must succeed");
    assert_eq!(
        verify_credentials("hunter2!", &hash),
        Err(UsersError::InvalidCredentials)
    );
}

#[test]
fn malformed_stored_hash_is_a_hashing_fault_not_bad_credentials() {
    assert_eq!(
        verify_credentials("hunter2!", "not a hash string"),
        Err(UsersError::Argon2)
    );
}

#[test]
fn issue_then_verify_returns_the_claims_unchanged() {
    let key = generate_signing_key();
    let claims = UserClaims { id: "5f2b9a04-6c2e-4b7e-9f1d-2a8c64d5e701".to_string() };
    let token = issue_token(&key, &claims).expect("issuing must succeed");
    let back = verify_token(&key, &token).expect("a fresh token must verify");
    assert_eq!(back, claims);
}

#[test]
fn a_flipped_signature_character_makes_the_token_invalid() {
    let key = generate_signing_key();
    let claims = UserClaims { id: "user-123".to_string() };
    let token = issue_token(&key, &claims).expect("issuing must succeed");
    let sig_start = token.rfind('.').expect("a compact token has a signature part") + 1;
    let mut bytes = token.into_bytes();
    let last = *bytes.last().expect("token is not empty");
    assert!(sig_start < bytes.len());
    let flipped = if last == b'A' { b'B' } else { b'A' };
    let n = bytes.len();
    bytes[n - 1] = flipped;
    let tampered = String::from_utf8(bytes).expect("still valid text");
    assert_eq!(verify_token(&key, &tampered), Err(UsersError::TokenInvalid));
}

#[test]
fn a_very_long_subject_still_round_trips() {
    let key = generate_signing_key();
    let claims = UserClaims { id: "a".repeat(1_200_000) };
    let token = issue_token(&key, &claims).expect("issuing must succeed");
    assert!(token.len() > 1_000_000);
    let back = verify_token(&key, &token).expect("a fresh token must verify");
    assert_eq!(back, claims);
}

#[test]
fn a_key_below_the_weak_key_gate_cannot_sign() {
    let weak = auth_core::auth::SigningKey { bytes: vec![1, 2, 3] };
    let claims = UserClaims { id: "user-123".to_string() };
    assert_eq!(
        issue_token(&weak, &claims),
        Err(UsersError::InternalServerError)
    );
}

#[test]
fn a_token_does_not_verify_under_another_key() {
    let key = generate_signing_key();
    let other = generate_signing_key();
    let claims = UserClaims { id: "user-123".to_string() };
    let token = issue_token(&key, &claims).expect("issuing must succeed");
    assert_eq!(verify_token(&other, &token), Err(UsersError::TokenInvalid));
}

#[test]
fn register_then_duplicate_email_conflicts() {
    // Registration: validate, hash, then a first insert that succeeds.
    let payload = CreateUser {
        username: "ann".to_string(),
        email: "ann@x.com".to_string(),
        password: "hunter2!".to_string(),
    };
    let validated = validate_create_user(payload).expect("the payload is valid");
    let stored_hash = hash_password(&validated.password).expect("hashing must succeed");
    assert!(verify_credentials(&validated.password, &stored_hash).is_ok());

    // A second registration with the same email and a different username:
    // the store reports the violated email-uniqueness constraint.
    let second = CreateUser {
        username: "ben".to_string(),
        email: "ann@x.com".to_string(),
        password: "hunter2!".to_string(),
    };
    validate_create_user(second).expect("the second payload is valid too");
    let cause = classify_db_error(DbError::UniqueViolation(Some("users_email_key".to_string())));
    let (status, body) = cause.into_response();
    assert_eq!(status, 409);
    assert_eq!(body.errors, vec!["user with the same email already exists".to_string()]);
}

#[test]
fn login_with_wrong_password_is_unauthorized() {
    let stored_hash = hash_password("hunter2!").expect("hashing must succeed");
    let login = UserLogin { username: "ann".to_string(), password: "wrong-password".to_string() };
    let validated = validate_user_login(login).expect("the login payload is valid");
    let err = verify_credentials(&validated.password, &stored_hash)
        .expect_err("a wrong password must be rejected");
    assert_eq!(err, UsersError::InvalidCredentials);
    let (status, body) = err.into_response();
    assert_eq!(status, 401);
    assert_eq!(body.errors, vec!["invalid credentials".to_string()]);
}
