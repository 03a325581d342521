use builder_id_auth::error::AuthError;
use builder_id_auth::pkce::ChallengeMethod;
use builder_id_auth::pkce::PkceCodes;
use builder_id_auth::pkce::bytes_eq;
use builder_id_auth::pkce::compute_challenge;
use builder_id_auth::poller::poll_request;
use builder_id_auth::registrar::ClientRegistration;

fn registration() -> ClientRegistration {
    ClientRegistration {
        client_id: b"client-id".to_vec(),
        client_secret: b"client-secret".to_vec(),
        expires_at_epoch_s: 2_000_000_000,
    }
}

#[test]
fn generated_verifier_is_valid_pkce_text() {
    let codes = PkceCodes::generate();
    // 32 random bytes encode to exactly 43 URL-safe characters, inside the
    // 43..=128 window PKCE allows.
    assert_eq!(codes.verifier.len(), 43);
    assert!(codes.verifier.iter().all(|b| {
        b.is_ascii_alphanumeric() || *b == b'-' || *b == b'_'
    }));
    assert_eq!(codes.challenge_method, ChallengeMethod::S256);
}

#[test]
fn challenge_is_digest_of_verifier_not_verifier_itself() {
    let codes = PkceCodes::generate();
    // A 32-byte digest encodes to 43 characters; the challenge of a 43-byte
    // verifier would be longer if the digest step were skipped.
    assert_eq!(codes.challenge.len(), 43);
    assert_ne!(codes.challenge, codes.verifier);
    assert!(codes.challenge.iter().all(|b| {
        b.is_ascii_alphanumeric() || *b == b'-' || *b == b'_'
    }));
}

#[test]
fn challenge_derivation_is_deterministic() {
    let codes = PkceCodes::generate();
    let again = compute_challenge(&codes.verifier);
    assert_eq!(again, codes.challenge);
    assert!(codes.binding_holds());
}

#[test]
fn distinct_attempts_draw_distinct_verifiers() {
    let a = PkceCodes::generate();
    let b = PkceCodes::generate();
    assert_ne!(a.verifier, b.verifier);
}

#[test]
fn poll_request_carries_the_bound_verifier() {
    let codes = PkceCodes::generate();
    let reg = registration();
    let device_code = b"device-code".to_vec();
    let req = poll_request(&reg, &device_code, &codes).expect("bound codes must pass");
    assert_eq!(req.client_id, reg.client_id);
    assert_eq!(req.client_secret, reg.client_secret);
    assert_eq!(req.device_code, device_code);
    assert_eq!(req.code_verifier, codes.verifier);
}

#[test]
fn poll_request_rejects_a_foreign_verifier() {
    let original = PkceCodes::generate();
    let other = PkceCodes::generate();
    // A verifier from another attempt under this attempt's challenge is a
    // protocol violation, not a retryable error.
    let tampered = PkceCodes {
        verifier: other.verifier.clone(),
        challenge: original.challenge.clone(),
        challenge_method: ChallengeMethod::S256,
    };
    assert!(!tampered.binding_holds());
    let reg = registration();
    let device_code = b"device-code".to_vec();
    let err = poll_request(&reg, &device_code, &tampered).unwrap_err();
    assert_eq!(err, AuthError::StateOrPkceMismatch);
    assert!(!err.is_retryable_by_new_attempt());
}

#[test]
fn bytes_eq_compares_contents() {
    assert!(bytes_eq(&vec![1, 2, 3], &vec![1, 2, 3]));
    assert!(!bytes_eq(&vec![1, 2, 3], &vec![1, 2]));
    assert!(!bytes_eq(&vec![1, 2, 3], &vec![1, 2, 4]));
    assert!(bytes_eq(&vec![], &vec![]));
}
