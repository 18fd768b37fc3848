//! Tests of the hashing and verification state machines against the real
//! engine: hash-then-verify, the guard errors, the clearing policy, and
//! the published reference string.

use a2::{
    DataError, ErrorKind, Hasher, HasherState, Salt, Variant, Verifier, VerifierState, Version,
};

/// A hasher with the smallest parameters the engine accepts, for fast
/// tests.
fn fast_hasher() -> Hasher {
    let mut hasher = Hasher::default();
    hasher.configure_memory_size(8);
    hasher.configure_iterations(1);
    hasher.configure_lanes(1);
    hasher.configure_threads(1);
    hasher.configure_hash_length(4);
    hasher
}

#[test]
fn hash_then_verify_matches() {
    let mut hasher = fast_hasher();
    hasher.with_password("P@ssw0rd");
    hasher.with_secret_key("secret key");
    let hash = hasher.hash().unwrap();

    let mut verifier = Verifier::default();
    verifier.with_hash(&hash);
    verifier.with_password("P@ssw0rd");
    verifier.with_secret_key("secret key");
    assert_eq!(verifier.verify().unwrap(), true);
}

#[test]
fn verify_with_wrong_password_is_false() {
    let mut hasher = fast_hasher();
    hasher.with_password("P@ssw0rd");
    hasher.with_secret_key("secret key");
    let hash = hasher.hash().unwrap();

    // one character of the password changed: a mismatch, not a fault
    let mut verifier = Verifier::default();
    verifier.with_hash(&hash);
    verifier.with_password("P@ssw1rd");
    verifier.with_secret_key("secret key");
    assert_eq!(verifier.verify().unwrap(), false);
}

#[test]
fn verify_with_wrong_secret_key_is_false() {
    let mut hasher = fast_hasher();
    hasher.with_password("P@ssw0rd");
    hasher.with_secret_key("secret key");
    let hash = hasher.hash().unwrap();

    let mut verifier = Verifier::default();
    verifier.with_hash(&hash);
    verifier.with_password("P@ssw0rd");
    verifier.with_secret_key("other key");
    assert_eq!(verifier.verify().unwrap(), false);
}

#[test]
fn verify_without_hash_is_a_bug_fault() {
    let mut verifier = Verifier::default();
    verifier.with_password("P@ssw0rd");
    assert_eq!(verifier.verify().unwrap_err(), ErrorKind::Bug);
}

#[test]
fn verify_propagates_decode_fault() {
    let mut verifier = Verifier::default();
    verifier.with_hash("$argon2id$v=19$m=4096,t=128,p=2$badbase64$$");
    verifier.with_password("P@ssw0rd");
    assert_eq!(verifier.verify().unwrap_err(), ErrorKind::Data(DataError::HashInvalid));
}

#[test]
fn hash_without_password_is_a_data_error() {
    let mut hasher = fast_hasher();
    hasher.with_secret_key("secret key");
    assert_eq!(hasher.hash().unwrap_err(), ErrorKind::Data(DataError::PasswordMissing));
}

#[test]
fn hash_without_secret_key_is_guarded() {
    let mut hasher = fast_hasher();
    hasher.with_password("P@ssw0rd");
    assert_eq!(hasher.hash().unwrap_err(), ErrorKind::Data(DataError::SecretKeyMissing));
}

#[test]
fn hash_without_secret_key_works_after_opt_out() {
    let mut hasher = fast_hasher();
    hasher.opt_out_of_secret_key();
    hasher.with_password("P@ssw0rd");
    assert!(hasher.hash().is_ok());
}

#[test]
fn deterministic_salt_without_opt_out_is_a_data_error() {
    let mut hasher = fast_hasher();
    hasher.with_password("P@ssw0rd");
    hasher.with_secret_key("secret key");
    hasher.with_salt("somesalt");
    assert_eq!(hasher.hash().unwrap_err(), ErrorKind::Data(DataError::SaltNonRandom));
}

#[test]
fn deterministic_salt_with_opt_out_is_used_exactly() {
    let mut hasher = fast_hasher();
    hasher.opt_out_of_random_salt();
    hasher.with_password("P@ssw0rd");
    hasher.with_secret_key("secret key");
    hasher.with_salt("somesalt");
    let raw = hasher.hash_raw().unwrap();
    assert_eq!(raw.raw_salt_bytes(), b"somesalt");
}

#[test]
fn invalid_configuration_is_rejected_before_hashing() {
    let mut hasher = fast_hasher();
    hasher.configure_memory_size(10);
    hasher.with_password("P@ssw0rd");
    hasher.with_secret_key("secret key");
    assert!(matches!(hasher.hash().unwrap_err(), ErrorKind::Configuration(_)));
}

#[test]
fn too_short_salt_is_an_engine_fault() {
    let mut hasher = fast_hasher();
    hasher.opt_out_of_random_salt();
    hasher.with_password("P@ssw0rd");
    hasher.with_secret_key("secret key");
    hasher.with_salt("short");
    assert_eq!(hasher.hash().unwrap_err(), ErrorKind::Bug);
}

#[test]
fn default_policy_clears_password_and_keeps_secret_key() {
    let mut hasher = fast_hasher();
    hasher.with_password("P@ssw0rd");
    hasher.with_secret_key("secret key");
    hasher.hash().unwrap();
    // the password buffer is zeroed and emptied ...
    assert!(hasher.password().is_empty());
    assert_eq!(hasher.password().as_bytes(), &[] as &[u8]);
    // ... the secret key is kept and reusable for a second call
    assert_eq!(hasher.secret_key().as_bytes(), b"secret key");
    // using the builder again without re-supplying the password is an error
    assert_eq!(hasher.hash().unwrap_err(), ErrorKind::Data(DataError::PasswordMissing));
    hasher.with_password("next password");
    assert!(hasher.hash().is_ok());
}

#[test]
fn secret_key_clearing_can_be_enabled() {
    let mut hasher = fast_hasher();
    hasher.configure_secret_key_clearing(true);
    hasher.with_password("P@ssw0rd");
    hasher.with_secret_key("secret key");
    hasher.hash().unwrap();
    assert!(hasher.secret_key().is_empty());
}

#[test]
fn password_clearing_can_be_disabled() {
    let mut hasher = fast_hasher();
    hasher.configure_password_clearing(false);
    hasher.with_password("P@ssw0rd");
    hasher.with_secret_key("secret key");
    hasher.hash().unwrap();
    assert_eq!(hasher.password().as_bytes(), b"P@ssw0rd");
}

#[test]
fn random_salt_is_fresh_on_every_call() {
    let mut hasher = fast_hasher();
    hasher.configure_password_clearing(false);
    hasher.with_password("P@ssw0rd");
    hasher.with_secret_key("secret key");
    let first = hasher.hash_raw().unwrap();
    let second = hasher.hash_raw().unwrap();
    assert_eq!(first.raw_salt_bytes().len(), 32);
    assert_eq!(second.raw_salt_bytes().len(), 32);
    assert_ne!(first.raw_salt_bytes(), second.raw_salt_bytes());
}

#[test]
fn random_salt_length_is_configurable() {
    let mut hasher = fast_hasher();
    hasher.with_random_salt(16);
    hasher.with_password("P@ssw0rd");
    hasher.with_secret_key("secret key");
    let raw = hasher.hash_raw().unwrap();
    assert_eq!(raw.raw_salt_bytes().len(), 16);
}

#[test]
fn hasher_state_advances() {
    let mut hasher = fast_hasher();
    assert_eq!(hasher.state(), HasherState::Configured);
    assert_eq!(Hasher::default().state(), HasherState::Unconfigured);
    hasher.with_password("P@ssw0rd");
    hasher.with_secret_key("secret key");
    hasher.hash().unwrap();
    assert_eq!(hasher.state(), HasherState::Hashed);
}

#[test]
fn verifier_state_advances() {
    let mut verifier = Verifier::default();
    assert_eq!(verifier.state(), VerifierState::Unconfigured);
    verifier.with_password("P@ssw0rd");
    assert_eq!(verifier.state(), VerifierState::Configured);
    let _ = verifier.verify();
    assert_eq!(verifier.state(), VerifierState::Verified);
}

#[test]
fn verifier_clears_password_by_default() {
    let mut hasher = fast_hasher();
    hasher.with_password("P@ssw0rd");
    hasher.with_secret_key("secret key");
    let hash = hasher.hash().unwrap();

    let mut verifier = Verifier::default();
    verifier.with_hash(&hash);
    verifier.with_password("P@ssw0rd");
    verifier.with_secret_key("secret key");
    verifier.verify().unwrap();
    assert!(verifier.password().is_empty());
    assert_eq!(verifier.secret_key().as_bytes(), b"secret key");
}

#[test]
fn salt_accessors_report_policy() {
    let hasher = Hasher::default();
    assert!(hasher.salt().is_random());
    assert_eq!(hasher.salt().len(), 32);
    let salt = Salt::from_text("somesalt");
    assert!(!salt.is_random());
    assert_eq!(salt.len(), 8);
}

#[test]
fn hash_raw_carries_the_configuration() {
    let mut hasher = fast_hasher();
    hasher.with_password("P@ssw0rd");
    hasher.with_secret_key("secret key");
    let raw = hasher.hash_raw().unwrap();
    assert_eq!(raw.iterations(), 1);
    assert_eq!(raw.lanes(), 1);
    assert_eq!(raw.memory_size(), 8);
    assert_eq!(raw.variant(), Variant::Argon2id);
    assert_eq!(raw.version(), Version::_0x13);
    assert_eq!(raw.raw_hash_bytes().len(), 4);
    assert_eq!(raw.raw_salt_bytes().len(), 32);
}

#[test]
fn reference_string_is_reproduced() {
    let mut hasher = Hasher::default();
    hasher.configure_memory_size(8192);
    hasher.configure_iterations(256);
    hasher.configure_lanes(2);
    hasher.configure_threads(2);
    hasher.configure_hash_length(16);
    hasher.configure_variant(Variant::Argon2id);
    hasher.configure_version(Version::_0x13);
    hasher.opt_out_of_random_salt();
    hasher.opt_out_of_secret_key();
    hasher.with_password("P@ssw0rd");
    hasher.with_salt("somesalt");
    let hash = hasher.hash().unwrap();
    assert_eq!(hash, "$argon2id$v=19$m=8192,t=256,p=2$c29tZXNhbHQ$TyX+9AspmkeMGLJRQdJozQ");
}

#[test]
fn reference_string_verifies() {
    let mut verifier = Verifier::default();
    verifier.with_hash("$argon2id$v=19$m=8192,t=256,p=2$c29tZXNhbHQ$TyX+9AspmkeMGLJRQdJozQ");
    verifier.with_password("P@ssw0rd");
    assert_eq!(verifier.verify().unwrap(), true);
}
