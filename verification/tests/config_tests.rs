//! Tests of the configuration model: defaults, setters, clamping, and the
//! validation rules.

use a2::{
    argonautica_backend_t, argonautica_variant_t, argonautica_version_t, default_lanes,
    default_threads, generate_random_base64_encoded_string, generate_random_bytes, Backend,
    Config, ConfigurationError, ErrorKind, SecureBytes, Variant, Version,
};

#[test]
fn default_config_values() {
    let c = Config::default();
    assert_eq!(c.backend(), Backend::C);
    assert_eq!(c.hash_length(), 32);
    assert_eq!(c.iterations(), 128);
    assert_eq!(c.memory_size(), 4096);
    assert!(!c.opt_out_of_random_salt());
    assert!(!c.opt_out_of_secret_key());
    assert!(c.password_clearing());
    assert!(!c.secret_key_clearing());
    assert!(c.lanes() >= 1);
    assert_eq!(c.threads(), c.lanes());
    assert_eq!(c.variant(), Variant::Argon2id);
    assert_eq!(c.version(), Version::_0x13);
}

#[test]
fn setters_store_values() {
    let mut c = Config::default();
    c.set_backedn(Backend::Rust);
    c.set_hash_length(16);
    c.set_iterations(10);
    c.set_lanes(3);
    c.set_memory_size(1024);
    c.set_opt_out_of_random_salt(true);
    c.set_opt_out_of_secret_key(true);
    c.set_password_clearing(false);
    c.set_secret_key_clearing(true);
    c.set_threads(5);
    c.set_variant(Variant::Argon2d);
    c.set_version(Version::_0x10);
    assert_eq!(c.backend(), Backend::Rust);
    assert_eq!(c.hash_length(), 16);
    assert_eq!(c.iterations(), 10);
    assert_eq!(c.lanes(), 3);
    assert_eq!(c.memory_size(), 1024);
    assert!(c.opt_out_of_random_salt());
    assert!(c.opt_out_of_secret_key());
    assert!(!c.password_clearing());
    assert!(c.secret_key_clearing());
    assert_eq!(c.threads(), 5);
    assert_eq!(c.variant(), Variant::Argon2d);
    assert_eq!(c.version(), Version::_0x10);
}

#[test]
fn zero_is_clamped_to_one() {
    let mut c = Config::default();
    c.set_iterations(0);
    c.set_lanes(0);
    c.set_threads(0);
    assert_eq!(c.iterations(), 1);
    assert_eq!(c.lanes(), 1);
    assert_eq!(c.threads(), 1);
}

#[test]
fn flags_follow_clearing_policy() {
    let mut c = Config::default();
    c.set_password_clearing(false);
    c.set_secret_key_clearing(false);
    assert_eq!(c.flags(), 0);
    c.set_password_clearing(true);
    assert_eq!(c.flags(), 1);
    c.set_secret_key_clearing(true);
    assert_eq!(c.flags(), 3);
    c.set_password_clearing(false);
    assert_eq!(c.flags(), 2);
}

#[test]
fn validate_accepts_default() {
    let c = Config::default();
    assert!(c.validate().is_ok());
}

#[test]
fn validate_rejects_rust_backend() {
    let mut c = Config::default();
    c.set_backedn(Backend::Rust);
    assert_eq!(
        c.validate().unwrap_err(),
        ErrorKind::Configuration(ConfigurationError::BackendUnsupported)
    );
}

#[test]
fn validate_rejects_short_hash_length() {
    let mut c = Config::default();
    c.set_hash_length(2);
    assert_eq!(
        c.validate().unwrap_err(),
        ErrorKind::Configuration(ConfigurationError::HashLengthTooShort)
    );
}

#[test]
fn validate_rejects_small_memory_size() {
    let mut c = Config::default();
    c.set_memory_size(4);
    assert_eq!(
        c.validate().unwrap_err(),
        ErrorKind::Configuration(ConfigurationError::MemorySizeTooSmall)
    );
}

#[test]
fn validate_rejects_non_power_of_two_memory_size() {
    let mut c = Config::default();
    c.set_memory_size(10);
    assert_eq!(
        c.validate().unwrap_err(),
        ErrorKind::Configuration(ConfigurationError::MemorySizeInvalid)
    );
}

#[test]
fn validate_checks_backend_before_hash_length() {
    let mut c = Config::default();
    c.set_backedn(Backend::Rust);
    c.set_hash_length(2);
    c.set_memory_size(10);
    assert_eq!(
        c.validate().unwrap_err(),
        ErrorKind::Configuration(ConfigurationError::BackendUnsupported)
    );
}

#[test]
fn default_lane_and_thread_counts_are_positive() {
    assert!(default_lanes() >= 1);
    assert!(default_threads() >= 1);
}

#[test]
fn external_tags_convert() {
    assert_eq!(Backend::from(argonautica_backend_t::ARGONAUTICA_C), Backend::C);
    assert_eq!(Backend::from(argonautica_backend_t::ARGONAUTICA_RUST), Backend::Rust);
    assert_eq!(Variant::from(argonautica_variant_t::ARGONAUTICA_ARGON2D), Variant::Argon2d);
    assert_eq!(Variant::from(argonautica_variant_t::ARGONAUTICA_ARGON2I), Variant::Argon2i);
    assert_eq!(Variant::from(argonautica_variant_t::ARGONAUTICA_ARGON2ID), Variant::Argon2id);
    assert_eq!(Version::from(argonautica_version_t::ARGONAUTICA_0x10), Version::_0x10);
    assert_eq!(Version::from(argonautica_version_t::ARGONAUTICA_0x13), Version::_0x13);
}

#[test]
fn error_descriptions_name_the_fault() {
    assert_eq!(
        ErrorKind::Configuration(ConfigurationError::MemorySizeInvalid).description(),
        "memory size is not a power of two"
    );
    assert_eq!(ErrorKind::Bug.description(), "bug: this should be unreachable");
}

#[test]
fn secure_bytes_clear_empties_the_buffer() {
    let mut b = SecureBytes::new(vec![1u8, 2, 3]);
    assert_eq!(b.len(), 3);
    assert!(!b.is_empty());
    b.clear();
    assert!(b.is_empty());
    assert_eq!(b.as_bytes(), &[] as &[u8]);
}

#[test]
fn random_bytes_have_requested_length() {
    let a = generate_random_bytes(32).unwrap();
    let b = generate_random_bytes(32).unwrap();
    assert_eq!(a.len(), 32);
    assert_eq!(b.len(), 32);
    // two draws from the OS random source are distinct in practice
    assert_ne!(a, b);
}

#[test]
fn random_base64_string_has_padded_length() {
    let s = generate_random_base64_encoded_string(10).unwrap();
    assert_eq!(s.len(), 16);
    for c in s.chars() {
        assert!(c.is_ascii_alphanumeric() || c == '+' || c == '/' || c == '=');
    }
}
