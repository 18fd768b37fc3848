//! Password hashing built around the Argon2 family of algorithms.
//!
//! A `Hasher` turns a password (plus an optional salt, secret key and
//! additional data) into a PHC-style hash string; a `Verifier` checks a
//! password against such a string.  The configuration model, the handling of
//! sensitive byte buffers, the PHC string codec and the two builder state
//! machines are verified; the memory-hard Argon2 mixing itself is delegated
//! to an external engine behind a narrow, trusted interface.

mod codec;
mod config;
mod data;
mod error;
mod external;
mod hasher;
mod output;
mod outside;
mod utils;
mod verify;

pub use codec::{decode, encode, lemma_decode_deterministic};
pub use config::{Backend, Config, ConfigView, Variant, Version};
pub use config::{
    DEFAULT_HASH_LENGTH, DEFAULT_ITERATIONS, DEFAULT_MEMORY_SIZE, DEFAULT_OPT_OUT_OF_RANDOM_SALT,
    DEFAULT_OPT_OUT_OF_SECRET_KEY, DEFAULT_PASSWORD_CLEARING, DEFAULT_SALT_LENGTH,
    DEFAULT_SECRET_KEY_CLEARING,
};
pub use config::{default_lanes, default_threads};
pub use config::{validate_backend, validate_hash_length, validate_memory_size};
pub use data::{Salt, SecureBytes};
pub use error::{ConfigurationError, DataError, EncodingError, ErrorKind};
pub use external::{
    argonautica_backend_t, argonautica_error_t, argonautica_variant_t, argonautica_version_t,
};
pub use hasher::{Hasher, HasherState, HasherView};
pub use output::{HashRaw, HashRawView};
pub use utils::{generate_random_base64_encoded_string, generate_random_bytes};
pub use verify::{lemma_hash_then_verify, Verifier, VerifierState, VerifierView};
