//! The fault taxonomy: configuration faults, user-data faults, encoding
//! faults inside a hash string's parameter block, and internal faults that
//! the API is supposed to make unreachable.

use vstd::prelude::*;

verus! {

/// An invariant violation in the hashing parameters.
#[derive(Clone, Copy, Debug, PartialEq, Eq, Structural)]
pub enum ConfigurationError {
    /// The chosen backend is not supported.
    BackendUnsupported,
    /// The hash length is below the minimum of 4 bytes.
    HashLengthTooShort,
    /// The memory size is below the minimum of 8 kibibytes.
    MemorySizeTooSmall,
    /// The memory size is not a power of two.
    MemorySizeInvalid,
}

/// Invalid or missing user-supplied input.
#[derive(Clone, Copy, Debug, PartialEq, Eq, Structural)]
pub enum DataError {
    /// A hash or a raw hash was requested without a password.
    PasswordMissing,
    /// Neither a secret key nor an explicit opt-out was supplied.
    SecretKeyMissing,
    /// A deterministic salt was supplied without the explicit opt-out
    /// from random salts.
    SaltNonRandom,
    /// A hash string does not have the expected `$`-delimited structure.
    HashInvalid,
    /// A salt or hash segment of a hash string is not valid unpadded
    /// standard base64.
    InvalidBase64,
}

/// A malformed numeric field inside the parameter block of a hash string.
#[derive(Clone, Copy, Debug, PartialEq, Eq, Structural)]
pub enum EncodingError {
    /// A field that must hold an unsigned decimal number does not.
    InvalidNumber,
}

/// Every fault the library can report.
#[derive(Clone, Copy, Debug, PartialEq, Eq, Structural)]
pub enum ErrorKind {
    /// An invariant violation in the parameters.
    Configuration(ConfigurationError),
    /// Invalid or missing user-supplied input.
    Data(DataError),
    /// A malformed numeric field inside a hash string.
    Encoding(EncodingError),
    /// A state the API is supposed to make unreachable: verifying without a
    /// hash string, or an engine fault under parameters the engine's own
    /// documentation accepts.
    Bug,
}

impl ErrorKind {
    /// A short human-readable description of the fault.
    pub fn description(&self) -> (r: &'static str)
    {
        match self {
            ErrorKind::Configuration(ConfigurationError::BackendUnsupported) => {
                "backend not supported"
            },
            ErrorKind::Configuration(ConfigurationError::HashLengthTooShort) => {
                "hash length is too short"
            },
            ErrorKind::Configuration(ConfigurationError::MemorySizeTooSmall) => {
                "memory size is too small"
            },
            ErrorKind::Configuration(ConfigurationError::MemorySizeInvalid) => {
                "memory size is not a power of two"
            },
            ErrorKind::Data(DataError::PasswordMissing) => "password missing",
            ErrorKind::Data(DataError::SecretKeyMissing) => "secret key missing",
            ErrorKind::Data(DataError::SaltNonRandom) => {
                "deterministic salt without opt-out"
            },
            ErrorKind::Data(DataError::HashInvalid) => "hash string invalid",
            ErrorKind::Data(DataError::InvalidBase64) => "invalid base64",
            ErrorKind::Encoding(EncodingError::InvalidNumber) => "invalid number",
            ErrorKind::Bug => "bug: this should be unreachable",
        }
    }
}

} // verus!
