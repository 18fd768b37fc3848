//! The configuration model: backend, variant and version enums, the default
//! parameter values, the `Config` entity with its eager setters, and the
//! validation rules that every hash operation checks before it runs.

use vstd::prelude::*;

use crate::error::{ConfigurationError, ErrorKind};
use crate::outside::cpu_count;

verus! {

/// The implementation of the Argon2 algorithm that does the raw work.
/// Only the C-style compute engine is supported; the Rust backend is a
/// placeholder and is rejected by validation.
#[derive(Clone, Copy, Debug, PartialEq, Eq, Structural)]
pub enum Backend {
    /// The supported compute engine.
    C,
    /// A placeholder for a planned pure-Rust backend; not yet supported.
    Rust,
}

/// The three variants of the Argon2 algorithm.
#[derive(Clone, Copy, Debug, PartialEq, Eq, Structural)]
pub enum Variant {
    /// Data-dependent memory access.
    Argon2d,
    /// Data-independent memory access.
    Argon2i,
    /// Hybrid of the two, and the recommended default.
    Argon2id,
}

/// The two versions of the Argon2 algorithm.
#[derive(Clone, Copy, Debug, PartialEq, Eq, Structural)]
pub enum Version {
    /// Version 0x10, printed as `16` in a hash string.
    _0x10,
    /// Version 0x13, printed as `19` in a hash string; the latest version.
    _0x13,
}

/// The numeric code of a variant, as the engine and the C reference count
/// them.
pub open spec fn variant_code(v: Variant) -> u32 {
    match v {
        Variant::Argon2d => 0,
        Variant::Argon2i => 1,
        Variant::Argon2id => 2,
    }
}

/// The numeric value of a version; it is also the number printed after
/// `v=` in a hash string.
pub open spec fn version_code(v: Version) -> u32 {
    match v {
        Version::_0x10 => 16,
        Version::_0x13 => 19,
    }
}

impl Variant {
    /// The numeric code of this variant.
    pub fn code(&self) -> (r: u32)
        ensures
            r == variant_code(*self),
    {
        match self {
            Variant::Argon2d => 0,
            Variant::Argon2i => 1,
            Variant::Argon2id => 2,
        }
    }
}

impl Version {
    /// The numeric value of this version.
    pub fn code(&self) -> (r: u32)
        ensures
            r == version_code(*self),
    {
        match self {
            Version::_0x10 => 16,
            Version::_0x13 => 19,
        }
    }
}

impl Default for Backend {
    /// `Backend::C`
    fn default() -> (r: Backend)
        ensures
            r == Backend::C,
    {
        Backend::C
    }
}

impl Default for Variant {
    /// `Variant::Argon2id`
    fn default() -> (r: Variant)
        ensures
            r == Variant::Argon2id,
    {
        Variant::Argon2id
    }
}

impl Default for Version {
    /// `Version::_0x13`
    fn default() -> (r: Version)
        ensures
            r == Version::_0x13,
    {
        Version::_0x13
    }
}

/// `32` bytes.
pub const DEFAULT_HASH_LENGTH: u32 = 32;

/// `128` passes.
pub const DEFAULT_ITERATIONS: u32 = 128;

/// `4096` kibibytes.
pub const DEFAULT_MEMORY_SIZE: u32 = 4096;

/// `32` bytes.
pub const DEFAULT_SALT_LENGTH: u32 = 32;

/// `false`
pub const DEFAULT_OPT_OUT_OF_RANDOM_SALT: bool = false;

/// `false`
pub const DEFAULT_OPT_OUT_OF_SECRET_KEY: bool = false;

/// `true`: passwords are cleared after every hash or verify by default.
pub const DEFAULT_PASSWORD_CLEARING: bool = true;

/// `false`: a secret key is kept so it can serve many hash calls.
pub const DEFAULT_SECRET_KEY_CLEARING: bool = false;

/// The number of logical cores of this machine; the default lane count.
pub fn default_lanes() -> (r: u32)
    ensures
        1 <= r,
{
    let n = cpu_count();
    if n > 0xFFFF_FFFFusize {
        1
    } else {
        n as u32
    }
}

/// The number of logical cores of this machine; the default thread count.
pub fn default_threads() -> (r: u32)
    ensures
        1 <= r,
{
    default_lanes()
}

/// A power of two: 1, 2, 4, 8, ...
pub open spec fn is_power_of_two(n: nat) -> bool
    decreases n,
{
    if n == 0 {
        false
    } else if n == 1 {
        true
    } else {
        n % 2 == 0 && is_power_of_two(n / 2)
    }
}

/// The mathematical value of a `Config`.
pub ghost struct ConfigView {
    pub backend: Backend,
    pub hash_length: u32,
    pub iterations: u32,
    pub lanes: u32,
    pub memory_size: u32,
    pub opt_out_of_random_salt: bool,
    pub opt_out_of_secret_key: bool,
    pub password_clearing: bool,
    pub secret_key_clearing: bool,
    pub threads: u32,
    pub variant: Variant,
    pub version: Version,
}

/// The full parameter set for hashing and verifying: the algorithm choice
/// (backend, variant, version), the cost parameters (memory size,
/// iterations, lanes, threads), the output length, the clearing policy and
/// the two safety opt-outs.
#[derive(Clone, Copy, Debug, PartialEq, Eq, Structural)]
pub struct Config {
    backend: Backend,
    hash_length: u32,
    iterations: u32,
    lanes: u32,
    memory_size: u32,
    opt_out_of_random_salt: bool,
    opt_out_of_secret_key: bool,
    password_clearing: bool,
    secret_key_clearing: bool,
    threads: u32,
    variant: Variant,
    version: Version,
}

impl View for Config {
    type V = ConfigView;

    closed spec fn view(&self) -> ConfigView {
        ConfigView {
            backend: self.backend,
            hash_length: self.hash_length,
            iterations: self.iterations,
            lanes: self.lanes,
            memory_size: self.memory_size,
            opt_out_of_random_salt: self.opt_out_of_random_salt,
            opt_out_of_secret_key: self.opt_out_of_secret_key,
            password_clearing: self.password_clearing,
            secret_key_clearing: self.secret_key_clearing,
            threads: self.threads,
            variant: self.variant,
            version: self.version,
        }
    }
}

/// The first violated invariant of a configuration, checked in order:
/// backend support, then hash length, then memory size.
pub open spec fn validate_spec(c: ConfigView) -> Result<(), ErrorKind> {
    if c.backend != Backend::C {
        Err(ErrorKind::Configuration(ConfigurationError::BackendUnsupported))
    } else if c.hash_length < 4 {
        Err(ErrorKind::Configuration(ConfigurationError::HashLengthTooShort))
    } else if c.memory_size < 8 {
        Err(ErrorKind::Configuration(ConfigurationError::MemorySizeTooSmall))
    } else if !is_power_of_two(c.memory_size as nat) {
        Err(ErrorKind::Configuration(ConfigurationError::MemorySizeInvalid))
    } else {
        Ok(())
    }
}

/// Rejects every backend but the supported compute engine.
pub fn validate_backend(backend: Backend) -> (r: Result<(), ErrorKind>)
    ensures
        r == (if backend != Backend::C {
            Err::<(), ErrorKind>(ErrorKind::Configuration(ConfigurationError::BackendUnsupported))
        } else {
            Ok::<(), ErrorKind>(())
        }),
{
    match backend {
        Backend::C => Ok(()),
        Backend::Rust => Err(ErrorKind::Configuration(ConfigurationError::BackendUnsupported)),
    }
}

/// Rejects hash lengths below 4 bytes.
pub fn validate_hash_length(hash_length: u32) -> (r: Result<(), ErrorKind>)
    ensures
        r == (if hash_length < 4 {
            Err::<(), ErrorKind>(ErrorKind::Configuration(ConfigurationError::HashLengthTooShort))
        } else {
            Ok::<(), ErrorKind>(())
        }),
{
    if hash_length < 4 {
        Err(ErrorKind::Configuration(ConfigurationError::HashLengthTooShort))
    } else {
        Ok(())
    }
}

/// Rejects memory sizes below 8 kibibytes or not a power of two.
pub fn validate_memory_size(memory_size: u32) -> (r: Result<(), ErrorKind>)
    ensures
        r == (if memory_size < 8 {
            Err::<(), ErrorKind>(ErrorKind::Configuration(ConfigurationError::MemorySizeTooSmall))
        } else if !is_power_of_two(memory_size as nat) {
            Err::<(), ErrorKind>(ErrorKind::Configuration(ConfigurationError::MemorySizeInvalid))
        } else {
            Ok::<(), ErrorKind>(())
        }),
{
    if memory_size < 8 {
        return Err(ErrorKind::Configuration(ConfigurationError::MemorySizeTooSmall));
    }
    if !power_of_two_check(memory_size) {
        return Err(ErrorKind::Configuration(ConfigurationError::MemorySizeInvalid));
    }
    Ok(())
}

/// Whether `m` is a power of two, by repeated halving.
fn power_of_two_check(m: u32) -> (r: bool)
    ensures
        r == is_power_of_two(m as nat),
{
    if m == 0 {
        return false;
    }
    let mut x: u32 = m;
    while x > 1
        invariant
            1 <= x,
            is_power_of_two(m as nat) == is_power_of_two(x as nat),
        decreases x,
    {
        if x % 2 == 1 {
            return false;
        }
        x = x / 2;
    }
    true
}

impl Default for Config {
    /// The default configuration: the supported backend, 32-byte hashes,
    /// 128 iterations, 4096 kibibytes of memory, one lane and one thread
    /// per logical core, password clearing on, secret-key clearing off,
    /// both opt-outs off, Argon2id, version 0x13.
    fn default() -> (r: Config)
        ensures
            r@.backend == Backend::C,
            r@.hash_length == DEFAULT_HASH_LENGTH,
            r@.iterations == DEFAULT_ITERATIONS,
            r@.memory_size == DEFAULT_MEMORY_SIZE,
            r@.opt_out_of_random_salt == DEFAULT_OPT_OUT_OF_RANDOM_SALT,
            r@.opt_out_of_secret_key == DEFAULT_OPT_OUT_OF_SECRET_KEY,
            r@.password_clearing == DEFAULT_PASSWORD_CLEARING,
            r@.secret_key_clearing == DEFAULT_SECRET_KEY_CLEARING,
            1 <= r@.lanes,
            r@.threads == r@.lanes,
            r@.variant == Variant::Argon2id,
            r@.version == Version::_0x13,
    {
        let cores = default_lanes();
        Config {
            backend: Backend::C,
            hash_length: DEFAULT_HASH_LENGTH,
            iterations: DEFAULT_ITERATIONS,
            lanes: cores,
            memory_size: DEFAULT_MEMORY_SIZE,
            opt_out_of_random_salt: DEFAULT_OPT_OUT_OF_RANDOM_SALT,
            opt_out_of_secret_key: DEFAULT_OPT_OUT_OF_SECRET_KEY,
            password_clearing: DEFAULT_PASSWORD_CLEARING,
            secret_key_clearing: DEFAULT_SECRET_KEY_CLEARING,
            threads: cores,
            variant: Variant::Argon2id,
            version: Version::_0x13,
        }
    }
}

impl Config {
    /// The configured backend.
    pub fn backend(&self) -> (r: Backend)
        ensures
            r == self@.backend,
    {
        self.backend
    }

    /// The configured hash length in bytes.
    pub fn hash_length(&self) -> (r: u32)
        ensures
            r == self@.hash_length,
    {
        self.hash_length
    }

    /// The configured number of passes.
    pub fn iterations(&self) -> (r: u32)
        ensures
            r == self@.iterations,
    {
        self.iterations
    }

    /// The configured number of lanes.
    pub fn lanes(&self) -> (r: u32)
        ensures
            r == self@.lanes,
    {
        self.lanes
    }

    /// The configured memory size in kibibytes.
    pub fn memory_size(&self) -> (r: u32)
        ensures
            r == self@.memory_size,
    {
        self.memory_size
    }

    /// Whether the caller has opted out of random salts.
    pub fn opt_out_of_random_salt(&self) -> (r: bool)
        ensures
            r == self@.opt_out_of_random_salt,
    {
        self.opt_out_of_random_salt
    }

    /// Whether the caller has opted out of a secret key.
    pub fn opt_out_of_secret_key(&self) -> (r: bool)
        ensures
            r == self@.opt_out_of_secret_key,
    {
        self.opt_out_of_secret_key
    }

    /// Whether passwords are cleared after each hash or verify.
    pub fn password_clearing(&self) -> (r: bool)
        ensures
            r == self@.password_clearing,
    {
        self.password_clearing
    }

    /// Whether the secret key is cleared after each hash or verify.
    pub fn secret_key_clearing(&self) -> (r: bool)
        ensures
            r == self@.secret_key_clearing,
    {
        self.secret_key_clearing
    }

    /// The configured number of threads.
    pub fn threads(&self) -> (r: u32)
        ensures
            r == self@.threads,
    {
        self.threads
    }

    /// The configured variant.
    pub fn variant(&self) -> (r: Variant)
        ensures
            r == self@.variant,
    {
        self.variant
    }

    /// The configured version.
    pub fn version(&self) -> (r: Version)
        ensures
            r == self@.version,
    {
        self.version
    }

    /// The clearing policy as a bit set: bit 0 clears the password, bit 1
    /// clears the secret key.
    pub fn flags(&self) -> (r: u32)
        ensures
            r == (if self@.password_clearing {
                1u32
            } else {
                0u32
            }) + (if self@.secret_key_clearing {
                2u32
            } else {
                0u32
            }),
    {
        let mut flags: u32 = 0;
        if self.password_clearing {
            flags = flags + 1;
        }
        if self.secret_key_clearing {
            flags = flags + 2;
        }
        flags
    }

    /// Sets the backend; an unsupported choice is kept and reported later
    /// by `validate`.
    pub fn set_backedn(&mut self, backend: Backend)
        ensures
            final(self)@ == (ConfigView { backend, ..old(self)@ }),
    {
        self.backend = backend;
    }

    /// Sets the hash length; a too-short length is kept and reported later
    /// by `validate`.
    pub fn set_hash_length(&mut self, hash_length: u32)
        ensures
            final(self)@ == (ConfigView { hash_length, ..old(self)@ }),
    {
        self.hash_length = hash_length;
    }

    /// Sets the number of passes, clamping 0 up to 1.
    pub fn set_iterations(&mut self, iterations: u32)
        ensures
            final(self)@ == (ConfigView {
                iterations: if iterations == 0 {
                    1u32
                } else {
                    iterations
                },
                ..old(self)@
            }),
    {
        if iterations == 0 {
            self.iterations = 1;
        } else {
            self.iterations = iterations;
        }
    }

    /// Sets the number of lanes, clamping 0 up to 1.
    pub fn set_lanes(&mut self, lanes: u32)
        ensures
            final(self)@ == (ConfigView {
                lanes: if lanes == 0 {
                    1u32
                } else {
                    lanes
                },
                ..old(self)@
            }),
    {
        if lanes == 0 {
            self.lanes = 1;
        } else {
            self.lanes = lanes;
        }
    }

    /// Sets the memory size; an invalid size is kept and reported later by
    /// `validate`.
    pub fn set_memory_size(&mut self, memory_size: u32)
        ensures
            final(self)@ == (ConfigView { memory_size, ..old(self)@ }),
    {
        self.memory_size = memory_size;
    }

    /// Sets the opt-out from random salts.
    pub fn set_opt_out_of_random_salt(&mut self, boolean: bool)
        ensures
            final(self)@ == (ConfigView { opt_out_of_random_salt: boolean, ..old(self)@ }),
    {
        self.opt_out_of_random_salt = boolean;
    }

    /// Sets the opt-out from a secret key.
    pub fn set_opt_out_of_secret_key(&mut self, boolean: bool)
        ensures
            final(self)@ == (ConfigView { opt_out_of_secret_key: boolean, ..old(self)@ }),
    {
        self.opt_out_of_secret_key = boolean;
    }

    /// Sets whether passwords are cleared after each hash or verify.
    pub fn set_password_clearing(&mut self, boolean: bool)
        ensures
            final(self)@ == (ConfigView { password_clearing: boolean, ..old(self)@ }),
    {
        self.password_clearing = boolean;
    }

    /// Sets whether the secret key is cleared after each hash or verify.
    pub fn set_secret_key_clearing(&mut self, boolean: bool)
        ensures
            final(self)@ == (ConfigView { secret_key_clearing: boolean, ..old(self)@ }),
    {
        self.secret_key_clearing = boolean;
    }

    /// Sets the number of threads, clamping 0 up to 1.
    pub fn set_threads(&mut self, threads: u32)
        ensures
            final(self)@ == (ConfigView {
                threads: if threads == 0 {
                    1u32
                } else {
                    threads
                },
                ..old(self)@
            }),
    {
        if threads == 0 {
            self.threads = 1;
        } else {
            self.threads = threads;
        }
    }

    /// Sets the variant.
    pub fn set_variant(&mut self, variant: Variant)
        ensures
            final(self)@ == (ConfigView { variant, ..old(self)@ }),
    {
        self.variant = variant;
    }

    /// Sets the version.  An old version is accepted; it may be required
    /// for compatibility with legacy hashes.
    pub fn set_version(&mut self, version: Version)
        ensures
            final(self)@ == (ConfigView { version, ..old(self)@ }),
    {
        self.version = version;
    }

    /// Returns the first violated invariant, checking backend support,
    /// then the hash length, then the memory size.
    pub fn validate(&self) -> (r: Result<(), ErrorKind>)
        ensures
            r == validate_spec(self@),
    {
        validate_backend(self.backend)?;
        validate_hash_length(self.hash_length)?;
        validate_memory_size(self.memory_size)?;
        Ok(())
    }
}

} // verus!
