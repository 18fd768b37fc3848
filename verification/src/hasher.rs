//! The hashing state machine: a builder that assembles inputs and
//! configuration, delegates the raw computation to the engine, encodes the
//! result, and clears secrets per policy on every exit path.

use vstd::prelude::*;
use vstd::string::StringSliceAdditionalSpecFns;

use crate::codec::{decode_spec, encode, spec_encode};
use crate::config::{
    validate_spec, variant_code, version_code, Backend, Config, ConfigView, Variant, Version,
};
use crate::data::{Salt, SecureBytes};
use crate::error::{DataError, ErrorKind};
use crate::output::{HashRaw, HashRawView};
use crate::outside::{argon2_of, engine_accepts, engine_hash_raw, random_vec};

verus! {

/// The linear state of a `Hasher`.
#[derive(Clone, Copy, Debug, PartialEq, Eq, Structural)]
pub enum HasherState {
    /// Freshly constructed; nothing set beyond the defaults.
    Unconfigured,
    /// At least one input or parameter has been supplied.
    Configured,
    /// A hash operation has run; cleared inputs must be resupplied.
    Hashed,
}

/// The mathematical value of a `Hasher`.
pub ghost struct HasherView {
    pub additional_data: Seq<u8>,
    pub config: ConfigView,
    pub password: Seq<u8>,
    pub salt: Salt,
    pub secret_key: Seq<u8>,
    pub state: HasherState,
}

/// The length of the salt a hash call will use.
pub open spec fn salt_spec_len(s: Salt) -> nat {
    match s {
        Salt::Random { len } => len as nat,
        Salt::Deterministic { bytes } => bytes@.len(),
    }
}

/// The first fault of a raw-hash operation, if any, checked in order:
/// the configuration invariants, a missing password, a missing secret key
/// without the opt-out, a deterministic salt without the opt-out, and
/// finally the engine's own input validation, whose failure the API treats
/// as unreachable.
pub open spec fn hash_raw_error(
    c: ConfigView,
    password_len: nat,
    secret_key_len: nat,
    additional_data_len: nat,
    salt_len: nat,
    salt_random: bool,
) -> Option<ErrorKind> {
    match validate_spec(c) {
        Err(e) => Some(e),
        Ok(_) => if password_len == 0 {
            Some(ErrorKind::Data(DataError::PasswordMissing))
        } else if secret_key_len == 0 && !c.opt_out_of_secret_key {
            Some(ErrorKind::Data(DataError::SecretKeyMissing))
        } else if !salt_random && !c.opt_out_of_random_salt {
            Some(ErrorKind::Data(DataError::SaltNonRandom))
        } else if !engine_accepts(
            c.memory_size,
            c.iterations,
            c.lanes,
            password_len,
            salt_len,
            secret_key_len,
            additional_data_len,
            c.hash_length,
        ) {
            Some(ErrorKind::Bug)
        } else {
            None
        },
    }
}

/// The record a successful raw-hash operation returns, given the salt
/// bytes that were used.
pub open spec fn hash_raw_output(
    c: ConfigView,
    password: Seq<u8>,
    secret_key: Seq<u8>,
    additional_data: Seq<u8>,
    salt: Seq<u8>,
) -> HashRawView {
    HashRawView {
        iterations: c.iterations,
        lanes: c.lanes,
        memory_size: c.memory_size,
        raw_hash_bytes: argon2_of(
            variant_code(c.variant),
            version_code(c.version),
            c.memory_size,
            c.iterations,
            c.lanes,
            password,
            salt,
            secret_key,
            additional_data,
            c.hash_length,
        ),
        raw_salt_bytes: salt,
        variant: c.variant,
        version: c.version,
    }
}

/// What a successful hash operation's record looks like for a given
/// builder value: it is the engine's output for the builder's inputs, its
/// hash is exactly the configured length, and its salt is the supplied
/// bytes (deterministic) or fresh bytes of the configured length (random).
pub open spec fn hash_output_matches(h: HasherView, hv: HashRawView) -> bool {
    &&& hv == hash_raw_output(h.config, h.password, h.secret_key, h.additional_data,
        hv.raw_salt_bytes,
    )
    &&& hv.raw_hash_bytes.len() == h.config.hash_length
    &&& (h.salt matches Salt::Deterministic { bytes } ==> hv.raw_salt_bytes == bytes@)
    &&& (h.salt matches Salt::Random { len } ==> hv.raw_salt_bytes.len() == len)
}

/// The hashing builder and state machine.
#[derive(Debug)]
pub struct Hasher {
    additional_data: SecureBytes,
    config: Config,
    password: SecureBytes,
    salt: Salt,
    secret_key: SecureBytes,
    state: HasherState,
}

impl View for Hasher {
    type V = HasherView;

    closed spec fn view(&self) -> HasherView {
        HasherView {
            additional_data: self.additional_data@,
            config: self.config@,
            password: self.password@,
            salt: self.salt,
            secret_key: self.secret_key@,
            state: self.state,
        }
    }
}

impl Default for Hasher {
    /// A hasher with the default configuration, a random salt of the
    /// default length, and no inputs.
    fn default() -> (r: Hasher)
        ensures
            r@.additional_data == Seq::<u8>::empty(),
            r@.password == Seq::<u8>::empty(),
            r@.secret_key == Seq::<u8>::empty(),
            r@.salt == (Salt::Random { len: crate::config::DEFAULT_SALT_LENGTH }),
            r@.state == HasherState::Unconfigured,
            r@.config.backend == Backend::C,
            r@.config.hash_length == crate::config::DEFAULT_HASH_LENGTH,
            r@.config.iterations == crate::config::DEFAULT_ITERATIONS,
            r@.config.memory_size == crate::config::DEFAULT_MEMORY_SIZE,
            !r@.config.opt_out_of_random_salt,
            !r@.config.opt_out_of_secret_key,
            r@.config.password_clearing,
            !r@.config.secret_key_clearing,
            1 <= r@.config.lanes,
            r@.config.threads == r@.config.lanes,
            r@.config.variant == Variant::Argon2id,
            r@.config.version == Version::_0x13,
    {
        Hasher {
            additional_data: SecureBytes::empty(),
            config: Config::default(),
            password: SecureBytes::empty(),
            salt: Salt::default(),
            secret_key: SecureBytes::empty(),
            state: HasherState::Unconfigured,
        }
    }
}

impl Hasher {
    /// Sets the backend.
    pub fn configure_backend(&mut self, backend: Backend)
        ensures
            final(self)@ == (HasherView {
                config: ConfigView { backend, ..old(self)@.config },
                state: HasherState::Configured,
                ..old(self)@
            }),
    {
        self.config.set_backedn(backend);
        self.state = HasherState::Configured;
    }

    /// Sets the hash length in bytes.
    pub fn configure_hash_length(&mut self, hash_length: u32)
        ensures
            final(self)@ == (HasherView {
                config: ConfigView { hash_length, ..old(self)@.config },
                state: HasherState::Configured,
                ..old(self)@
            }),
    {
        self.config.set_hash_length(hash_length);
        self.state = HasherState::Configured;
    }

    /// Sets the number of passes, clamping 0 up to 1.
    pub fn configure_iterations(&mut self, iterations: u32)
        ensures
            final(self)@ == (HasherView {
                config: ConfigView {
                    iterations: if iterations == 0 {
                        1u32
                    } else {
                        iterations
                    },
                    ..old(self)@.config
                },
                state: HasherState::Configured,
                ..old(self)@
            }),
    {
        self.config.set_iterations(iterations);
        self.state = HasherState::Configured;
    }

    /// Sets the number of lanes, clamping 0 up to 1.
    pub fn configure_lanes(&mut self, lanes: u32)
        ensures
            final(self)@ == (HasherView {
                config: ConfigView {
                    lanes: if lanes == 0 {
                        1u32
                    } else {
                        lanes
                    },
                    ..old(self)@.config
                },
                state: HasherState::Configured,
                ..old(self)@
            }),
    {
        self.config.set_lanes(lanes);
        self.state = HasherState::Configured;
    }

    /// Sets the memory size in kibibytes.
    pub fn configure_memory_size(&mut self, memory_size: u32)
        ensures
            final(self)@ == (HasherView {
                config: ConfigView { memory_size, ..old(self)@.config },
                state: HasherState::Configured,
                ..old(self)@
            }),
    {
        self.config.set_memory_size(memory_size);
        self.state = HasherState::Configured;
    }

    /// Sets whether the password is cleared after each hash.
    pub fn configure_password_clearing(&mut self, boolean: bool)
        ensures
            final(self)@ == (HasherView {
                config: ConfigView { password_clearing: boolean, ..old(self)@.config },
                state: HasherState::Configured,
                ..old(self)@
            }),
    {
        self.config.set_password_clearing(boolean);
        self.state = HasherState::Configured;
    }

    /// Sets whether the secret key is cleared after each hash.
    pub fn configure_secret_key_clearing(&mut self, boolean: bool)
        ensures
            final(self)@ == (HasherView {
                config: ConfigView { secret_key_clearing: boolean, ..old(self)@.config },
                state: HasherState::Configured,
                ..old(self)@
            }),
    {
        self.config.set_secret_key_clearing(boolean);
        self.state = HasherState::Configured;
    }

    /// Sets the number of threads, clamping 0 up to 1.
    pub fn configure_threads(&mut self, threads: u32)
        ensures
            final(self)@ == (HasherView {
                config: ConfigView {
                    threads: if threads == 0 {
                        1u32
                    } else {
                        threads
                    },
                    ..old(self)@.config
                },
                state: HasherState::Configured,
                ..old(self)@
            }),
    {
        self.config.set_threads(threads);
        self.state = HasherState::Configured;
    }

    /// Sets the variant.
    pub fn configure_variant(&mut self, variant: Variant)
        ensures
            final(self)@ == (HasherView {
                config: ConfigView { variant, ..old(self)@.config },
                state: HasherState::Configured,
                ..old(self)@
            }),
    {
        self.config.set_variant(variant);
        self.state = HasherState::Configured;
    }

    /// Sets the version.
    pub fn configure_version(&mut self, version: Version)
        ensures
            final(self)@ == (HasherView {
                config: ConfigView { version, ..old(self)@.config },
                state: HasherState::Configured,
                ..old(self)@
            }),
    {
        self.config.set_version(version);
        self.state = HasherState::Configured;
    }

    /// Opts out of the random-salt guard, allowing a deterministic salt.
    pub fn opt_out_of_random_salt(&mut self)
        ensures
            final(self)@ == (HasherView {
                config: ConfigView { opt_out_of_random_salt: true, ..old(self)@.config },
                state: HasherState::Configured,
                ..old(self)@
            }),
    {
        self.config.set_opt_out_of_random_salt(true);
        self.state = HasherState::Configured;
    }

    /// Opts out of the secret-key guard, allowing hashing without one.
    pub fn opt_out_of_secret_key(&mut self)
        ensures
            final(self)@ == (HasherView {
                config: ConfigView { opt_out_of_secret_key: true, ..old(self)@.config },
                state: HasherState::Configured,
                ..old(self)@
            }),
    {
        self.config.set_opt_out_of_secret_key(true);
        self.state = HasherState::Configured;
    }

    /// Supplies the password.
    pub fn with_password(&mut self, password: &str)
        ensures
            final(self)@ == (HasherView {
                password: password.spec_bytes(),
                state: HasherState::Configured,
                ..old(self)@
            }),
    {
        self.password = SecureBytes::from_text(password);
        self.state = HasherState::Configured;
    }

    /// Supplies the secret key.
    pub fn with_secret_key(&mut self, secret_key: &str)
        ensures
            final(self)@ == (HasherView {
                secret_key: secret_key.spec_bytes(),
                state: HasherState::Configured,
                ..old(self)@
            }),
    {
        self.secret_key = SecureBytes::from_text(secret_key);
        self.state = HasherState::Configured;
    }

    /// Supplies a deterministic salt.  Hashing with it is only allowed
    /// under the explicit opt-out from random salts.
    pub fn with_salt(&mut self, salt: &str)
        ensures
            final(self)@.additional_data == old(self)@.additional_data,
            final(self)@.config == old(self)@.config,
            final(self)@.password == old(self)@.password,
            final(self)@.secret_key == old(self)@.secret_key,
            final(self)@.state == HasherState::Configured,
            final(self)@.salt matches Salt::Deterministic { bytes } && bytes@
                == salt.spec_bytes(),
    {
        self.salt = Salt::from_text(salt);
        self.state = HasherState::Configured;
    }

    /// Configures a random salt of the given length, drawn fresh on every
    /// hash call.
    pub fn with_random_salt(&mut self, len: u32)
        ensures
            final(self)@ == (HasherView {
                salt: Salt::Random { len },
                state: HasherState::Configured,
                ..old(self)@
            }),
    {
        self.salt = Salt::random(len);
        self.state = HasherState::Configured;
    }

    /// Supplies the additional data.
    pub fn with_additional_data(&mut self, additional_data: &str)
        ensures
            final(self)@ == (HasherView {
                additional_data: additional_data.spec_bytes(),
                state: HasherState::Configured,
                ..old(self)@
            }),
    {
        self.additional_data = SecureBytes::from_text(additional_data);
        self.state = HasherState::Configured;
    }

    /// The configuration.
    pub fn config(&self) -> (r: &Config)
        ensures
            r@ == self@.config,
    {
        &self.config
    }

    /// The password buffer.
    pub fn password(&self) -> (r: &SecureBytes)
        ensures
            r@ == self@.password,
    {
        &self.password
    }

    /// The secret-key buffer.
    pub fn secret_key(&self) -> (r: &SecureBytes)
        ensures
            r@ == self@.secret_key,
    {
        &self.secret_key
    }

    /// The additional-data buffer.
    pub fn additional_data(&self) -> (r: &SecureBytes)
        ensures
            r@ == self@.additional_data,
    {
        &self.additional_data
    }

    /// The salt policy.
    pub fn salt(&self) -> (r: &Salt)
        ensures
            *r == self@.salt,
    {
        &self.salt
    }

    /// The state of the builder.
    pub fn state(&self) -> (r: HasherState)
        ensures
            r == self@.state,
    {
        self.state
    }

    /// Applies the clearing policy to the password and the secret key.
    fn apply_clearing(&mut self)
        ensures
            final(self)@ == (HasherView {
                password: if old(self)@.config.password_clearing {
                    Seq::<u8>::empty()
                } else {
                    old(self)@.password
                },
                secret_key: if old(self)@.config.secret_key_clearing {
                    Seq::<u8>::empty()
                } else {
                    old(self)@.secret_key
                },
                ..old(self)@
            }),
    {
        if self.config.password_clearing() {
            self.password.clear();
        }
        if self.config.secret_key_clearing() {
            self.secret_key.clear();
        }
    }

    /// Hashes the supplied inputs and returns the raw record.
    ///
    /// A random salt is drawn fresh for this call; then the configuration
    /// is validated and the password, secret-key and salt guards checked,
    /// in that order; only then does the engine run.  The clearing policy
    /// is applied on every exit path, and the state advances to `Hashed`.
    pub fn hash_raw(&mut self) -> (r: Result<HashRaw, ErrorKind>)
        ensures
            final(self)@.additional_data == old(self)@.additional_data,
            final(self)@.config == old(self)@.config,
            final(self)@.salt == old(self)@.salt,
            final(self)@.state == HasherState::Hashed,
            final(self)@.password == (if old(self)@.config.password_clearing {
                Seq::<u8>::empty()
            } else {
                old(self)@.password
            }),
            final(self)@.secret_key == (if old(self)@.config.secret_key_clearing {
                Seq::<u8>::empty()
            } else {
                old(self)@.secret_key
            }),
            match r {
                Ok(h) => hash_raw_error(
                    old(self)@.config,
                    old(self)@.password.len(),
                    old(self)@.secret_key.len(),
                    old(self)@.additional_data.len(),
                    salt_spec_len(old(self)@.salt),
                    old(self)@.salt matches Salt::Random { .. },
                ) is None && hash_output_matches(old(self)@, h@),
                Err(e) => Some(e) == hash_raw_error(
                    old(self)@.config,
                    old(self)@.password.len(),
                    old(self)@.secret_key.len(),
                    old(self)@.additional_data.len(),
                    salt_spec_len(old(self)@.salt),
                    old(self)@.salt matches Salt::Random { .. },
                ),
            },
    {
        let is_random = self.salt.is_random();
        let salt_bytes: Vec<u8> = match &self.salt {
            Salt::Random { len } => random_vec(*len as usize),
            Salt::Deterministic { bytes } => vstd::slice::slice_to_vec(bytes.as_slice()),
        };
        if let Err(e) = self.config.validate() {
            self.apply_clearing();
            self.state = HasherState::Hashed;
            return Err(e);
        }
        if self.password.is_empty() {
            self.apply_clearing();
            self.state = HasherState::Hashed;
            return Err(ErrorKind::Data(DataError::PasswordMissing));
        }
        if self.secret_key.is_empty() && !self.config.opt_out_of_secret_key() {
            self.apply_clearing();
            self.state = HasherState::Hashed;
            return Err(ErrorKind::Data(DataError::SecretKeyMissing));
        }
        if !is_random && !self.config.opt_out_of_random_salt() {
            self.apply_clearing();
            self.state = HasherState::Hashed;
            return Err(ErrorKind::Data(DataError::SaltNonRandom));
        }
        let variant = self.config.variant();
        let version = self.config.version();
        let result = engine_hash_raw(
            self.password.as_bytes(),
            salt_bytes.as_slice(),
            self.secret_key.as_bytes(),
            self.additional_data.as_bytes(),
            variant.code(),
            version.code(),
            self.config.memory_size(),
            self.config.iterations(),
            self.config.lanes(),
            self.config.threads(),
            self.config.hash_length(),
        );
        let iterations = self.config.iterations();
        let lanes = self.config.lanes();
        let memory_size = self.config.memory_size();
        self.apply_clearing();
        self.state = HasherState::Hashed;
        match result {
            Ok(raw_hash_bytes) => Ok(
                HashRaw::new(
                    iterations,
                    lanes,
                    memory_size,
                    raw_hash_bytes,
                    salt_bytes,
                    variant,
                    version,
                ),
            ),
            Err(_) => Err(ErrorKind::Bug),
        }
    }

    /// Hashes the supplied inputs and returns the PHC-encoded string.
    ///
    /// On success the string is the canonical encoding of a record that
    /// the raw-hash contract describes, and decoding it yields that record
    /// back.
    pub fn hash(&mut self) -> (r: Result<String, ErrorKind>)
        ensures
            final(self)@.additional_data == old(self)@.additional_data,
            final(self)@.config == old(self)@.config,
            final(self)@.salt == old(self)@.salt,
            final(self)@.state == HasherState::Hashed,
            final(self)@.password == (if old(self)@.config.password_clearing {
                Seq::<u8>::empty()
            } else {
                old(self)@.password
            }),
            final(self)@.secret_key == (if old(self)@.config.secret_key_clearing {
                Seq::<u8>::empty()
            } else {
                old(self)@.secret_key
            }),
            match r {
                Ok(s) => hash_raw_error(
                    old(self)@.config,
                    old(self)@.password.len(),
                    old(self)@.secret_key.len(),
                    old(self)@.additional_data.len(),
                    salt_spec_len(old(self)@.salt),
                    old(self)@.salt matches Salt::Random { .. },
                ) is None && s.is_ascii() && (exists|hv: HashRawView|
                    #[trigger] hash_output_matches(old(self)@, hv)
                        && vstd::utf8::encode_utf8(s@) == spec_encode(hv) && decode_spec(
                        spec_encode(hv),
                    ) == Ok::<HashRawView, ErrorKind>(hv)),
                Err(e) => Some(e) == hash_raw_error(
                    old(self)@.config,
                    old(self)@.password.len(),
                    old(self)@.secret_key.len(),
                    old(self)@.additional_data.len(),
                    salt_spec_len(old(self)@.salt),
                    old(self)@.salt matches Salt::Random { .. },
                ),
            },
    {
        match self.hash_raw() {
            Ok(hash_raw) => {
                let s = encode(&hash_raw);
                proof {
                    let hv = hash_raw@;
                    assert(hash_output_matches(old(self)@, hv) && vstd::utf8::encode_utf8(s@)
                        == spec_encode(hv) && decode_spec(spec_encode(hv)) == Ok::<
                        HashRawView,
                        ErrorKind,
                    >(hv));
                }
                Ok(s)
            },
            Err(e) => Err(e),
        }
    }
}

} // verus!
