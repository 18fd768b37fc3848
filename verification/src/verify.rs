//! The verification state machine: a builder that takes a candidate hash
//! string and a password, reconstructs the parameters by decoding the
//! string, delegates the comparison to the engine, and clears secrets per
//! policy on every exit path.

use vstd::prelude::*;
use vstd::string::StringSliceAdditionalSpecFns;

use crate::codec::{decode, decode_spec, spec_encode};
use crate::config::{variant_code, version_code, Backend, Config, ConfigView};
use crate::data::SecureBytes;
use crate::error::ErrorKind;
use crate::hasher::{hash_raw_error, hash_raw_output};
use crate::output::HashRawView;
use crate::outside::{argon2_of, engine_accepts, engine_verify_raw};

verus! {

/// The linear state of a `Verifier`.
#[derive(Clone, Copy, Debug, PartialEq, Eq, Structural)]
pub enum VerifierState {
    /// Freshly constructed; nothing set beyond the defaults.
    Unconfigured,
    /// At least one input or parameter has been supplied.
    Configured,
    /// A verify operation has run; cleared inputs must be resupplied.
    Verified,
}

/// The mathematical value of a `Verifier`.
pub ghost struct VerifierView {
    pub additional_data: Seq<u8>,
    pub config: ConfigView,
    pub hash: Option<Seq<char>>,
    pub password: Seq<u8>,
    pub secret_key: Seq<u8>,
    pub state: VerifierState,
}

/// What a verify operation returns: an internal fault without a hash
/// string; the decode fault, unchanged, for a string that does not parse;
/// an internal fault when the decoded parameters fail the engine's own
/// validation; and otherwise whether the engine's recomputed hash equals
/// the decoded hash bytes.
pub open spec fn verify_outcome(
    hash: Option<Seq<char>>,
    password: Seq<u8>,
    secret_key: Seq<u8>,
    additional_data: Seq<u8>,
) -> Result<bool, ErrorKind> {
    match hash {
        None => Err(ErrorKind::Bug),
        Some(chars) => match decode_spec(vstd::utf8::encode_utf8(chars)) {
            Err(e) => Err(e),
            Ok(h) => if h.raw_hash_bytes.len() > 0xFFFF_FFFF || !engine_accepts(
                h.memory_size,
                h.iterations,
                h.lanes,
                password.len(),
                h.raw_salt_bytes.len(),
                secret_key.len(),
                additional_data.len(),
                h.raw_hash_bytes.len() as u32,
            ) {
                Err(ErrorKind::Bug)
            } else {
                Ok(
                    argon2_of(
                        variant_code(h.variant),
                        version_code(h.version),
                        h.memory_size,
                        h.iterations,
                        h.lanes,
                        password,
                        h.raw_salt_bytes,
                        secret_key,
                        additional_data,
                        h.raw_hash_bytes.len() as u32,
                    ) == h.raw_hash_bytes,
                )
            },
        },
    }
}

/// The verification builder and state machine.
#[derive(Debug)]
pub struct Verifier {
    additional_data: SecureBytes,
    config: Config,
    hash: Option<String>,
    password: SecureBytes,
    secret_key: SecureBytes,
    state: VerifierState,
}

impl View for Verifier {
    type V = VerifierView;

    closed spec fn view(&self) -> VerifierView {
        VerifierView {
            additional_data: self.additional_data@,
            config: self.config@,
            hash: match self.hash {
                Some(s) => Some(s@),
                None => None,
            },
            password: self.password@,
            secret_key: self.secret_key@,
            state: self.state,
        }
    }
}

impl Default for Verifier {
    /// A verifier with the default configuration and no inputs.
    fn default() -> (r: Verifier)
        ensures
            r@.additional_data == Seq::<u8>::empty(),
            r@.password == Seq::<u8>::empty(),
            r@.secret_key == Seq::<u8>::empty(),
            r@.hash is None,
            r@.state == VerifierState::Unconfigured,
            r@.config.backend == Backend::C,
            r@.config.password_clearing,
            !r@.config.secret_key_clearing,
            1 <= r@.config.threads,
    {
        Verifier {
            additional_data: SecureBytes::empty(),
            config: Config::default(),
            hash: None,
            password: SecureBytes::empty(),
            secret_key: SecureBytes::empty(),
            state: VerifierState::Unconfigured,
        }
    }
}

impl Verifier {
    /// Sets the backend.
    pub fn configure_backend(&mut self, backend: Backend)
        ensures
            final(self)@ == (VerifierView {
                config: ConfigView { backend, ..old(self)@.config },
                state: VerifierState::Configured,
                ..old(self)@
            }),
    {
        self.config.set_backedn(backend);
        self.state = VerifierState::Configured;
    }

    /// Sets whether the password is cleared after each verify.
    pub fn configure_password_clearing(&mut self, boolean: bool)
        ensures
            final(self)@ == (VerifierView {
                config: ConfigView { password_clearing: boolean, ..old(self)@.config },
                state: VerifierState::Configured,
                ..old(self)@
            }),
    {
        self.config.set_password_clearing(boolean);
        self.state = VerifierState::Configured;
    }

    /// Sets whether the secret key is cleared after each verify.
    pub fn configure_secret_key_clearing(&mut self, boolean: bool)
        ensures
            final(self)@ == (VerifierView {
                config: ConfigView { secret_key_clearing: boolean, ..old(self)@.config },
                state: VerifierState::Configured,
                ..old(self)@
            }),
    {
        self.config.set_secret_key_clearing(boolean);
        self.state = VerifierState::Configured;
    }

    /// Sets the number of threads, clamping 0 up to 1.
    pub fn configure_threads(&mut self, threads: u32)
        ensures
            final(self)@ == (VerifierView {
                config: ConfigView {
                    threads: if threads == 0 {
                        1u32
                    } else {
                        threads
                    },
                    ..old(self)@.config
                },
                state: VerifierState::Configured,
                ..old(self)@
            }),
    {
        self.config.set_threads(threads);
        self.state = VerifierState::Configured;
    }

    /// Supplies the candidate hash string.
    pub fn with_hash(&mut self, hash: &str)
        ensures
            final(self)@ == (VerifierView {
                hash: Some(hash@),
                state: VerifierState::Configured,
                ..old(self)@
            }),
    {
        self.hash = Some(hash.to_owned());
        self.state = VerifierState::Configured;
    }

    /// Supplies the password to check.
    pub fn with_password(&mut self, password: &str)
        ensures
            final(self)@ == (VerifierView {
                password: password.spec_bytes(),
                state: VerifierState::Configured,
                ..old(self)@
            }),
    {
        self.password = SecureBytes::from_text(password);
        self.state = VerifierState::Configured;
    }

    /// Supplies the secret key that was used to create the hash.
    pub fn with_secret_key(&mut self, secret_key: &str)
        ensures
            final(self)@ == (VerifierView {
                secret_key: secret_key.spec_bytes(),
                state: VerifierState::Configured,
                ..old(self)@
            }),
    {
        self.secret_key = SecureBytes::from_text(secret_key);
        self.state = VerifierState::Configured;
    }

    /// Supplies the additional data that was mixed into the hash.
    pub fn with_additional_data(&mut self, additional_data: &str)
        ensures
            final(self)@ == (VerifierView {
                additional_data: additional_data.spec_bytes(),
                state: VerifierState::Configured,
                ..old(self)@
            }),
    {
        self.additional_data = SecureBytes::from_text(additional_data);
        self.state = VerifierState::Configured;
    }

    /// The configuration.
    pub fn config(&self) -> (r: &Config)
        ensures
            r@ == self@.config,
    {
        &self.config
    }

    /// The candidate hash string, if one has been supplied.
    pub fn hash(&self) -> (r: &Option<String>)
        ensures
            match r {
                Some(s) => self@.hash == Some(s@),
                None => self@.hash is None,
            },
    {
        &self.hash
    }

    /// The password buffer.
    pub fn password(&self) -> (r: &SecureBytes)
        ensures
            r@ == self@.password,
    {
        &self.password
    }

    /// The secret-key buffer.
    pub fn secret_key(&self) -> (r: &SecureBytes)
        ensures
            r@ == self@.secret_key,
    {
        &self.secret_key
    }

    /// The additional-data buffer.
    pub fn additional_data(&self) -> (r: &SecureBytes)
        ensures
            r@ == self@.additional_data,
    {
        &self.additional_data
    }

    /// The state of the builder.
    pub fn state(&self) -> (r: VerifierState)
        ensures
            r == self@.state,
    {
        self.state
    }

    /// Applies the clearing policy to the password and the secret key.
    fn apply_clearing(&mut self)
        ensures
            final(self)@ == (VerifierView {
                password: if old(self)@.config.password_clearing {
                    Seq::<u8>::empty()
                } else {
                    old(self)@.password
                },
                secret_key: if old(self)@.config.secret_key_clearing {
                    Seq::<u8>::empty()
                } else {
                    old(self)@.secret_key
                },
                ..old(self)@
            }),
    {
        if self.config.password_clearing() {
            self.password.clear();
        }
        if self.config.secret_key_clearing() {
            self.secret_key.clear();
        }
    }

    /// Verifies the password against the supplied hash string.
    ///
    /// The string is decoded, the engine recomputes the hash with the
    /// decoded parameters and the supplied secret material, and compares
    /// in constant time.  The clearing policy is applied on every exit
    /// path, and the state advances to `Verified`.
    pub fn verify(&mut self) -> (r: Result<bool, ErrorKind>)
        ensures
            final(self)@.additional_data == old(self)@.additional_data,
            final(self)@.config == old(self)@.config,
            final(self)@.hash == old(self)@.hash,
            final(self)@.state == VerifierState::Verified,
            final(self)@.password == (if old(self)@.config.password_clearing {
                Seq::<u8>::empty()
            } else {
                old(self)@.password
            }),
            final(self)@.secret_key == (if old(self)@.config.secret_key_clearing {
                Seq::<u8>::empty()
            } else {
                old(self)@.secret_key
            }),
            r == verify_outcome(
                old(self)@.hash,
                old(self)@.password,
                old(self)@.secret_key,
                old(self)@.additional_data,
            ),
    {
        let hash_string: String = match &self.hash {
            None => {
                self.apply_clearing();
                self.state = VerifierState::Verified;
                return Err(ErrorKind::Bug);
            },
            Some(s) => s.clone(),
        };
        let decoded = match decode(hash_string.as_str()) {
            Ok(h) => h,
            Err(e) => {
                self.apply_clearing();
                self.state = VerifierState::Verified;
                return Err(e);
            },
        };
        if decoded.raw_hash_bytes().len() > u32::MAX as usize {
            self.apply_clearing();
            self.state = VerifierState::Verified;
            return Err(ErrorKind::Bug);
        }
        let variant = decoded.variant();
        let version = decoded.version();
        let result = engine_verify_raw(
            self.password.as_bytes(),
            decoded.raw_salt_bytes(),
            decoded.raw_hash_bytes(),
            self.secret_key.as_bytes(),
            self.additional_data.as_bytes(),
            variant.code(),
            version.code(),
            decoded.memory_size(),
            decoded.iterations(),
            decoded.lanes(),
            self.config.threads(),
        );
        self.apply_clearing();
        self.state = VerifierState::Verified;
        match result {
            Ok(b) => Ok(b),
            Err(_) => Err(ErrorKind::Bug),
        }
    }
}

/// Hash-then-verify: a record that a hash operation produced for a
/// password, secret key and additional data, encoded to its hash string,
/// verifies as a match against the same password, secret key and
/// additional data.  The hypotheses are exactly what the hash operation's
/// contract guarantees of its output record and string.
pub proof fn lemma_hash_then_verify(
    c: ConfigView,
    password: Seq<u8>,
    secret_key: Seq<u8>,
    additional_data: Seq<u8>,
    salt_random: bool,
    hv: HashRawView,
    s: Seq<char>,
)
    requires
        hash_raw_error(
            c,
            password.len(),
            secret_key.len(),
            additional_data.len(),
            hv.raw_salt_bytes.len(),
            salt_random,
        ) is None,
        hv == hash_raw_output(c, password, secret_key, additional_data, hv.raw_salt_bytes),
        hv.raw_hash_bytes.len() == c.hash_length,
        vstd::utf8::encode_utf8(s) == spec_encode(hv),
        decode_spec(spec_encode(hv)) == Ok::<HashRawView, ErrorKind>(hv),
    ensures
        verify_outcome(Some(s), password, secret_key, additional_data) == Ok::<bool, ErrorKind>(
            true,
        ),
{
}

} // verus!
