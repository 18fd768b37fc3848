//! Sensitive data handling: an owned byte buffer that can be zeroed and
//! emptied on demand, and the salt policy (fresh random bytes on every
//! hash, or caller-supplied deterministic bytes).

use vstd::prelude::*;
use vstd::string::{StrSliceExecFns, StringSliceAdditionalSpecFns};

verus! {

/// An owned byte buffer for a password, secret key, salt or additional
/// data.  Its one extra capability over a plain vector is `clear`, which
/// overwrites every byte with zero and then empties the buffer.
#[derive(Debug)]
pub struct SecureBytes {
    bytes: Vec<u8>,
}

impl View for SecureBytes {
    type V = Seq<u8>;

    closed spec fn view(&self) -> Seq<u8> {
        self.bytes@
    }
}

impl SecureBytes {
    /// Wraps caller-supplied bytes.
    pub fn new(bytes: Vec<u8>) -> (r: SecureBytes)
        ensures
            r@ == bytes@,
    {
        SecureBytes { bytes }
    }

    /// An empty buffer.
    pub fn empty() -> (r: SecureBytes)
        ensures
            r@ == Seq::<u8>::empty(),
    {
        SecureBytes { bytes: Vec::new() }
    }

    /// Wraps the UTF-8 bytes of a string.
    pub fn from_text(text: &str) -> (r: SecureBytes)
        ensures
            r@ == text.spec_bytes(),
    {
        SecureBytes { bytes: text.as_bytes_vec() }
    }

    /// The held bytes.
    pub fn as_bytes(&self) -> (r: &[u8])
        ensures
            r@ == self@,
    {
        self.bytes.as_slice()
    }

    /// The number of held bytes.
    pub fn len(&self) -> (r: usize)
        ensures
            r == self@.len(),
    {
        self.bytes.len()
    }

    /// Whether the buffer is empty.
    pub fn is_empty(&self) -> (r: bool)
        ensures
            r == (self@.len() == 0),
    {
        self.bytes.len() == 0
    }

    /// Overwrites every held byte with zero, then empties the buffer, so
    /// that neither this buffer nor the freed storage still holds the
    /// secret.
    pub fn clear(&mut self)
        ensures
            final(self)@ == Seq::<u8>::empty(),
    {
        let n = self.bytes.len();
        let mut i: usize = 0;
        while i < n
            invariant
                n == self.bytes.len(),
                i <= n,
                forall|j: int| 0 <= j < i ==> self.bytes@[j] == 0u8,
            decreases n - i,
        {
            self.bytes[i] = 0;
            i = i + 1;
        }
        self.bytes.clear();
    }
}

/// The salt policy of a `Hasher`: either fresh random bytes of a fixed
/// length, drawn anew before every hash, or deterministic caller-supplied
/// bytes, which the hash call accepts only under the explicit opt-out from
/// random salts.
#[derive(Debug)]
pub enum Salt {
    /// Fresh random bytes of the given length on every hash call.
    Random {
        /// How many random bytes to draw.
        len: u32,
    },
    /// Caller-supplied bytes, used as they are.
    Deterministic {
        /// The supplied salt bytes.
        bytes: Vec<u8>,
    },
}

impl Salt {
    /// A random salt of the given length.
    pub fn random(len: u32) -> (r: Salt)
        ensures
            r == (Salt::Random { len }),
    {
        Salt::Random { len }
    }

    /// A deterministic salt holding the given bytes.
    pub fn deterministic(bytes: Vec<u8>) -> (r: Salt)
        ensures
            r matches Salt::Deterministic { bytes: b } && b@ == bytes@,
    {
        Salt::Deterministic { bytes }
    }

    /// A deterministic salt holding the UTF-8 bytes of a string.
    pub fn from_text(text: &str) -> (r: Salt)
        ensures
            r matches Salt::Deterministic { bytes: b } && b@ == text.spec_bytes(),
    {
        Salt::Deterministic { bytes: text.as_bytes_vec() }
    }

    /// Whether this salt is drawn anew on every hash call.
    pub fn is_random(&self) -> (r: bool)
        ensures
            r == (self matches Salt::Random { .. }),
    {
        match self {
            Salt::Random { .. } => true,
            Salt::Deterministic { .. } => false,
        }
    }

    /// The length in bytes of the salt the next hash call will use.
    pub fn len(&self) -> (r: usize)
        ensures
            r == (match self {
                Salt::Random { len } => len as nat,
                Salt::Deterministic { bytes } => bytes@.len(),
            }),
    {
        match self {
            Salt::Random { len } => *len as usize,
            Salt::Deterministic { bytes } => bytes.len(),
        }
    }
}

impl Default for Salt {
    /// A random salt of the default length.
    fn default() -> (r: Salt)
        ensures
            r == (Salt::Random { len: crate::config::DEFAULT_SALT_LENGTH }),
    {
        Salt::Random { len: crate::config::DEFAULT_SALT_LENGTH }
    }
}

} // verus!
