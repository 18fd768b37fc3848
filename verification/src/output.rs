//! The canonical decoded hash record.  A `HashRaw` is produced either by a
//! hash operation or by decoding a hash string, and is the single source of
//! truth that both the encoder and the verification path consume.

use vstd::prelude::*;

use crate::config::{Variant, Version};

verus! {

/// The mathematical value of a `HashRaw`.
#[verifier::ext_equal]
pub ghost struct HashRawView {
    pub iterations: u32,
    pub lanes: u32,
    pub memory_size: u32,
    pub raw_hash_bytes: Seq<u8>,
    pub raw_salt_bytes: Seq<u8>,
    pub variant: Variant,
    pub version: Version,
}

/// A decoded hash record: the cost parameters, the variant and version,
/// the salt bytes and the hash bytes.  Immutable once constructed.
#[derive(Debug)]
pub struct HashRaw {
    iterations: u32,
    lanes: u32,
    memory_size: u32,
    raw_hash_bytes: Vec<u8>,
    raw_salt_bytes: Vec<u8>,
    variant: Variant,
    version: Version,
}

impl View for HashRaw {
    type V = HashRawView;

    closed spec fn view(&self) -> HashRawView {
        HashRawView {
            iterations: self.iterations,
            lanes: self.lanes,
            memory_size: self.memory_size,
            raw_hash_bytes: self.raw_hash_bytes@,
            raw_salt_bytes: self.raw_salt_bytes@,
            variant: self.variant,
            version: self.version,
        }
    }
}

impl HashRaw {
    /// Assembles a record from its parts.
    pub fn new(
        iterations: u32,
        lanes: u32,
        memory_size: u32,
        raw_hash_bytes: Vec<u8>,
        raw_salt_bytes: Vec<u8>,
        variant: Variant,
        version: Version,
    ) -> (r: HashRaw)
        ensures
            r@ == (HashRawView {
                iterations,
                lanes,
                memory_size,
                raw_hash_bytes: raw_hash_bytes@,
                raw_salt_bytes: raw_salt_bytes@,
                variant,
                version,
            }),
    {
        HashRaw { iterations, lanes, memory_size, raw_hash_bytes, raw_salt_bytes, variant, version }
    }

    /// The number of passes.
    pub fn iterations(&self) -> (r: u32)
        ensures
            r == self@.iterations,
    {
        self.iterations
    }

    /// The number of lanes.
    pub fn lanes(&self) -> (r: u32)
        ensures
            r == self@.lanes,
    {
        self.lanes
    }

    /// The memory size in kibibytes.
    pub fn memory_size(&self) -> (r: u32)
        ensures
            r == self@.memory_size,
    {
        self.memory_size
    }

    /// The raw hash bytes.
    pub fn raw_hash_bytes(&self) -> (r: &[u8])
        ensures
            r@ == self@.raw_hash_bytes,
    {
        self.raw_hash_bytes.as_slice()
    }

    /// The raw salt bytes.
    pub fn raw_salt_bytes(&self) -> (r: &[u8])
        ensures
            r@ == self@.raw_salt_bytes,
    {
        self.raw_salt_bytes.as_slice()
    }

    /// The variant.
    pub fn variant(&self) -> (r: Variant)
        ensures
            r == self@.variant,
    {
        self.variant
    }

    /// The version.
    pub fn version(&self) -> (r: Version)
        ensures
            r == self@.version,
    {
        self.version
    }
}

impl PartialEq for HashRaw {
    /// Two records are equal when every field is.
    fn eq(&self, other: &HashRaw) -> (r: bool)
    {
        let r = self.iterations == other.iterations && self.lanes == other.lanes
            && self.memory_size == other.memory_size
            && self.raw_hash_bytes == other.raw_hash_bytes
            && self.raw_salt_bytes == other.raw_salt_bytes && self.variant == other.variant
            && self.version == other.version;
        proof {
            if r {
                assert(self@ =~= other@);
            }
        }
        r
    }
}

impl vstd::std_specs::cmp::PartialEqSpecImpl for HashRaw {
    open spec fn obeys_eq_spec() -> bool {
        true
    }

    open spec fn eq_spec(&self, other: &HashRaw) -> bool {
        self@ == other@
    }
}

impl Eq for HashRaw {

}

} // verus!
