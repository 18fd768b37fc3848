//! The trusted boundary: every call into an outside crate, and into the few
//! std functions that vstd leaves unspecified, goes through one of the
//! wrappers in this module.  Each wrapper's contract states what the called
//! function's own source or documentation shows, and nothing more.

use base64::Engine;
use rand::RngCore;
use vstd::prelude::*;

verus! {

// ------------------------------------------------------------------ base64

/// The bytes of the standard base64 alphabet: `A`-`Z`, `a`-`z`, `0`-`9`,
/// `+` and `/`.  All are ASCII and none is the `$` delimiter.
pub open spec fn is_b64_byte(b: u8) -> bool {
    (65 <= b <= 90) || (97 <= b <= 122) || (48 <= b <= 57) || b == 43 || b == 47
}

/// What base64 encoding with the standard alphabet and no padding returns
/// on a byte sequence.
pub uninterp spec fn b64_of(b: Seq<u8>) -> Seq<u8>;

/// Relies on `base64::engine::general_purpose::STANDARD_NO_PAD.encode`:
/// standard-alphabet, unpadded encoding.  Every output byte is in the
/// standard alphabet, and distinct inputs have distinct encodings.
#[verifier::external_body]
pub fn b64_encode(b: &[u8]) -> (r: Vec<u8>)
    ensures
        r@ == b64_of(b@),
        forall|i: int| 0 <= i < r@.len() ==> is_b64_byte(#[trigger] r@[i]),
        forall|b2: Seq<u8>| #[trigger] b64_of(b2) == r@ ==> b2 == b@,
{
    base64::engine::general_purpose::STANDARD_NO_PAD.encode(b).into_bytes()
}

/// Relies on `base64::engine::general_purpose::STANDARD_NO_PAD.decode`: it
/// accepts exactly the canonical unpadded encodings (its padding mode is
/// `RequireNone` and it rejects non-zero trailing bits), so a success
/// returns the unique preimage of the input under the encoding, and a
/// failure means that no byte sequence encodes to the input.
#[verifier::external_body]
pub fn b64_decode(s: &[u8]) -> (r: Result<Vec<u8>, ()>)
    ensures
        match r {
            Ok(d) => b64_of(d@) == s@ && (forall|b: Seq<u8>| #[trigger] b64_of(b) == s@
                ==> b == d@),
            Err(_) => forall|b: Seq<u8>| #![trigger b64_of(b)] b64_of(b) != s@,
        },
{
    match base64::engine::general_purpose::STANDARD_NO_PAD.decode(s) {
        Ok(d) => Ok(d),
        Err(_) => Err(()),
    }
}

/// Relies on `base64::engine::general_purpose::STANDARD.encode`: standard
/// alphabet with padding; the output is ASCII and four characters long for
/// every started group of three input bytes.
#[verifier::external_body]
pub fn b64_encode_std(b: &[u8]) -> (r: String)
    ensures
        r@.len() == 4 * ((b@.len() + 2) / 3),
        r.is_ascii(),
{
    base64::engine::general_purpose::STANDARD.encode(b)
}

// -------------------------------------------------------------------- std

/// Relies on `String::from_utf8`: bytes below 128 are valid UTF-8, so the
/// result is the ASCII string whose UTF-8 bytes are exactly the given
/// bytes.
#[verifier::external_body]
pub fn string_from_ascii(v: Vec<u8>) -> (r: String)
    requires
        forall|i: int| 0 <= i < v@.len() ==> v@[i] < 128,
    ensures
        vstd::utf8::encode_utf8(r@) == v@,
        r.is_ascii(),
{
    match String::from_utf8(v) {
        Ok(s) => s,
        Err(_) => String::new(),
    }
}

// ------------------------------------------------------------------- rand

/// Relies on `rand::rngs::OsRng` and `rand::RngCore::fill_bytes`: the
/// buffer is filled from the operating system's cryptographically secure
/// random source.  Nothing can be promised of the bytes themselves.
#[verifier::external_body]
pub fn random_vec(len: usize) -> (r: Vec<u8>)
    ensures
        r@.len() == len,
{
    let mut v = vec![0u8; len];
    rand::rngs::OsRng.fill_bytes(&mut v);
    v
}

// --------------------------------------------------------------- num_cpus

/// Relies on `num_cpus::get`: the number of logical cores available to the
/// process, documented to always be at least 1.
#[verifier::external_body]
pub fn cpu_count() -> (n: usize)
    ensures
        1 <= n,
{
    num_cpus::get()
}

// ------------------------------------------------------------ the engine

/// The error type of the `rust-argon2` engine, opaque to this library.
#[verifier::external_type_specification]
#[verifier::external_body]
pub struct ExArgonError(argon2::Error);

/// What the Argon2 engine computes: the raw hash bytes as a function of the
/// variant and version codes, the cost parameters, the input byte sequences
/// and the requested output length.  The lane count changes the result; the
/// thread count does not.
pub uninterp spec fn argon2_of(
    variant: u32,
    version: u32,
    memory_size: u32,
    iterations: u32,
    lanes: u32,
    password: Seq<u8>,
    salt: Seq<u8>,
    secret_key: Seq<u8>,
    additional_data: Seq<u8>,
    hash_length: u32,
) -> Seq<u8>;

/// The validation the engine applies before it computes anything (on 64-bit
/// targets): lane count in range, at least 8 kibibytes of memory and 8 per
/// lane, at least one iteration, a salt of at least 8 bytes, a hash of at
/// least 4 bytes, and every input short enough for a 32-bit length field.
pub open spec fn engine_accepts(
    memory_size: u32,
    iterations: u32,
    lanes: u32,
    password_len: nat,
    salt_len: nat,
    secret_key_len: nat,
    additional_data_len: nat,
    hash_length: u32,
) -> bool {
    &&& 1 <= lanes <= 0xFF_FFFF
    &&& 8 <= memory_size
    &&& memory_size >= 8 * lanes
    &&& 1 <= iterations
    &&& password_len <= 0xFFFF_FFFF
    &&& 8 <= salt_len <= 0xFFFF_FFFF
    &&& secret_key_len <= 0xFFFF_FFFF
    &&& additional_data_len <= 0xFFFF_FFFF
    &&& 4 <= hash_length
}

/// Relies on `argon2::hash_raw` of the `rust-argon2` crate: it first
/// validates its inputs exactly as `engine_accepts` says (`Context::new`),
/// then deterministically computes the Argon2 hash of the inputs into a
/// vector of the requested length; the thread mode does not change the
/// result.
#[verifier::external_body]
pub fn engine_hash_raw(
    password: &[u8],
    salt: &[u8],
    secret_key: &[u8],
    additional_data: &[u8],
    variant: u32,
    version: u32,
    memory_size: u32,
    iterations: u32,
    lanes: u32,
    threads: u32,
    hash_length: u32,
) -> (r: Result<Vec<u8>, argon2::Error>)
    requires
        variant == 0 || variant == 1 || variant == 2,
        version == 16 || version == 19,
    ensures
        r is Ok <==> engine_accepts(
            memory_size,
            iterations,
            lanes,
            password@.len(),
            salt@.len(),
            secret_key@.len(),
            additional_data@.len(),
            hash_length,
        ),
        r matches Ok(v) ==> v@ == argon2_of(
            variant,
            version,
            memory_size,
            iterations,
            lanes,
            password@,
            salt@,
            secret_key@,
            additional_data@,
            hash_length,
        ) && v@.len() == hash_length,
{
    let config = argon2::Config {
        ad: additional_data,
        hash_length,
        lanes,
        mem_cost: memory_size,
        secret: secret_key,
        thread_mode: argon2::ThreadMode::from_threads(threads),
        time_cost: iterations,
        variant: argon2::Variant::from_u32(variant).unwrap(),
        version: argon2::Version::from_u32(version).unwrap(),
    };
    argon2::hash_raw(password, salt, &config)
}

/// Relies on `argon2::verify_raw` of the `rust-argon2` crate: it validates
/// as `engine_accepts` says with the expected hash's length as the output
/// length, recomputes the hash of the supplied inputs, and compares it
/// against the expected hash in constant time.
#[verifier::external_body]
pub fn engine_verify_raw(
    password: &[u8],
    salt: &[u8],
    expected_hash: &[u8],
    secret_key: &[u8],
    additional_data: &[u8],
    variant: u32,
    version: u32,
    memory_size: u32,
    iterations: u32,
    lanes: u32,
    threads: u32,
) -> (r: Result<bool, argon2::Error>)
    requires
        variant == 0 || variant == 1 || variant == 2,
        version == 16 || version == 19,
        expected_hash@.len() <= 0xFFFF_FFFF,
    ensures
        r is Ok <==> engine_accepts(
            memory_size,
            iterations,
            lanes,
            password@.len(),
            salt@.len(),
            secret_key@.len(),
            additional_data@.len(),
            expected_hash@.len() as u32,
        ),
        r matches Ok(b) ==> b == (argon2_of(
            variant,
            version,
            memory_size,
            iterations,
            lanes,
            password@,
            salt@,
            secret_key@,
            additional_data@,
            expected_hash@.len() as u32,
        ) == expected_hash@),
{
    let config = argon2::Config {
        ad: additional_data,
        hash_length: 0,
        lanes,
        mem_cost: memory_size,
        secret: secret_key,
        thread_mode: argon2::ThreadMode::from_threads(threads),
        time_cost: iterations,
        variant: argon2::Variant::from_u32(variant).unwrap(),
        version: argon2::Version::from_u32(version).unwrap(),
    };
    argon2::verify_raw(password, salt, expected_hash, &config)
}

} // verus!
