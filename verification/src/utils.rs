//! Utilities for generating random bytes, useful for example for
//! generating secret keys.

use vstd::prelude::*;

use crate::error::ErrorKind;
use crate::outside::{b64_encode_std, random_vec};

verus! {

/// Generates `length` cryptographically secure random bytes.
pub fn generate_random_bytes(length: u32) -> (r: Result<Vec<u8>, ErrorKind>)
    ensures
        r matches Ok(v) && v@.len() == length,
{
    Ok(random_vec(length as usize))
}

/// Generates `length` cryptographically secure random bytes and encodes
/// them with the padded standard base64 alphabet.
pub fn generate_random_base64_encoded_string(length: u32) -> (r: Result<String, ErrorKind>)
    ensures
        r matches Ok(s) && s@.len() == 4 * (((length as nat) + 2) / 3),
{
    let bytes = random_vec(length as usize);
    Ok(b64_encode_std(bytes.as_slice()))
}

} // verus!
