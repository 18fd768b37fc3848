//! Tests of the PHC string codec: round trips, exact encodings, and the
//! fault reported for each kind of malformed string.

use a2::{decode, encode, DataError, EncodingError, ErrorKind, HashRaw, Variant, Version};

fn sample_raw() -> HashRaw {
    HashRaw::new(
        128,
        2,
        4096,
        vec![1u8, 2, 3, 4, 5, 6, 7, 8, 9, 10, 11, 12, 13, 14, 15, 16],
        b"somesalt".to_vec(),
        Variant::Argon2id,
        Version::_0x13,
    )
}

#[test]
fn encode_produces_exact_string() {
    let s = encode(&sample_raw());
    assert_eq!(s, "$argon2id$v=19$m=4096,t=128,p=2$c29tZXNhbHQ$AQIDBAUGBwgJCgsMDQ4PEA");
}

#[test]
fn round_trip_decode_of_encode() {
    let h = sample_raw();
    let s = encode(&h);
    let back = decode(&s).unwrap();
    assert!(back == h);
}

#[test]
fn round_trip_empty_salt_and_hash() {
    let h = HashRaw::new(1, 1, 8, Vec::new(), Vec::new(), Variant::Argon2d, Version::_0x10);
    let s = encode(&h);
    assert_eq!(s, "$argon2d$v=16$m=8,t=1,p=1$$");
    let back = decode(&s).unwrap();
    assert!(back == h);
}

#[test]
fn round_trip_all_variants_and_versions() {
    for variant in [Variant::Argon2d, Variant::Argon2i, Variant::Argon2id] {
        for version in [Version::_0x10, Version::_0x13] {
            let h = HashRaw::new(
                3,
                4,
                1024,
                vec![0xFFu8, 0x00, 0x7F, 0x80],
                vec![9u8, 8, 7, 6, 5, 4, 3, 2],
                variant,
                version,
            );
            let s = encode(&h);
            let back = decode(&s).unwrap();
            assert!(back == h);
        }
    }
}

#[test]
fn decode_is_idempotent() {
    let s = "$argon2id$v=19$m=4096,t=128,p=2$c29tZXNhbHQ$AQIDBAUGBwgJCgsMDQ4PEA";
    let first = decode(s).unwrap();
    let second = decode(s).unwrap();
    assert!(first == second);
}

#[test]
fn decode_reads_every_field() {
    let h = decode("$argon2i$v=16$m=65536,t=3,p=4$c29tZXNhbHQ$AQIDBA").unwrap();
    assert_eq!(h.iterations(), 3);
    assert_eq!(h.lanes(), 4);
    assert_eq!(h.memory_size(), 65536);
    assert_eq!(h.variant(), Variant::Argon2i);
    assert_eq!(h.version(), Version::_0x10);
    assert_eq!(h.raw_salt_bytes(), b"somesalt");
    assert_eq!(h.raw_hash_bytes(), &[1u8, 2, 3, 4]);
}

#[test]
fn decode_rejects_malformed_structure() {
    // seven `$`-separated tokens instead of six
    let r = decode("$argon2id$v=19$m=4096,t=128,p=2$badbase64$$");
    assert_eq!(r.unwrap_err(), ErrorKind::Data(DataError::HashInvalid));
}

#[test]
fn decode_rejects_too_few_tokens() {
    let r = decode("$argon2id$v=19$m=4096,t=128,p=2$c29tZXNhbHQ");
    assert_eq!(r.unwrap_err(), ErrorKind::Data(DataError::HashInvalid));
}

#[test]
fn decode_rejects_missing_leading_dollar() {
    let r = decode("argon2id$v=19$m=4096,t=128,p=2$c29tZXNhbHQ$AQIDBA$");
    assert_eq!(r.unwrap_err(), ErrorKind::Data(DataError::HashInvalid));
}

#[test]
fn decode_rejects_unknown_variant() {
    let r = decode("$argon2x$v=19$m=4096,t=128,p=2$c29tZXNhbHQ$AQIDBA");
    assert_eq!(r.unwrap_err(), ErrorKind::Data(DataError::HashInvalid));
}

#[test]
fn decode_rejects_unknown_version_value() {
    let r = decode("$argon2id$v=18$m=4096,t=128,p=2$c29tZXNhbHQ$AQIDBA");
    assert_eq!(r.unwrap_err(), ErrorKind::Data(DataError::HashInvalid));
}

#[test]
fn decode_rejects_malformed_version_number() {
    let r = decode("$argon2id$v=x9$m=4096,t=128,p=2$c29tZXNhbHQ$AQIDBA");
    assert_eq!(r.unwrap_err(), ErrorKind::Encoding(EncodingError::InvalidNumber));
}

#[test]
fn decode_rejects_malformed_memory_number() {
    let r = decode("$argon2id$v=19$m=abc,t=128,p=2$c29tZXNhbHQ$AQIDBA");
    assert_eq!(r.unwrap_err(), ErrorKind::Encoding(EncodingError::InvalidNumber));
}

#[test]
fn decode_rejects_number_overflow() {
    let r = decode("$argon2id$v=19$m=4294967296,t=128,p=2$c29tZXNhbHQ$AQIDBA");
    assert_eq!(r.unwrap_err(), ErrorKind::Encoding(EncodingError::InvalidNumber));
}

#[test]
fn decode_rejects_missing_parameter() {
    let r = decode("$argon2id$v=19$m=4096,t=128$c29tZXNhbHQ$AQIDBA");
    assert_eq!(r.unwrap_err(), ErrorKind::Data(DataError::HashInvalid));
}

#[test]
fn decode_rejects_wrong_parameter_order() {
    let r = decode("$argon2id$v=19$t=128,m=4096,p=2$c29tZXNhbHQ$AQIDBA");
    assert_eq!(r.unwrap_err(), ErrorKind::Data(DataError::HashInvalid));
}

#[test]
fn decode_rejects_bad_base64_salt() {
    let r = decode("$argon2id$v=19$m=4096,t=128,p=2$!!!$AQIDBA");
    assert_eq!(r.unwrap_err(), ErrorKind::Data(DataError::InvalidBase64));
}

#[test]
fn decode_rejects_bad_base64_hash() {
    let r = decode("$argon2id$v=19$m=4096,t=128,p=2$c29tZXNhbHQ$AQID*A");
    assert_eq!(r.unwrap_err(), ErrorKind::Data(DataError::InvalidBase64));
}

#[test]
fn decode_rejects_padded_base64() {
    // the codec uses the unpadded alphabet, so padded input is refused
    let r = decode("$argon2id$v=19$m=4096,t=128,p=2$c29tZXNhbHQ=$AQIDBA");
    assert_eq!(r.unwrap_err(), ErrorKind::Data(DataError::InvalidBase64));
}

#[test]
fn decode_rejects_empty_string() {
    let r = decode("");
    assert_eq!(r.unwrap_err(), ErrorKind::Data(DataError::HashInvalid));
}
