//! The PHC string codec: the bidirectional mapping between a `HashRaw`
//! record and its canonical `$`-delimited string form
//! `$<variant>$v=<version>$m=<memory>,t=<iterations>,p=<lanes>$<salt>$<hash>`
//! with unpadded standard base64 for the salt and hash segments.
//!
//! `encode`'s contract carries the round-trip law: decoding what it
//! produced yields the original record.

use vstd::prelude::*;
use vstd::string::StrSliceExecFns;
use vstd::string::StringSliceAdditionalSpecFns;

use crate::config::{version_code, Variant, Version};
use crate::error::{DataError, EncodingError, ErrorKind};
use crate::output::{HashRaw, HashRawView};
use crate::outside::{b64_decode, b64_encode, b64_of, is_b64_byte, string_from_ascii};

verus! {

/// `$`
pub const DOLLAR: u8 = 36;

/// `,`
pub const COMMA: u8 = 44;

/// `=`
pub const EQUALS: u8 = 61;

/// `v`
pub const LOWER_V: u8 = 118;

/// `m`
pub const LOWER_M: u8 = 109;

/// `t`
pub const LOWER_T: u8 = 116;

/// `p`
pub const LOWER_P: u8 = 112;

/// An ASCII decimal digit.
pub open spec fn is_digit(b: u8) -> bool {
    48 <= b <= 57
}

/// Every byte of `s` is an ASCII decimal digit.
pub open spec fn all_digits(s: Seq<u8>) -> bool {
    forall|i: int| 0 <= i < s.len() ==> is_digit(#[trigger] s[i])
}

/// `b` occurs in `s`.
pub open spec fn has_byte(s: Seq<u8>, b: u8) -> bool {
    exists|i: int| 0 <= i < s.len() && s[i] == b
}

/// Every byte of `s` is below 128.
pub open spec fn ascii_only(s: Seq<u8>) -> bool {
    forall|i: int| 0 <= i < s.len() ==> #[trigger] s[i] < 128
}

/// The lowercase name of a variant, as it stands in a hash string.
pub open spec fn variant_token(v: Variant) -> Seq<u8> {
    match v {
        Variant::Argon2d => seq![97u8, 114u8, 103u8, 111u8, 110u8, 50u8, 100u8],
        Variant::Argon2i => seq![97u8, 114u8, 103u8, 111u8, 110u8, 50u8, 105u8],
        Variant::Argon2id => seq![97u8, 114u8, 103u8, 111u8, 110u8, 50u8, 105u8, 100u8],
    }
}

/// The decimal form of `n`, most significant digit first, no sign and no
/// leading zero.
pub open spec fn dec_of(n: nat) -> Seq<u8>
    decreases n,
{
    if n < 10 {
        seq![(48 + n) as u8]
    } else {
        dec_of(n / 10).push((48 + n % 10) as u8)
    }
}

/// The numeric value of a digit string, most significant digit first.
pub open spec fn dec_val(s: Seq<u8>) -> int
    decreases s.len(),
{
    if s.len() == 0 {
        0
    } else {
        dec_val(s.drop_last()) * 10 + s.last() - 48
    }
}

/// The number a token stands for: defined when the token is nonempty, all
/// digits, and its value fits in 32 bits.
pub open spec fn parse_dec(s: Seq<u8>) -> Option<u32> {
    if s.len() == 0 || !all_digits(s) {
        None
    } else if dec_val(s) > u32::MAX {
        None
    } else {
        Some(dec_val(s) as u32)
    }
}

/// The tokens of `s` between occurrences of `sep`: always one token more
/// than there are separators, and empty tokens are kept.
pub open spec fn split_at_sep(s: Seq<u8>, sep: u8) -> Seq<Seq<u8>>
    decreases s.len(),
{
    if s.len() == 0 {
        seq![Seq::<u8>::empty()]
    } else if s[0] == sep {
        seq![Seq::<u8>::empty()] + split_at_sep(s.drop_first(), sep)
    } else {
        let rest = split_at_sep(s.drop_first(), sep);
        seq![seq![s[0]] + rest[0]] + rest.drop_first()
    }
}

/// Splitting always yields at least one token.
proof fn lemma_split_len(s: Seq<u8>, sep: u8)
    ensures
        split_at_sep(s, sep).len() >= 1,
    decreases s.len(),
{
    if s.len() != 0 {
        lemma_split_len(s.drop_first(), sep);
    }
}

/// Appending one byte either opens a fresh empty token (the separator) or
/// extends the last token (any other byte).
proof fn lemma_split_push(s: Seq<u8>, sep: u8, c: u8)
    ensures
        split_at_sep(s.push(c), sep) == if c == sep {
            split_at_sep(s, sep).push(Seq::<u8>::empty())
        } else {
            split_at_sep(s, sep).update(
                split_at_sep(s, sep).len() - 1,
                split_at_sep(s, sep).last().push(c),
            )
        },
    decreases s.len(),
{
    lemma_split_len(s, sep);
    if s.len() == 0 {
        assert(s.push(c) =~= seq![c]);
        assert(s.push(c).drop_first() =~= Seq::<u8>::empty());
        assert(split_at_sep(Seq::<u8>::empty(), sep) == seq![Seq::<u8>::empty()]);
        if c == sep {
            assert(split_at_sep(s.push(c), sep) =~~= split_at_sep(s, sep).push(
                Seq::<u8>::empty(),
            ));
        } else {
            assert(seq![s.push(c)[0]] + split_at_sep(s.push(c).drop_first(), sep)[0] =~= seq![c]);
            assert(split_at_sep(s.push(c), sep) =~~= split_at_sep(s, sep).update(
                0,
                split_at_sep(s, sep).last().push(c),
            ));
        }
    } else {
        let t = s.drop_first();
        lemma_split_len(t, sep);
        lemma_split_push(t, sep, c);
        assert(s.push(c).drop_first() =~= t.push(c));
        assert(s.push(c)[0] == s[0]);
        let st = split_at_sep(t, sep);
        let stc = split_at_sep(t.push(c), sep);
        if s[0] == sep {
            assert(split_at_sep(s, sep) == seq![Seq::<u8>::empty()] + st);
            assert(split_at_sep(s.push(c), sep) == seq![Seq::<u8>::empty()] + stc);
            if c == sep {
                assert(stc == st.push(Seq::<u8>::empty()));
                assert(split_at_sep(s.push(c), sep) =~~= split_at_sep(s, sep).push(
                    Seq::<u8>::empty(),
                ));
            } else {
                assert(split_at_sep(s, sep).last() == st.last());
                assert(split_at_sep(s.push(c), sep) =~~= split_at_sep(s, sep).update(
                    split_at_sep(s, sep).len() - 1,
                    split_at_sep(s, sep).last().push(c),
                ));
            }
        } else {
            assert(split_at_sep(s, sep) == seq![seq![s[0]] + st[0]] + st.drop_first());
            assert(split_at_sep(s.push(c), sep) == seq![seq![s[0]] + stc[0]] + stc.drop_first());
            if c == sep {
                assert(stc =~~= st.push(Seq::<u8>::empty()));
                assert(stc[0] == st[0]);
                assert(split_at_sep(s.push(c), sep) =~~= split_at_sep(s, sep).push(
                    Seq::<u8>::empty(),
                ));
            } else {
                assert(stc =~~= st.update(st.len() - 1, st.last().push(c)));
                if st.len() == 1 {
                    assert(stc[0] == st[0].push(c));
                    assert(split_at_sep(s.push(c), sep) =~~= split_at_sep(s, sep).update(
                        split_at_sep(s, sep).len() - 1,
                        split_at_sep(s, sep).last().push(c),
                    ));
                } else {
                    assert(stc[0] == st[0]);
                    assert(split_at_sep(s, sep).last() == st.last());
                    assert(split_at_sep(s.push(c), sep) =~~= split_at_sep(s, sep).update(
                        split_at_sep(s, sep).len() - 1,
                        split_at_sep(s, sep).last().push(c),
                    ));
                }
            }
        }
    }
}

/// Splitting a string that starts with a separator-free token followed by
/// a separator yields that token and then the split of the remainder.
proof fn lemma_split_concat(a: Seq<u8>, rest: Seq<u8>, sep: u8)
    requires
        !has_byte(a, sep),
    ensures
        split_at_sep(a + seq![sep] + rest, sep) == seq![a] + split_at_sep(rest, sep),
    decreases a.len(),
{
    let s = a + seq![sep] + rest;
    if a.len() == 0 {
        assert(s =~= seq![sep] + rest);
        assert(s[0] == sep);
        assert(s.drop_first() =~= rest);
        assert(split_at_sep(s, sep) =~~= seq![a] + split_at_sep(rest, sep));
    } else {
        let a1 = a.drop_first();
        assert(!has_byte(a1, sep)) by {
            assert(forall|i: int| 0 <= i < a1.len() ==> a1[i] == a[i + 1]);
        }
        lemma_split_concat(a1, rest, sep);
        assert(a[0] != sep);
        assert(s[0] == a[0]);
        assert(s.drop_first() =~= a1 + seq![sep] + rest);
        let r = split_at_sep(s.drop_first(), sep);
        assert(r == seq![a1] + split_at_sep(rest, sep));
        assert(r[0] == a1);
        assert(seq![s[0]] + r[0] =~= a);
        assert(r.drop_first() =~= split_at_sep(rest, sep));
        assert(split_at_sep(s, sep) =~~= seq![a] + split_at_sep(rest, sep));
    }
}

/// The digits of a decimal form are digits.
proof fn lemma_dec_of_digits(n: nat)
    ensures
        all_digits(dec_of(n)),
        dec_of(n).len() >= 1,
    decreases n,
{
    if n < 10 {
    } else {
        lemma_dec_of_digits(n / 10);
        assert(forall|i: int| 0 <= i < dec_of(n).len() - 1 ==> dec_of(n)[i] == dec_of(n / 10)[i]);
    }
}

/// The decimal form of `n` stands for `n`.
proof fn lemma_dec_val_of(n: nat)
    ensures
        dec_val(dec_of(n)) == n,
    decreases n,
{
    assert(dec_val(Seq::<u8>::empty()) == 0);
    if n < 10 {
        assert(dec_of(n).drop_last() =~= Seq::<u8>::empty());
        assert(dec_of(n).last() == (48 + n) as u8);
    } else {
        lemma_dec_val_of(n / 10);
        assert(dec_of(n).drop_last() =~= dec_of(n / 10));
        assert(dec_of(n).last() == (48 + n % 10) as u8);
        vstd::arithmetic::div_mod::lemma_fundamental_div_mod(n as int, 10);
    }
}

/// For an all-digit string, the value of every prefix is nonnegative and
/// at most the value of the whole.
proof fn lemma_dec_val_prefix(s: Seq<u8>, k: int)
    requires
        all_digits(s),
        0 <= k <= s.len(),
    ensures
        0 <= dec_val(s.take(k)) <= dec_val(s),
    decreases s.len() - k,
{
    lemma_dec_val_nonneg(s.take(k));
    if k == s.len() {
        assert(s.take(k) =~= s);
    } else {
        lemma_dec_val_prefix(s, k + 1);
        assert(s.take(k + 1).drop_last() =~= s.take(k));
        assert(is_digit(s.take(k + 1).last()));
    }
}

/// The value of an all-digit string is nonnegative.
proof fn lemma_dec_val_nonneg(s: Seq<u8>)
    requires
        all_digits(s),
    ensures
        dec_val(s) >= 0,
    decreases s.len(),
{
    if s.len() > 0 {
        assert(all_digits(s.drop_last())) by {
            assert(forall|i: int| 0 <= i < s.len() - 1 ==> s.drop_last()[i] == s[i]);
        }
        lemma_dec_val_nonneg(s.drop_last());
        assert(is_digit(s.last()));
    }
}

/// Parsing the decimal form of a 32-bit number gives the number back.
proof fn lemma_parse_dec_of(n: u32)
    ensures
        parse_dec(dec_of(n as nat)) == Some(n),
{
    lemma_dec_of_digits(n as nat);
    lemma_dec_val_of(n as nat);
}

/// The unique byte sequence whose unpadded base64 encoding is `s`, if any.
pub open spec fn b64_inv(s: Seq<u8>) -> Option<Seq<u8>> {
    if exists|b: Seq<u8>| b64_of(b) == s {
        Some(choose|b: Seq<u8>| b64_of(b) == s)
    } else {
        None
    }
}

/// The variant a token names, if any.
pub open spec fn parse_variant(s: Seq<u8>) -> Option<Variant> {
    if s == variant_token(Variant::Argon2d) {
        Some(Variant::Argon2d)
    } else if s == variant_token(Variant::Argon2i) {
        Some(Variant::Argon2i)
    } else if s == variant_token(Variant::Argon2id) {
        Some(Variant::Argon2id)
    } else {
        None
    }
}

/// One `<letter>=<number>` field: a wrong shape is a structural fault, a
/// malformed number an encoding fault.
pub open spec fn parse_param(s: Seq<u8>, letter: u8) -> Result<u32, ErrorKind> {
    if s.len() < 2 || s[0] != letter || s[1] != EQUALS {
        Err(ErrorKind::Data(DataError::HashInvalid))
    } else {
        match parse_dec(s.skip(2)) {
            None => Err(ErrorKind::Encoding(EncodingError::InvalidNumber)),
            Some(n) => Ok(n),
        }
    }
}

/// The version named by a `v=<number>` token; only 16 and 19 are known.
pub open spec fn parse_version_field(s: Seq<u8>) -> Result<Version, ErrorKind> {
    match parse_param(s, LOWER_V) {
        Err(e) => Err(e),
        Ok(n) => if n == 16 {
            Ok(Version::_0x10)
        } else if n == 19 {
            Ok(Version::_0x13)
        } else {
            Err(ErrorKind::Data(DataError::HashInvalid))
        },
    }
}

/// The `m=..,t=..,p=..` parameter block: memory size, then iterations,
/// then lanes, all three mandatory.
pub open spec fn parse_params_field(s: Seq<u8>) -> Result<(u32, u32, u32), ErrorKind> {
    let parts = split_at_sep(s, COMMA);
    if parts.len() != 3 {
        Err(ErrorKind::Data(DataError::HashInvalid))
    } else {
        match parse_param(parts[0], LOWER_M) {
            Err(e) => Err(e),
            Ok(m) => match parse_param(parts[1], LOWER_T) {
                Err(e) => Err(e),
                Ok(t) => match parse_param(parts[2], LOWER_P) {
                    Err(e) => Err(e),
                    Ok(p) => Ok((m, t, p)),
                },
            },
        }
    }
}

/// What decoding a byte string yields: the record, or the first fault,
/// checking the `$` structure, then the variant, the version, the
/// parameter block, the salt and the hash.
pub open spec fn decode_spec(s: Seq<u8>) -> Result<HashRawView, ErrorKind> {
    let toks = split_at_sep(s, DOLLAR);
    if toks.len() != 6 || toks[0] != Seq::<u8>::empty() {
        Err(ErrorKind::Data(DataError::HashInvalid))
    } else {
        match parse_variant(toks[1]) {
            None => Err(ErrorKind::Data(DataError::HashInvalid)),
            Some(variant) => match parse_version_field(toks[2]) {
                Err(e) => Err(e),
                Ok(version) => match parse_params_field(toks[3]) {
                    Err(e) => Err(e),
                    Ok(mtp) => match b64_inv(toks[4]) {
                        None => Err(ErrorKind::Data(DataError::InvalidBase64)),
                        Some(salt) => match b64_inv(toks[5]) {
                            None => Err(ErrorKind::Data(DataError::InvalidBase64)),
                            Some(hash) => Ok(HashRawView {
                                iterations: mtp.1,
                                lanes: mtp.2,
                                memory_size: mtp.0,
                                raw_hash_bytes: hash,
                                raw_salt_bytes: salt,
                                variant,
                                version,
                            }),
                        },
                    },
                },
            },
        }
    }
}

/// One `<letter>=<number>` piece of a parameter field.
pub open spec fn param_piece(letter: u8, n: u32) -> Seq<u8> {
    seq![letter, EQUALS] + dec_of(n as nat)
}

/// The `v=<version>` token of a record.
pub open spec fn version_field(h: HashRawView) -> Seq<u8> {
    param_piece(LOWER_V, version_code(h.version))
}

/// The `m=..,t=..,p=..` token of a record.
pub open spec fn params_field(h: HashRawView) -> Seq<u8> {
    param_piece(LOWER_M, h.memory_size) + seq![COMMA] + (param_piece(LOWER_T, h.iterations)
        + seq![COMMA] + param_piece(LOWER_P, h.lanes))
}

/// The canonical string form of a record, as bytes.
pub open spec fn spec_encode(h: HashRawView) -> Seq<u8> {
    seq![DOLLAR] + variant_token(h.variant) + (seq![DOLLAR] + version_field(h)) + (seq![DOLLAR]
        + params_field(h)) + (seq![DOLLAR] + b64_of(h.raw_salt_bytes)) + (seq![DOLLAR]
        + b64_of(h.raw_hash_bytes))
}

/// Idempotent decode: what decoding yields is a function of the string
/// alone, so two decodings of one string yield equal results.  The
/// hypotheses are what `decode`'s contract gives for each of two calls on
/// the same string.
pub proof fn lemma_decode_deterministic(
    s: Seq<u8>,
    r1: Result<HashRawView, ErrorKind>,
    r2: Result<HashRawView, ErrorKind>,
)
    requires
        r1 == decode_spec(s),
        r2 == decode_spec(s),
    ensures
        r1 == r2,
{
}

/// A decode result with the record replaced by its mathematical value.
pub open spec fn decoded_view(r: Result<HashRaw, ErrorKind>) -> Result<HashRawView, ErrorKind> {
    match r {
        Ok(h) => Ok(h@),
        Err(e) => Err(e),
    }
}

/// Whether two byte slices hold the same bytes.
fn bytes_eq(a: &[u8], b: &[u8]) -> (r: bool)
    ensures
        r == (a@ == b@),
{
    if a.len() != b.len() {
        assert(a@.len() != b@.len());
        return false;
    }
    let n = a.len();
    let mut i: usize = 0;
    while i < n
        invariant
            n == a@.len() == b@.len(),
            i <= n,
            forall|j: int| 0 <= j < i ==> a@[j] == b@[j],
        decreases n - i,
    {
        if a[i] != b[i] {
            assert(a@[i as int] != b@[i as int]);
            return false;
        }
        i = i + 1;
    }
    proof {
        assert(a@ =~= b@);
    }
    true
}

/// Splits a byte slice at every occurrence of `sep`.
fn split_bytes(s: &[u8], sep: u8) -> (r: Vec<Vec<u8>>)
    ensures
        r.deep_view() == split_at_sep(s@, sep),
{
    let mut done: Vec<Vec<u8>> = Vec::new();
    let mut cur: Vec<u8> = Vec::new();
    let n = s.len();
    let mut i: usize = 0;
    proof {
        assert(s@.take(0) =~= Seq::<u8>::empty());
        assert(done.deep_view().push(cur@) =~~= split_at_sep(s@.take(0), sep));
    }
    while i < n
        invariant
            n == s@.len(),
            i <= n,
            done.deep_view().push(cur@) == split_at_sep(s@.take(i as int), sep),
        decreases n - i,
    {
        let ghost prefix = s@.take(i as int);
        let ghost old_done = done.deep_view();
        let ghost old_cur = cur@;
        let c = s[i];
        proof {
            lemma_split_push(prefix, sep, c);
            assert(s@.take(i + 1) =~= prefix.push(c));
        }
        if c == sep {
            done.push(cur);
            cur = Vec::new();
            proof {
                assert(done.deep_view() =~~= old_done.push(old_cur));
                assert(done.deep_view().push(cur@) =~~= split_at_sep(s@.take(i + 1), sep));
            }
        } else {
            cur.push(c);
            proof {
                let st = split_at_sep(prefix, sep);
                assert(st.last() == old_cur);
                assert(done.deep_view().push(cur@) =~~= st.update(
                    st.len() - 1,
                    st.last().push(c),
                ));
            }
        }
        i = i + 1;
    }
    done.push(cur);
    proof {
        assert(s@.take(n as int) =~= s@);
        assert(done.deep_view() =~~= split_at_sep(s@, sep));
    }
    done
}

/// Parses a nonempty all-digit token into a 32-bit number.
fn parse_dec_exec(s: &[u8]) -> (r: Option<u32>)
    ensures
        r == parse_dec(s@),
{
    let n = s.len();
    if n == 0 {
        return None;
    }
    let mut acc: u64 = 0;
    let mut i: usize = 0;
    proof {
        assert(s@.take(0) =~= Seq::<u8>::empty());
    }
    let mut result: Option<u32> = None;
    while i < n
        invariant
            n == s@.len(),
            i <= n,
            all_digits(s@.take(i as int)),
            acc == dec_val(s@.take(i as int)),
            acc <= u32::MAX,
        decreases n - i,
    {
        let c = s[i];
        proof {
            assert(s@.take(i + 1).drop_last() =~= s@.take(i as int));
            assert(s@.take(i + 1).last() == s@[i as int]);
        }
        if c < 48 || c > 57 {
            assert(!is_digit(s@[i as int]));
            return None;
        }
        acc = acc * 10 + ((c - 48) as u64);
        proof {
            assert(all_digits(s@.take(i + 1)));
        }
        if acc > 0xFFFF_FFFFu64 {
            proof {
                if all_digits(s@) {
                    lemma_dec_val_prefix(s@, i + 1);
                }
            }
            return None;
        }
        i = i + 1;
    }
    proof {
        assert(s@.take(n as int) =~= s@);
    }
    Some(acc as u32)
}

/// Appends the decimal form of `n` to `out`.
fn push_dec(n: u32, out: &mut Vec<u8>)
    ensures
        final(out)@ == old(out)@ + dec_of(n as nat),
    decreases n,
{
    if n < 10 {
        out.push((n as u8) + 48);
        assert(final(out)@ =~= old(out)@ + dec_of(n as nat));
    } else {
        push_dec(n / 10, out);
        out.push(((n % 10) as u8) + 48);
        assert(final(out)@ =~= old(out)@ + dec_of(n as nat));
    }
}

/// The lowercase name of a variant, as bytes.
fn variant_token_vec(v: &Variant) -> (r: Vec<u8>)
    ensures
        r@ == variant_token(*v),
{
    let mut out: Vec<u8> = Vec::new();
    out.push(97);
    out.push(114);
    out.push(103);
    out.push(111);
    out.push(110);
    out.push(50);
    match v {
        Variant::Argon2d => {
            out.push(100);
        },
        Variant::Argon2i => {
            out.push(105);
        },
        Variant::Argon2id => {
            out.push(105);
            out.push(100);
        },
    }
    proof {
        assert(out@ =~= variant_token(*v));
    }
    out
}

/// Parses a variant token.
fn parse_variant_exec(tok: &[u8]) -> (r: Option<Variant>)
    ensures
        r == parse_variant(tok@),
{
    let d = variant_token_vec(&Variant::Argon2d);
    if bytes_eq(tok, d.as_slice()) {
        return Some(Variant::Argon2d);
    }
    let i = variant_token_vec(&Variant::Argon2i);
    if bytes_eq(tok, i.as_slice()) {
        return Some(Variant::Argon2i);
    }
    let id = variant_token_vec(&Variant::Argon2id);
    if bytes_eq(tok, id.as_slice()) {
        return Some(Variant::Argon2id);
    }
    None
}

/// Parses one `<letter>=<number>` field.
fn parse_param_exec(tok: &[u8], letter: u8) -> (r: Result<u32, ErrorKind>)
    ensures
        r == parse_param(tok@, letter),
{
    if tok.len() < 2 {
        return Err(ErrorKind::Data(DataError::HashInvalid));
    }
    if *vstd::slice::slice_index_get(tok, 0) != letter
        || *vstd::slice::slice_index_get(tok, 1) != EQUALS {
        return Err(ErrorKind::Data(DataError::HashInvalid));
    }
    let num = vstd::slice::slice_subrange(tok, 2, tok.len());
    proof {
        assert(num@ =~= tok@.skip(2));
    }
    match parse_dec_exec(num) {
        None => Err(ErrorKind::Encoding(EncodingError::InvalidNumber)),
        Some(n) => Ok(n),
    }
}

/// A string without the separator splits into itself alone.
proof fn lemma_split_nosep(s: Seq<u8>, sep: u8)
    requires
        !has_byte(s, sep),
    ensures
        split_at_sep(s, sep) == seq![s],
    decreases s.len(),
{
    if s.len() == 0 {
        assert(split_at_sep(s, sep) =~~= seq![s]);
    } else {
        let s1 = s.drop_first();
        assert(!has_byte(s1, sep)) by {
            assert(forall|i: int| 0 <= i < s1.len() ==> s1[i] == s[i + 1]);
        }
        lemma_split_nosep(s1, sep);
        assert(s[0] != sep);
        assert(seq![s[0]] + split_at_sep(s1, sep)[0] =~= s);
        assert(split_at_sep(s, sep) =~~= seq![s]);
    }
}

/// ASCII-ness is preserved by concatenation.
proof fn lemma_ascii_concat(a: Seq<u8>, b: Seq<u8>)
    requires
        ascii_only(a),
        ascii_only(b),
    ensures
        ascii_only(a + b),
{
    assert forall|i: int| 0 <= i < (a + b).len() implies #[trigger] (a + b)[i] < 128 by {
        if i < a.len() {
            assert((a + b)[i] == a[i]);
        } else {
            assert((a + b)[i] == b[i - a.len()]);
        }
    }
}

/// Absence of a byte is preserved by concatenation.
proof fn lemma_nobyte_concat(a: Seq<u8>, b: Seq<u8>, c: u8)
    requires
        !has_byte(a, c),
        !has_byte(b, c),
    ensures
        !has_byte(a + b, c),
{
    assert forall|i: int| 0 <= i < (a + b).len() implies (a + b)[i] != c by {
        if i < a.len() {
            assert((a + b)[i] == a[i]);
        } else {
            assert((a + b)[i] == b[i - a.len()]);
        }
    }
}

/// Digit strings are ASCII and hold neither `$` nor `,`.
proof fn lemma_digits_safe(s: Seq<u8>)
    requires
        all_digits(s),
    ensures
        ascii_only(s),
        !has_byte(s, DOLLAR),
        !has_byte(s, COMMA),
{
    assert forall|i: int| 0 <= i < s.len() implies #[trigger] s[i] < 128 && s[i] != DOLLAR
        && s[i] != COMMA by {
        assert(is_digit(s[i]));
    }
}

/// Base64 tokens are ASCII and hold no `$`.
proof fn lemma_b64_safe(s: Seq<u8>)
    requires
        forall|i: int| 0 <= i < s.len() ==> is_b64_byte(#[trigger] s[i]),
    ensures
        ascii_only(s),
        !has_byte(s, DOLLAR),
{
    assert forall|i: int| 0 <= i < s.len() implies #[trigger] s[i] < 128 && s[i] != DOLLAR by {
        assert(is_b64_byte(s[i]));
    }
}

/// Variant tokens are ASCII, nonempty, hold no `$`, and name their variant
/// uniquely.
proof fn lemma_variant_token_props(v: Variant)
    ensures
        ascii_only(variant_token(v)),
        !has_byte(variant_token(v), DOLLAR),
        variant_token(v).len() >= 1,
        parse_variant(variant_token(v)) == Some(v),
{
    assert(variant_token(Variant::Argon2d).len() == 7);
    assert(variant_token(Variant::Argon2i).len() == 7);
    assert(variant_token(Variant::Argon2id).len() == 8);
    assert(variant_token(Variant::Argon2d)[6] == 100);
    assert(variant_token(Variant::Argon2i)[6] == 105);
    assert(variant_token(Variant::Argon2d) != variant_token(Variant::Argon2i));
    let t = variant_token(v);
    assert forall|i: int| 0 <= i < t.len() implies #[trigger] t[i] < 128 && t[i] != DOLLAR by {
        match v {
            Variant::Argon2d => {},
            Variant::Argon2i => {},
            Variant::Argon2id => {},
        }
    }
}

/// One `<letter>=<digits>` piece parses back to its number and is free of
/// separators (for the letters used here, which are ASCII letters).
proof fn lemma_param_piece(letter: u8, n: u32)
    requires
        letter == LOWER_V || letter == LOWER_M || letter == LOWER_T || letter == LOWER_P,
    ensures
        parse_param(param_piece(letter, n), letter) == Ok::<u32, ErrorKind>(n),
        ascii_only(param_piece(letter, n)),
        !has_byte(param_piece(letter, n), DOLLAR),
        !has_byte(param_piece(letter, n), COMMA),
{
    let piece = param_piece(letter, n);
    lemma_dec_of_digits(n as nat);
    lemma_parse_dec_of(n);
    lemma_digits_safe(dec_of(n as nat));
    assert(ascii_only(seq![letter, EQUALS]));
    assert(!has_byte(seq![letter, EQUALS], DOLLAR));
    assert(!has_byte(seq![letter, EQUALS], COMMA));
    lemma_ascii_concat(seq![letter, EQUALS], dec_of(n as nat));
    lemma_nobyte_concat(seq![letter, EQUALS], dec_of(n as nat), DOLLAR);
    lemma_nobyte_concat(seq![letter, EQUALS], dec_of(n as nat), COMMA);
    assert(piece.len() >= 2);
    assert(piece[0] == letter && piece[1] == EQUALS);
    assert(piece.skip(2) =~= dec_of(n as nat));
}

/// The version field is well formed and parses back to its version.
proof fn lemma_version_field_props(h: HashRawView)
    ensures
        parse_version_field(version_field(h)) == Ok::<Version, ErrorKind>(h.version),
        ascii_only(version_field(h)),
        !has_byte(version_field(h), DOLLAR),
{
    lemma_param_piece(LOWER_V, version_code(h.version));
    match h.version {
        Version::_0x10 => {},
        Version::_0x13 => {},
    }
}

/// The parameter block is well formed and parses back to its three
/// numbers.
proof fn lemma_params_field_props(h: HashRawView)
    ensures
        parse_params_field(params_field(h)) == Ok::<(u32, u32, u32), ErrorKind>(
            (h.memory_size, h.iterations, h.lanes),
        ),
        ascii_only(params_field(h)),
        !has_byte(params_field(h), DOLLAR),
{
    let pm = param_piece(LOWER_M, h.memory_size);
    let pt = param_piece(LOWER_T, h.iterations);
    let pl = param_piece(LOWER_P, h.lanes);
    lemma_param_piece(LOWER_M, h.memory_size);
    lemma_param_piece(LOWER_T, h.iterations);
    lemma_param_piece(LOWER_P, h.lanes);
    lemma_split_nosep(pl, COMMA);
    lemma_split_concat(pt, pl, COMMA);
    lemma_split_concat(pm, pt + seq![COMMA] + pl, COMMA);
    assert(params_field(h) =~= pm + seq![COMMA] + (pt + seq![COMMA] + pl));
    let pp = split_at_sep(params_field(h), COMMA);
    assert(pp =~~= seq![pm, pt, pl]);
    assert(!has_byte(seq![COMMA], DOLLAR));
    lemma_nobyte_concat(pt, seq![COMMA], DOLLAR);
    lemma_nobyte_concat(pt + seq![COMMA], pl, DOLLAR);
    lemma_nobyte_concat(pm, seq![COMMA], DOLLAR);
    lemma_nobyte_concat(pm + seq![COMMA], pt + seq![COMMA] + pl, DOLLAR);
    assert(ascii_only(seq![COMMA]));
    lemma_ascii_concat(pt, seq![COMMA]);
    lemma_ascii_concat(pt + seq![COMMA], pl);
    lemma_ascii_concat(pm, seq![COMMA]);
    lemma_ascii_concat(pm + seq![COMMA], pt + seq![COMMA] + pl);
}

/// The encoding splits at `$` into exactly its six tokens, and is ASCII.
/// The quantified hypotheses are the base64 alphabet facts for the salt
/// and hash segments.
proof fn lemma_encode_structure(h: HashRawView, salt64: Seq<u8>, hash64: Seq<u8>)
    requires
        salt64 == b64_of(h.raw_salt_bytes),
        hash64 == b64_of(h.raw_hash_bytes),
        forall|i: int| 0 <= i < salt64.len() ==> is_b64_byte(#[trigger] salt64[i]),
        forall|i: int| 0 <= i < hash64.len() ==> is_b64_byte(#[trigger] hash64[i]),
    ensures
        split_at_sep(spec_encode(h), DOLLAR) == seq![
            Seq::<u8>::empty(),
            variant_token(h.variant),
            version_field(h),
            params_field(h),
            salt64,
            hash64,
        ],
        ascii_only(spec_encode(h)),
{
    let e = spec_encode(h);
    let t1 = variant_token(h.variant);
    let t2 = version_field(h);
    let t3 = params_field(h);
    lemma_variant_token_props(h.variant);
    lemma_version_field_props(h);
    lemma_params_field_props(h);
    lemma_b64_safe(salt64);
    lemma_b64_safe(hash64);

    let r5 = hash64;
    let r4 = salt64 + seq![DOLLAR] + r5;
    let r3 = t3 + seq![DOLLAR] + r4;
    let r2 = t2 + seq![DOLLAR] + r3;
    let r1 = t1 + seq![DOLLAR] + r2;
    assert(e =~= Seq::<u8>::empty() + seq![DOLLAR] + r1);
    lemma_split_nosep(r5, DOLLAR);
    lemma_split_concat(salt64, r5, DOLLAR);
    lemma_split_concat(t3, r4, DOLLAR);
    lemma_split_concat(t2, r3, DOLLAR);
    lemma_split_concat(t1, r2, DOLLAR);
    lemma_split_concat(Seq::<u8>::empty(), r1, DOLLAR);
    assert(split_at_sep(e, DOLLAR) =~~= seq![
        Seq::<u8>::empty(),
        t1,
        t2,
        t3,
        salt64,
        hash64,
    ]);

    assert(ascii_only(seq![DOLLAR]));
    lemma_ascii_concat(Seq::<u8>::empty(), seq![DOLLAR]);
    lemma_ascii_concat(Seq::<u8>::empty() + seq![DOLLAR], t1);
    let e1 = Seq::<u8>::empty() + seq![DOLLAR] + t1;
    lemma_ascii_concat(e1, seq![DOLLAR]);
    lemma_ascii_concat(e1 + seq![DOLLAR], t2);
    let e2 = e1 + seq![DOLLAR] + t2;
    lemma_ascii_concat(e2, seq![DOLLAR]);
    lemma_ascii_concat(e2 + seq![DOLLAR], t3);
    let e3 = e2 + seq![DOLLAR] + t3;
    lemma_ascii_concat(e3, seq![DOLLAR]);
    lemma_ascii_concat(e3 + seq![DOLLAR], salt64);
    let e4 = e3 + seq![DOLLAR] + salt64;
    lemma_ascii_concat(e4, seq![DOLLAR]);
    lemma_ascii_concat(e4 + seq![DOLLAR], hash64);
    assert(e =~= e4 + seq![DOLLAR] + hash64);
    assert(ascii_only(e));
}

/// The round-trip law, together with the fact that the encoding is ASCII.
/// The quantified hypotheses are what the base64 encoder guarantees of the
/// salt and hash segments: they are the encodings of the record's salt and
/// hash bytes, no other bytes encode to them, and they stay inside the
/// base64 alphabet.
proof fn lemma_encode_decodes(h: HashRawView, salt64: Seq<u8>, hash64: Seq<u8>)
    requires
        salt64 == b64_of(h.raw_salt_bytes),
        forall|b: Seq<u8>| #[trigger] b64_of(b) == salt64 ==> b == h.raw_salt_bytes,
        forall|i: int| 0 <= i < salt64.len() ==> is_b64_byte(#[trigger] salt64[i]),
        hash64 == b64_of(h.raw_hash_bytes),
        forall|b: Seq<u8>| #[trigger] b64_of(b) == hash64 ==> b == h.raw_hash_bytes,
        forall|i: int| 0 <= i < hash64.len() ==> is_b64_byte(#[trigger] hash64[i]),
    ensures
        decode_spec(spec_encode(h)) == Ok::<HashRawView, ErrorKind>(h),
        ascii_only(spec_encode(h)),
{
    let e = spec_encode(h);
    lemma_encode_structure(h, salt64, hash64);
    lemma_variant_token_props(h.variant);
    lemma_version_field_props(h);
    lemma_params_field_props(h);
    let sp = split_at_sep(e, DOLLAR);
    assert(sp.len() == 6);
    assert(sp[0] == Seq::<u8>::empty());
    assert(sp[1] == variant_token(h.variant));
    assert(sp[2] == version_field(h));
    assert(sp[3] == params_field(h));
    assert(sp[4] == salt64 && sp[5] == hash64);
    assert(b64_inv(sp[4]) == Some(h.raw_salt_bytes));
    assert(b64_inv(sp[5]) == Some(h.raw_hash_bytes));
    assert(decode_spec(e) matches Ok(hv) && hv =~= h);
}

/// Encodes a record into its canonical PHC string form.  Total for every
/// record; the contract carries the round-trip law: decoding the produced
/// string yields the record back.
pub fn encode(hash_raw: &HashRaw) -> (r: String)
    ensures
        vstd::utf8::encode_utf8(r@) == spec_encode(hash_raw@),
        r.is_ascii(),
        decode_spec(spec_encode(hash_raw@)) == Ok::<HashRawView, ErrorKind>(hash_raw@),
{
    let ghost h = hash_raw@;
    let mut out: Vec<u8> = Vec::new();
    out.push(DOLLAR);
    let variant = hash_raw.variant();
    let vtok = variant_token_vec(&variant);
    out.extend_from_slice(vtok.as_slice());
    let ghost e1 = seq![DOLLAR] + variant_token(h.variant);
    proof {
        assert(out@ =~= e1);
    }
    out.push(DOLLAR);
    out.push(LOWER_V);
    out.push(EQUALS);
    let version = hash_raw.version();
    push_dec(version.code(), &mut out);
    let ghost e2 = e1 + (seq![DOLLAR] + version_field(h));
    proof {
        assert(out@ =~= e2);
    }
    out.push(DOLLAR);
    out.push(LOWER_M);
    out.push(EQUALS);
    push_dec(hash_raw.memory_size(), &mut out);
    out.push(COMMA);
    out.push(LOWER_T);
    out.push(EQUALS);
    push_dec(hash_raw.iterations(), &mut out);
    out.push(COMMA);
    out.push(LOWER_P);
    out.push(EQUALS);
    push_dec(hash_raw.lanes(), &mut out);
    let ghost e3 = e2 + (seq![DOLLAR] + params_field(h));
    proof {
        assert(out@ =~= e3);
    }
    out.push(DOLLAR);
    let salt64 = b64_encode(hash_raw.raw_salt_bytes());
    out.extend_from_slice(salt64.as_slice());
    let ghost e4 = e3 + (seq![DOLLAR] + b64_of(h.raw_salt_bytes));
    proof {
        assert(out@ =~= e4);
    }
    out.push(DOLLAR);
    let hash64 = b64_encode(hash_raw.raw_hash_bytes());
    out.extend_from_slice(hash64.as_slice());
    proof {
        assert(out@ =~= spec_encode(h));
        lemma_encode_decodes(h, salt64@, hash64@);
    }
    string_from_ascii(out)
}

/// Decodes a PHC hash string into a record.  This is pure string parsing:
/// the engine is never invoked, and the salt and hash lengths of the
/// result are exactly the decoded byte lengths.
pub fn decode(hash: &str) -> (r: Result<HashRaw, ErrorKind>)
    ensures
        decoded_view(r) == decode_spec(hash.spec_bytes()),
{
    let bytes = hash.as_bytes_vec();
    decode_bytes(bytes.as_slice())
}

/// Decodes the byte form of a PHC hash string.
fn decode_bytes(s: &[u8]) -> (r: Result<HashRaw, ErrorKind>)
    ensures
        decoded_view(r) == decode_spec(s@),
{
    let toks = split_bytes(s, DOLLAR);
    let ghost sp = split_at_sep(s@, DOLLAR);
    proof {
        assert forall|j: int| 0 <= j < toks@.len() implies #[trigger] toks@[j]@ == sp[j] by {
            assert(toks@[j].deep_view() =~= toks@[j]@);
            assert(toks.deep_view()[j] == toks@[j].deep_view());
        }
    }
    if toks.len() != 6 {
        return Err(ErrorKind::Data(DataError::HashInvalid));
    }
    if toks[0].len() != 0 {
        proof {
            assert(sp[0] != Seq::<u8>::empty());
        }
        return Err(ErrorKind::Data(DataError::HashInvalid));
    }
    proof {
        assert(sp[0] =~= Seq::<u8>::empty());
    }
    let variant = match parse_variant_exec(toks[1].as_slice()) {
        Some(v) => v,
        None => {
            return Err(ErrorKind::Data(DataError::HashInvalid));
        },
    };
    let version = match parse_version_exec(toks[2].as_slice()) {
        Ok(v) => v,
        Err(e) => {
            return Err(e);
        },
    };
    let parts = split_bytes(toks[3].as_slice(), COMMA);
    let ghost pp = split_at_sep(sp[3], COMMA);
    proof {
        assert forall|j: int| 0 <= j < parts@.len() implies #[trigger] parts@[j]@ == pp[j] by {
            assert(parts@[j].deep_view() =~= parts@[j]@);
            assert(parts.deep_view()[j] == parts@[j].deep_view());
        }
    }
    if parts.len() != 3 {
        return Err(ErrorKind::Data(DataError::HashInvalid));
    }
    let memory_size = match parse_param_exec(parts[0].as_slice(), LOWER_M) {
        Ok(n) => n,
        Err(e) => {
            return Err(e);
        },
    };
    let iterations = match parse_param_exec(parts[1].as_slice(), LOWER_T) {
        Ok(n) => n,
        Err(e) => {
            return Err(e);
        },
    };
    let lanes = match parse_param_exec(parts[2].as_slice(), LOWER_P) {
        Ok(n) => n,
        Err(e) => {
            return Err(e);
        },
    };
    let raw_salt_bytes = match b64_decode(toks[4].as_slice()) {
        Ok(v) => v,
        Err(_) => {
            return Err(ErrorKind::Data(DataError::InvalidBase64));
        },
    };
    proof {
        assert(b64_inv(sp[4]) == Some(raw_salt_bytes@));
    }
    let raw_hash_bytes = match b64_decode(toks[5].as_slice()) {
        Ok(v) => v,
        Err(_) => {
            return Err(ErrorKind::Data(DataError::InvalidBase64));
        },
    };
    proof {
        assert(b64_inv(sp[5]) == Some(raw_hash_bytes@));
    }
    let hr = HashRaw::new(
        iterations,
        lanes,
        memory_size,
        raw_hash_bytes,
        raw_salt_bytes,
        variant,
        version,
    );
    proof {
        assert(decode_spec(s@) matches Ok(hv) && hv =~= hr@);
    }
    Ok(hr)
}

/// Parses the `v=<number>` version field.
fn parse_version_exec(tok: &[u8]) -> (r: Result<Version, ErrorKind>)
    ensures
        r == parse_version_field(tok@),
{
    match parse_param_exec(tok, LOWER_V) {
        Err(e) => Err(e),
        Ok(n) => {
            if n == 16 {
                Ok(Version::_0x10)
            } else if n == 19 {
                Ok(Version::_0x13)
            } else {
                Err(ErrorKind::Data(DataError::HashInvalid))
            }
        },
    }
}

} // verus!

