//! Password hashing with PBKDF2-HMAC-SHA512 and upper-case hex encoding.

use vstd::prelude::*;
use vstd::utf8::encode_utf8;

verus! {

/// The number of PBKDF2 iterations for stored passwords.
pub const N_ITER: u32 = 100000;

/// The length in bytes of a salt and of a derived key (SHA-512's output length).
pub const CREDENTIAL_LEN: usize = 64;

/// The error type of `data_encoding`'s decoders.
#[verifier::external_type_specification]
#[verifier::external_body]
pub struct ExDecodeError(data_encoding::DecodeError);

/// The error type of `ring`.
#[verifier::external_type_specification]
#[verifier::external_body]
pub struct ExUnspecified(ring::error::Unspecified);

/// An upper-case hexadecimal digit.
pub open spec fn is_hex_upper(c: char) -> bool {
    ('0' <= c && c <= '9') || ('A' <= c && c <= 'F')
}

/// The value of an upper-case hexadecimal digit.
pub open spec fn hex_value(c: char) -> int {
    if '0' <= c && c <= '9' {
        c as int - '0' as int
    } else {
        c as int - 'A' as int + 10
    }
}

/// The upper-case hexadecimal digit of `d < 16`.
pub open spec fn hex_digit(d: int) -> char {
    if d < 10 {
        (d + '0' as int) as char
    } else {
        (d - 10 + 'A' as int) as char
    }
}

/// `s` is upper-case hex: an even number of digits `0-9A-F`.
pub open spec fn hex_valid(s: Seq<char>) -> bool {
    &&& s.len() % 2 == 0
    &&& forall|k: int| 0 <= k < s.len() ==> is_hex_upper(#[trigger] s[k])
}

/// The bytes that upper-case hex `s` denotes, two digits per byte, high nibble first.
pub open spec fn hex_decode_spec(s: Seq<char>) -> Seq<u8> {
    Seq::new(s.len() / 2, |i: int| (hex_value(s[2 * i]) * 16 + hex_value(s[2 * i + 1])) as u8)
}

/// The upper-case hex text of `b`, two digits per byte, high nibble first.
pub open spec fn hex_encode_spec(b: Seq<u8>) -> Seq<char> {
    Seq::new(
        2 * b.len(),
        |i: int|
            if i % 2 == 0 {
                hex_digit(b[i / 2] as int / 16)
            } else {
                hex_digit(b[i / 2] as int % 16)
            },
    )
}

/// Hex encoding is undone by hex decoding, and gives valid hex.
pub proof fn lemma_hex_roundtrip(b: Seq<u8>)
    ensures
        hex_valid(hex_encode_spec(b)),
        hex_decode_spec(hex_encode_spec(b)) == b,
{
    let e = hex_encode_spec(b);
    assert forall|k: int| 0 <= k < e.len() implies is_hex_upper(#[trigger] e[k]) by {
        let byte = b[k / 2] as int;
        assert(0 <= byte / 16 < 16 && 0 <= byte % 16 < 16) by (nonlinear_arith)
            requires 0 <= byte < 256;
    }
    assert(e.len() % 2 == 0);
    let d = hex_decode_spec(e);
    assert(d.len() == b.len());
    assert forall|i: int| 0 <= i < b.len() implies d[i] == b[i] by {
        let byte = b[i] as int;
        assert((2 * i) / 2 == i && (2 * i) % 2 == 0 && (2 * i + 1) / 2 == i && (2 * i + 1) % 2
            == 1) by (nonlinear_arith);
        assert(0 <= byte / 16 < 16 && 0 <= byte % 16 < 16 && (byte / 16) * 16 + byte % 16 == byte)
            by (nonlinear_arith)
            requires 0 <= byte < 256;
        assert(hex_value(hex_digit(byte / 16)) == byte / 16);
        assert(hex_value(hex_digit(byte % 16)) == byte % 16);
    }
    assert(d =~= b);
}

/// UTF-8 takes at most four bytes per character.
pub proof fn lemma_encode_utf8_len(chars: Seq<char>)
    ensures
        encode_utf8(chars).len() <= 4 * chars.len(),
    decreases chars.len(),
{
    if chars.len() > 0 {
        lemma_encode_utf8_len(chars.drop_first());
    }
}

/// The key that PBKDF2 with HMAC-SHA512 derives, of `len` bytes.
pub uninterp spec fn pbkdf2_hmac_sha512(iterations: nat, salt: Seq<u8>, secret: Seq<u8>, len: nat) -> Seq<u8>;

/// `data_encoding::HEXUPPER.decode` on the bytes of `s`: it succeeds exactly
/// on an even number of digits `0-9A-F` (lower case is refused) and gives one
/// byte per pair of digits.
#[verifier::external_body]
fn hex_upper_decode(s: &str) -> (r: Result<Vec<u8>, data_encoding::DecodeError>)
    requires
        encode_utf8(s@).len() <= usize::MAX / 8,
    ensures
        r is Ok <==> hex_valid(s@),
        r matches Ok(v) ==> v@ == hex_decode_spec(s@),
{
    data_encoding::HEXUPPER.decode(s.as_bytes())
}

/// `data_encoding::HEXUPPER.encode`: two upper-case hex digits per byte,
/// high nibble first.
#[verifier::external_body]
fn hex_upper_encode(b: &[u8]) -> (r: String)
    requires
        b@.len() <= usize::MAX / 512,
    ensures
        r@ == hex_encode_spec(b@),
{
    data_encoding::HEXUPPER.encode(b)
}

/// `ring::pbkdf2::derive` with `PBKDF2_HMAC_SHA512`: fills an output of
/// `out_len` bytes with the derived key. Inputs are bounded far below ring's
/// own limits, where it would panic.
#[verifier::external_body]
fn pbkdf2_sha512_derive(iterations: u32, salt: &[u8], secret: &[u8], out_len: usize) -> (r: Vec<
    u8,
>)
    requires
        iterations > 0,
        salt@.len() < 0x1000_0000_0000_0000,
        secret@.len() < 0x1000_0000_0000_0000,
        out_len <= 64 * 0xffff_ffff,
    ensures
        r@ == pbkdf2_hmac_sha512(iterations as nat, salt@, secret@, out_len as nat),
        r@.len() == out_len,
{
    let mut out = vec![0u8; out_len];
    ring::pbkdf2::derive(
        ring::pbkdf2::PBKDF2_HMAC_SHA512,
        std::num::NonZeroU32::new(iterations).unwrap(),
        salt,
        secret,
        &mut out,
    );
    out
}

/// `ring::pbkdf2::verify` with `PBKDF2_HMAC_SHA512`: succeeds exactly when
/// `previously_derived` is non-empty and equals the key that `derive` makes
/// of the same inputs with its length.
#[verifier::external_body]
fn pbkdf2_sha512_verify(
    iterations: u32,
    salt: &[u8],
    secret: &[u8],
    previously_derived: &[u8],
) -> (r: bool)
    requires
        iterations > 0,
        salt@.len() < 0x1000_0000_0000_0000,
        secret@.len() < 0x1000_0000_0000_0000,
    ensures
        r == (previously_derived@.len() > 0 && pbkdf2_hmac_sha512(
            iterations as nat,
            salt@,
            secret@,
            previously_derived@.len(),
        ) == previously_derived@),
{
    ring::pbkdf2::verify(
        ring::pbkdf2::PBKDF2_HMAC_SHA512,
        std::num::NonZeroU32::new(iterations).unwrap(),
        salt,
        secret,
        previously_derived,
    ).is_ok()
}

/// `ring::rand::SystemRandom::fill` on a buffer of `len` bytes: when it
/// succeeds the buffer has that length. Nothing is said of the bytes, which
/// come from the operating system's random source.
#[verifier::external_body]
fn random_bytes(len: usize) -> (r: Result<Vec<u8>, ring::error::Unspecified>)
    ensures
        r matches Ok(v) ==> v@.len() == len,
{
    let mut buf = vec![0u8; len];
    ring::rand::SecureRandom::fill(&ring::rand::SystemRandom::new(), &mut buf).map(|_| buf)
}

/// Whether `password` matches the stored hex `hash` under the hex `salt`.
pub open spec fn password_matches(password: Seq<char>, hash: Seq<char>, salt: Seq<char>) -> bool {
    let derived = hex_decode_spec(hash);
    derived.len() > 0 && pbkdf2_hmac_sha512(
        N_ITER as nat,
        hex_decode_spec(salt),
        encode_utf8(password),
        derived.len(),
    ) == derived
}

/// A stored password verifies: for every password and every 64-byte salt,
/// the 64-byte PBKDF2-HMAC-SHA512 key of the password under the salt, with
/// key and salt written as upper-case hex of 128 characters each, matches
/// that password.
pub proof fn lemma_stored_password_matches(password: Seq<char>, salt: Seq<u8>, key: Seq<u8>)
    requires
        salt.len() == CREDENTIAL_LEN,
        key.len() == CREDENTIAL_LEN,
        key == pbkdf2_hmac_sha512(
            N_ITER as nat,
            salt,
            encode_utf8(password),
            CREDENTIAL_LEN as nat,
        ),
    ensures
        hex_encode_spec(key).len() == 2 * CREDENTIAL_LEN,
        hex_encode_spec(salt).len() == 2 * CREDENTIAL_LEN,
        hex_valid(hex_encode_spec(key)),
        hex_valid(hex_encode_spec(salt)),
        password_matches(password, hex_encode_spec(key), hex_encode_spec(salt)),
{
    lemma_hex_roundtrip(key);
    lemma_hex_roundtrip(salt);
}

/// Inputs small enough for the hashing and hex routines.
pub open spec fn password_inputs_fit(password: &str, hash: &str, salt: &str) -> bool {
    &&& encode_utf8(password@).len() < 0x1000_0000_0000_0000
    &&& encode_utf8(hash@).len() <= usize::MAX / 8
    &&& encode_utf8(salt@).len() <= usize::MAX / 8
    &&& hex_decode_spec(salt@).len() < 0x1000_0000_0000_0000
}

/// Checks a password against a stored hex hash and hex salt.
pub fn verify_password(password: &str, hash: &str, salt: &str) -> (r: bool)
    requires
        hex_valid(salt@),
        hex_valid(hash@),
        password_inputs_fit(password, hash, salt),
    ensures
        r == password_matches(password@, hash@, salt@),
{
    let salt_bytes = match hex_upper_decode(salt) {
        Ok(v) => v,
        Err(_) => {
            proof {
                assert(false);
            }
            return false;
        },
    };
    let hash_bytes = match hex_upper_decode(hash) {
        Ok(v) => v,
        Err(_) => {
            proof {
                assert(false);
            }
            return false;
        },
    };
    pbkdf2_sha512_verify(N_ITER, salt_bytes.as_slice(), password.as_bytes(), hash_bytes.as_slice())
}

/// Why a password could not be hashed.
#[derive(Debug, Clone, Copy, PartialEq, Eq)]
pub enum HashError {
    /// The random source failed to give a salt.
    Random,
    /// The derived key also matched the password with an `a` appended.
    SelfCheck,
}

/// Hashes `password` with the given salt and returns `(hash, salt)` in hex.
/// It checks the result as a stored password would be checked: the password
/// must match, and the password with an `a` appended must not.
pub fn hash_password_with_salt(password: &String, salt: &[u8]) -> (r: Result<
    (String, String),
    HashError,
>)
    requires
        salt@.len() == CREDENTIAL_LEN,
        password@.len() < 0x0100_0000_0000_0000,
    ensures
        ({
            let hash = pbkdf2_hmac_sha512(
                N_ITER as nat,
                salt@,
                encode_utf8(password@),
                CREDENTIAL_LEN as nat,
            );
            match r {
                Ok((h, s)) => {
                    &&& h@.len() == 2 * CREDENTIAL_LEN
                    &&& s@.len() == 2 * CREDENTIAL_LEN
                    &&& h@ == hex_encode_spec(hash)
                    &&& s@ == hex_encode_spec(salt@)
                    &&& password_matches(password@, h@, s@)
                    &&& !password_matches(password@.push('a'), h@, s@)
                },
                Err(e) => e == HashError::SelfCheck && password_matches(
                    password@.push('a'),
                    hex_encode_spec(hash),
                    hex_encode_spec(salt@),
                ),
            }
        }),
{
    proof {
        lemma_encode_utf8_len(password@);
    }
    let derived = pbkdf2_sha512_derive(
        N_ITER,
        salt,
        password.as_str().as_bytes(),
        CREDENTIAL_LEN,
    );
    let salt_hex = hex_upper_encode(salt);
    let hash_hex = hex_upper_encode(derived.as_slice());
    proof {
        lemma_hex_roundtrip(salt@);
        lemma_hex_roundtrip(derived@);
        lemma_encode_utf8_len(salt_hex@);
        lemma_encode_utf8_len(hash_hex@);
    }
    let ok = verify_password(password.as_str(), hash_hex.as_str(), salt_hex.as_str());
    assert(ok);
    let mut other = password.clone();
    other.push('a');
    proof {
        lemma_encode_utf8_len(other@);
    }
    if verify_password(other.as_str(), hash_hex.as_str(), salt_hex.as_str()) {
        return Err(HashError::SelfCheck);
    }
    Ok((hash_hex, salt_hex))
}

/// Hashes `password` under a fresh random salt and returns `(hash, salt)`
/// in hex: the hash is the PBKDF2-HMAC-SHA512 key of the password under the
/// salt. The salt comes from the operating system: when it can give none
/// the result is `HashError::Random`. `HashError::SelfCheck` comes only where
/// the key of the salt drawn also matches the password with `a` appended.
pub fn hash_password(password: &String) -> (r: Result<(String, String), HashError>)
    requires
        password@.len() < 0x0100_0000_0000_0000,
    ensures
        r matches Ok((h, s)) ==> {
            &&& h@.len() == 2 * CREDENTIAL_LEN
            &&& s@.len() == 2 * CREDENTIAL_LEN
            &&& hex_valid(h@)
            &&& hex_valid(s@)
            &&& hex_decode_spec(s@).len() == CREDENTIAL_LEN
            &&& h@ == hex_encode_spec(
                pbkdf2_hmac_sha512(
                    N_ITER as nat,
                    hex_decode_spec(s@),
                    encode_utf8(password@),
                    CREDENTIAL_LEN as nat,
                ),
            )
            &&& password_matches(password@, h@, s@)
            &&& !password_matches(password@.push('a'), h@, s@)
        },
        r matches Err(HashError::SelfCheck) ==> exists|salt: Seq<u8>|
            salt.len() == CREDENTIAL_LEN && #[trigger] password_matches(
                password@.push('a'),
                hex_encode_spec(
                    pbkdf2_hmac_sha512(
                        N_ITER as nat,
                        salt,
                        encode_utf8(password@),
                        CREDENTIAL_LEN as nat,
                    ),
                ),
                hex_encode_spec(salt),
            ),
{
    let salt = match random_bytes(CREDENTIAL_LEN) {
        Ok(v) => v,
        Err(_) => {
            return Err(HashError::Random);
        },
    };
    let r = hash_password_with_salt(password, salt.as_slice());
    proof {
        lemma_hex_roundtrip(salt@);
    }
    r
}

} // verus!
