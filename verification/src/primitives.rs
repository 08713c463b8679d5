//! The cryptographic primitives and encodings that other crates compute.
//!
//! Each function here makes one outside call. What the call returns is either stated in full
//! or given a name, a function of the arguments alone, of which the rest of the library speaks.
use aes::Aes256;
use argon2::{Algorithm, Argon2, Params, Version};
use base64::prelude::BASE64_STANDARD;
use base64::prelude::BASE64_URL_SAFE_NO_PAD;
use base64::Engine;
use cbc::cipher::{block_padding::Pkcs7, BlockModeDecrypt, KeyIvInit};
use cbc::Decryptor;
use ring::rand::{SecureRandom, SystemRandom};
use ring::{digest, hkdf, hmac, pbkdf2};
use rsa::pkcs1v15::SigningKey;
use rsa::pkcs8::{DecodePrivateKey, EncodePrivateKey};
use rsa::signature::{SignatureEncoding, Signer};
use rsa::traits::{PrivateKeyParts, PublicKeyParts};
use rsa::{BigUint, RsaPrivateKey};
use std::num::NonZeroU32;
use vstd::prelude::*;

use crate::text;

verus! {

// ---------------------------------------------------------------------------
// Key derivation
// ---------------------------------------------------------------------------
/// The 32 bytes that PBKDF2 with HMAC-SHA256 derives.
pub uninterp spec fn pbkdf2_sha256(iterations: u32, salt: Seq<u8>, secret: Seq<u8>) -> Seq<u8>;

/// `ring::pbkdf2::derive` with HMAC-SHA256 into a buffer of 32 bytes: the bytes depend on the
/// round count, the salt and the secret alone.
#[verifier::external_body]
pub(crate) fn pbkdf2_sha256_derive(iterations: u32, salt: &[u8], secret: &[u8]) -> (r: [u8; 32])
    requires
        iterations != 0,
    ensures
        r@ == pbkdf2_sha256(iterations, salt@, secret@),
{
    let mut out = [0u8; 32];
    let rounds = NonZeroU32::new(iterations).unwrap();
    pbkdf2::derive(pbkdf2::PBKDF2_HMAC_SHA256, rounds, salt, secret, &mut out);
    out
}

/// Why Argon2 refuses its cost parameters, if it does.
pub open spec fn argon2_cost_fault(memory_kib: nat, rounds: nat, lanes: nat) -> Option<Seq<char>> {
    if memory_kib < 8 {
        Some("memory cost is too small"@)
    } else if memory_kib < lanes * 8 {
        Some("memory cost is too small"@)
    } else if rounds < 1 {
        Some("time cost is too small"@)
    } else if lanes < 1 {
        Some("not enough threads"@)
    } else if lanes > 0xff_ffff {
        Some("too many threads"@)
    } else {
        None
    }
}

/// `argon2::Params::new` for an output of 32 bytes, with the error given as its text: the
/// memory must be at least 8 blocks and at least 8 for each lane, and there must be at least
/// one round, at least one lane and at most 2^24 - 1 lanes. Where the memory is at least 8
/// blocks, the product of lanes and 8 must fit in 32 bits.
#[verifier::external_body]
pub(crate) fn argon2_check(memory_kib: u32, rounds: u32, lanes: u32) -> (r: Result<(), String>)
    requires
        memory_kib >= 8 ==> lanes * 8 <= u32::MAX,
    ensures
        match r {
            Ok(_) => argon2_cost_fault(memory_kib as nat, rounds as nat, lanes as nat) is None,
            Err(e) => argon2_cost_fault(memory_kib as nat, rounds as nat, lanes as nat) == Some(e@),
        },
{
    Params::new(memory_kib, rounds, lanes, Some(32)).map(|_| ()).map_err(|e| e.to_string())
}

/// What Argon2id, version 0x13, derives with an output of 32 bytes.
pub uninterp spec fn argon2id(
    memory_kib: u32,
    rounds: u32,
    lanes: u32,
    password: Seq<u8>,
    salt: Seq<u8>,
) -> Result<Seq<u8>, Seq<char>>;

/// `argon2::Argon2::hash_password_into` with Argon2id, version 0x13, into a buffer of 32
/// bytes, with the error given as its text: the outcome depends on the arguments alone. With a
/// salt of 8 bytes or more, and neither password nor salt of 2^32 bytes or more, it succeeds.
#[verifier::external_body]
pub(crate) fn argon2id_derive(
    memory_kib: u32,
    rounds: u32,
    lanes: u32,
    password: &[u8],
    salt: &[u8],
) -> (r: Result<[u8; 32], String>)
    requires
        argon2_cost_fault(memory_kib as nat, rounds as nat, lanes as nat) is None,
    ensures
        text::result_view(r) == argon2id(memory_kib, rounds, lanes, password@, salt@),
        password@.len() <= u32::MAX && 8 <= salt@.len() <= u32::MAX ==> r is Ok,
{
    let params = Params::new(memory_kib, rounds, lanes, Some(32)).unwrap();
    let mut out = [0u8; 32];
    Argon2::new(Algorithm::Argon2id, Version::V0x13, params)
        .hash_password_into(password, salt, &mut out)
        .map_err(|e| e.to_string())?;
    Ok(out)
}

/// The 32 bytes that HKDF-Expand with SHA-256 gives.
pub uninterp spec fn hkdf_sha256_expand(key: Seq<u8>, info: Seq<u8>) -> Seq<u8>;

/// `ring::hkdf::Prk::new_less_safe` and `expand` with HKDF-SHA256, filled into a buffer of 32
/// bytes. Expansion to the length of the digest never fails, and the bytes depend on the key
/// and the info alone.
#[verifier::external_body]
pub(crate) fn hkdf_sha256(key: &[u8], info: &[u8]) -> (r: Result<[u8; 32], String>)
    ensures
        r is Ok,
        r->Ok_0@ == hkdf_sha256_expand(key@, info@),
{
    let prk = hkdf::Prk::new_less_safe(hkdf::HKDF_SHA256, key);
    let parts = [info];
    let okm = prk.expand(&parts, hkdf::HKDF_SHA256).map_err(|e| e.to_string())?;
    let mut out = [0u8; 32];
    okm.fill(&mut out).map_err(|e| e.to_string())?;
    Ok(out)
}

// ---------------------------------------------------------------------------
// Digests and ciphers
// ---------------------------------------------------------------------------
/// The SHA-256 digest of `data`.
pub uninterp spec fn sha256(data: Seq<u8>) -> Seq<u8>;

/// `ring::digest::digest` with SHA-256: 32 bytes that depend on the data alone.
#[verifier::external_body]
pub(crate) fn sha256_digest(data: &[u8]) -> (r: Vec<u8>)
    ensures
        r@ == sha256(data@),
        r@.len() == 32,
{
    digest::digest(&digest::SHA256, data).as_ref().to_vec()
}

/// Whether `tag` is the HMAC-SHA256 of `data` under `key`.
pub uninterp spec fn hmac_sha256_holds(key: Seq<u8>, data: Seq<u8>, tag: Seq<u8>) -> bool;

/// `ring::hmac::verify` with HMAC-SHA256: the verdict depends on the arguments alone.
#[verifier::external_body]
pub(crate) fn hmac_sha256_verify(key: &[u8], data: &[u8], tag: &[u8]) -> (r: bool)
    ensures
        r == hmac_sha256_holds(key@, data@, tag@),
{
    hmac::verify(&hmac::Key::new(hmac::HMAC_SHA256, key), data, tag).is_ok()
}

/// What AES-256 in CBC mode with PKCS#7 padding makes of a ciphertext.
pub uninterp spec fn aes256_cbc(
    key: Seq<u8>,
    iv: Seq<u8>,
    ciphertext: Seq<u8>,
) -> Result<Seq<u8>, Seq<char>>;

/// `cbc::Decryptor::<aes::Aes256>::decrypt_padded` with PKCS#7 padding, the error given by its
/// `Debug` text: the outcome depends on the arguments alone. A key of 32 bytes and an IV of 16
/// are what the decryptor is made of. A ciphertext that is not a whole number of 16-byte
/// blocks is refused.
#[verifier::external_body]
pub(crate) fn aes256_cbc_decrypt(key: &[u8], iv: &[u8], ciphertext: &[u8]) -> (r: Result<
    Vec<u8>,
    String,
>)
    requires
        key@.len() == 32,
        iv@.len() == 16,
    ensures
        text::result_view(r) == aes256_cbc(key@, iv@, ciphertext@),
        ciphertext@.len() % 16 != 0 ==> r is Err,
{
    let mut buffer = ciphertext.to_vec();
    let decryptor = Decryptor::<Aes256>::new_from_slices(key, iv).unwrap();
    match decryptor.decrypt_padded::<Pkcs7>(&mut buffer) {
        Ok(plain) => Ok(plain.to_vec()),
        Err(e) => Err(format!("{:?}", e)),
    }
}

/// Why a PKCS#8 DER document is refused as an RSA private key, if it is.
pub uninterp spec fn rsa_key_fault(der: Seq<u8>) -> Option<Seq<char>>;

/// `rsa::RsaPrivateKey::from_pkcs8_der`, with the error given as its text: the outcome depends
/// on the document alone.
#[verifier::external_body]
pub(crate) fn rsa_key_check(der: &[u8]) -> (r: Result<(), String>)
    ensures
        match r {
            Ok(_) => rsa_key_fault(der@) is None,
            Err(e) => rsa_key_fault(der@) == Some(e@),
        },
{
    RsaPrivateKey::from_pkcs8_der(der).map(|_| ()).map_err(|e| e.to_string())
}

/// The lengths in bits of the two primes of an RSA private key.
pub uninterp spec fn rsa_prime_bits(der: Seq<u8>) -> (usize, usize);

/// `rsa::traits::PrivateKeyParts::primes`, each by its `BigUint::bits`: the lengths depend on the
/// document alone.
#[verifier::external_body]
pub(crate) fn rsa_measure_primes(der: &[u8]) -> (r: (usize, usize))
    requires
        rsa_key_fault(der@) is None,
    ensures
        r == rsa_prime_bits(der@),
{
    let key = RsaPrivateKey::from_pkcs8_der(der).unwrap();
    (key.primes()[0].bits(), key.primes()[1].bits())
}

/// Whether the second prime is at most 16 bits longer than the first. Work with the private key
/// takes rounds in proportion to their quotient.
pub open spec fn primes_are_balanced(bits: (usize, usize)) -> bool {
    bits.1 <= bits.0 + 16
}

/// The length in bytes of the modulus of an RSA private key.
pub uninterp spec fn rsa_modulus_bytes(der: Seq<u8>) -> usize;

/// `rsa::traits::PublicKeyParts::size`: the length depends on the document alone.
#[verifier::external_body]
pub(crate) fn rsa_measure_modulus(der: &[u8]) -> (r: usize)
    requires
        rsa_key_fault(der@) is None,
    ensures
        r == rsa_modulus_bytes(der@),
{
    RsaPrivateKey::from_pkcs8_der(der).unwrap().size()
}

/// The PKCS#8 DER document of an RSA private key with these numbers, the highest byte of each
/// first, or why there is none.
pub uninterp spec fn rsa_document(
    n: Seq<u8>,
    e: Seq<u8>,
    d: Seq<u8>,
    p: Seq<u8>,
    q: Seq<u8>,
) -> Result<Seq<u8>, Seq<char>>;

/// `rsa::RsaPrivateKey::from_components` and `to_pkcs8_der`, with errors given as their texts: the
/// outcome depends on the numbers alone.
#[verifier::external_body]
pub(crate) fn rsa_write(n: &[u8], e: &[u8], d: &[u8], p: &[u8], q: &[u8]) -> (r: Result<
    Vec<u8>,
    String,
>)
    ensures
        text::result_view(r) == rsa_document(n@, e@, d@, p@, q@),
{
    let primes = vec![BigUint::from_bytes_be(p), BigUint::from_bytes_be(q)];
    let (n, e) = (BigUint::from_bytes_be(n), BigUint::from_bytes_be(e));
    let key = RsaPrivateKey::from_components(n, e, BigUint::from_bytes_be(d), primes)
        .map_err(|e| e.to_string())?;
    key.to_pkcs8_der().map(|der| der.as_bytes().to_vec()).map_err(|e| e.to_string())
}

/// The PKCS#1 v1.5 signature over data with SHA-256.
pub uninterp spec fn rsa_sha256_signature(der: Seq<u8>, data: Seq<u8>) -> Result<
    Seq<u8>,
    Seq<char>,
>;

/// `rsa::pkcs1v15::SigningKey::<Sha256>::try_sign`, with the error given as its text. It draws no
/// randomness: the outcome depends on the key document and the data alone.
#[verifier::external_body]
pub(crate) fn rsa_sha256_sign(der: &[u8], data: &[u8]) -> (r: Result<Vec<u8>, String>)
    requires
        rsa_key_fault(der@) is None,
        primes_are_balanced(rsa_prime_bits(der@)),
    ensures
        text::result_view(r) == rsa_sha256_signature(der@, data@),
{
    let key = RsaPrivateKey::from_pkcs8_der(der).unwrap();
    let made = SigningKey::<sha2::Sha256>::new(key).try_sign(data);
    made.map(|s| s.to_vec()).map_err(|e| e.to_string())
}

/// The PKCS#1 v1.5 signature over data with SHA-512.
pub uninterp spec fn rsa_sha512_signature(der: Seq<u8>, data: Seq<u8>) -> Result<
    Seq<u8>,
    Seq<char>,
>;

/// `rsa::pkcs1v15::SigningKey::<Sha512>::try_sign`, with the error given as its text. It draws no
/// randomness: the outcome depends on the key document and the data alone.
#[verifier::external_body]
pub(crate) fn rsa_sha512_sign(der: &[u8], data: &[u8]) -> (r: Result<Vec<u8>, String>)
    requires
        rsa_key_fault(der@) is None,
        primes_are_balanced(rsa_prime_bits(der@)),
    ensures
        text::result_view(r) == rsa_sha512_signature(der@, data@),
{
    let key = RsaPrivateKey::from_pkcs8_der(der).unwrap();
    let made = SigningKey::<sha2::Sha512>::new(key).try_sign(data);
    made.map(|s| s.to_vec()).map_err(|e| e.to_string())
}

/// What RSA-OAEP with SHA-1 makes of a ciphertext.
pub uninterp spec fn rsa_oaep_sha1(der: Seq<u8>, ciphertext: Seq<u8>) -> Result<
    Seq<u8>,
    Seq<char>,
>;

/// `rsa::RsaPrivateKey::decrypt` with `Oaep::new::<Sha1>()`, the error given as its text: the
/// outcome depends on the key document and the ciphertext alone.
#[verifier::external_body]
pub(crate) fn rsa_oaep_sha1_decrypt(der: &[u8], ciphertext: &[u8]) -> (r: Result<Vec<u8>, String>)
    requires
        rsa_key_fault(der@) is None,
        primes_are_balanced(rsa_prime_bits(der@)),
    ensures
        text::result_view(r) == rsa_oaep_sha1(der@, ciphertext@),
{
    let key = RsaPrivateKey::from_pkcs8_der(der).unwrap();
    key.decrypt(rsa::Oaep::new::<sha1::Sha1>(), ciphertext).map_err(|e| e.to_string())
}

/// What RSA-OAEP with SHA-256 makes of a ciphertext.
pub uninterp spec fn rsa_oaep_sha256(der: Seq<u8>, ciphertext: Seq<u8>) -> Result<
    Seq<u8>,
    Seq<char>,
>;

/// `rsa::RsaPrivateKey::decrypt` with `Oaep::new::<Sha256>()`, the error given as its text:
/// the outcome depends on the key document and the ciphertext alone.
#[verifier::external_body]
pub(crate) fn rsa_oaep_sha256_decrypt(der: &[u8], ciphertext: &[u8]) -> (r: Result<
    Vec<u8>,
    String,
>)
    requires
        rsa_key_fault(der@) is None,
        primes_are_balanced(rsa_prime_bits(der@)),
    ensures
        text::result_view(r) == rsa_oaep_sha256(der@, ciphertext@),
{
    let key = RsaPrivateKey::from_pkcs8_der(der).unwrap();
    key.decrypt(rsa::Oaep::new::<sha2::Sha256>(), ciphertext).map_err(|e| e.to_string())
}

/// `ring::rand::SystemRandom::fill` into 32 bytes. Where the system has no randomness to give,
/// the bytes stay zero. Nothing is promised of them.
#[verifier::external_body]
pub(crate) fn random_bytes() -> (r: [u8; 32]) {
    let mut out = [0u8; 32];
    let _ = SystemRandom::new().fill(&mut out);
    out
}

/// `ring::rand::SystemRandom::fill` into 16 bytes, or nothing where the system has no
/// randomness to give. Nothing is promised of the bytes.
#[verifier::external_body]
pub(crate) fn random_salt() -> (r: Option<[u8; 16]>) {
    let mut out = [0u8; 16];
    SystemRandom::new().fill(&mut out).ok().map(|_| out)
}

/// `uuid::Uuid::new_v4`: 16 bytes, random but for the four bits that hold the version and the
/// two that hold the variant.
#[verifier::external_body]
pub(crate) fn new_uuid() -> (r: [u8; 16])
    ensures
        r@[6] / 16 == 4,
        r@[8] / 64 == 2,
{
    uuid::Uuid::new_v4().into_bytes()
}

// ---------------------------------------------------------------------------
// Encodings
// ---------------------------------------------------------------------------
/// The hyphenated text of a UUID.
pub open spec fn uuid_hyphenated(bytes: Seq<u8>) -> Seq<char> {
    hex_encoded(bytes.subrange(0, 4)) + "-"@ + hex_encoded(bytes.subrange(4, 6)) + "-"@
        + hex_encoded(bytes.subrange(6, 8)) + "-"@ + hex_encoded(bytes.subrange(8, 10)) + "-"@
        + hex_encoded(bytes.subrange(10, 16))
}

/// The text of `uuid::Uuid`: its bytes in lower-case hexadecimal, with hyphens behind the
/// fourth, sixth, eighth and tenth.
#[verifier::external_body]
pub(crate) fn uuid_text(bytes: [u8; 16]) -> (r: String)
    ensures
        r@ == uuid_hyphenated(bytes@),
{
    uuid::Uuid::from_bytes(bytes).to_string()
}

/// What the standard Base64 alphabet with padding makes of a text.
pub uninterp spec fn base64_decoded(encoded: Seq<char>) -> Result<Seq<u8>, Seq<char>>;

/// `base64::Engine::decode` of `BASE64_STANDARD`, with the error given as its text: the
/// outcome depends on the text alone.
#[verifier::external_body]
pub(crate) fn base64_decode(encoded: &str) -> (r: Result<Vec<u8>, String>)
    ensures
        text::result_view(r) == base64_decoded(encoded@),
{
    BASE64_STANDARD.decode(encoded).map_err(|e| e.to_string())
}

/// The character of a value below 64 in the Base64 alphabet: letters, digits, and two characters
/// in which the standard alphabet and the URL-safe one differ.
pub open spec fn base64_char(value: int, url_safe: bool) -> char {
    if value < 26 {
        (65 + value) as char
    } else if value < 52 {
        (71 + value) as char
    } else if value < 62 {
        (value - 4) as char
    } else if value == 62 {
        if url_safe {
            '-'
        } else {
            '+'
        }
    } else if url_safe {
        '_'
    } else {
        '/'
    }
}

/// The Base64 text of `bytes`: four characters for each three bytes. What is left at the end
/// gives two or three characters, padded in the standard alphabet and not in the URL-safe one.
pub open spec fn base64_text(bytes: Seq<u8>, url_safe: bool) -> Seq<char>
    decreases bytes.len(),
{
    let a = if bytes.len() > 0 {
        bytes[0] as int
    } else {
        0
    };
    let b = if bytes.len() > 1 {
        bytes[1] as int
    } else {
        0
    };
    let c = if bytes.len() > 2 {
        bytes[2] as int
    } else {
        0
    };
    let four = seq![
        base64_char(a / 4, url_safe),
        base64_char(a % 4 * 16 + b / 16, url_safe),
        base64_char(b % 16 * 4 + c / 64, url_safe),
        base64_char(c % 64, url_safe),
    ];
    if bytes.len() == 0 {
        Seq::empty()
    } else if bytes.len() == 1 {
        if url_safe {
            four.take(2)
        } else {
            four.take(2) + seq!['=', '=']
        }
    } else if bytes.len() == 2 {
        if url_safe {
            four.take(3)
        } else {
            four.take(3) + seq!['=']
        }
    } else {
        four + base64_text(bytes.skip(3), url_safe)
    }
}

/// `base64::Engine::encode` of `BASE64_STANDARD`: the text in the standard alphabet, padded.
/// The encoded length must fit in memory.
#[verifier::external_body]
pub(crate) fn base64_encode(bytes: &[u8]) -> (r: String)
    requires
        bytes@.len() <= 0x4000_0000,
    ensures
        r@ == base64_text(bytes@, false),
{
    BASE64_STANDARD.encode(bytes)
}

/// `base64::Engine::encode` of `BASE64_URL_SAFE_NO_PAD`: the text in the URL-safe alphabet,
/// without padding. The encoded length must fit in memory.
#[verifier::external_body]
pub(crate) fn base64_url_encode(bytes: &[u8]) -> (r: String)
    requires
        bytes@.len() <= 0x4000_0000,
    ensures
        r@ == base64_text(bytes@, true),
{
    BASE64_URL_SAFE_NO_PAD.encode(bytes)
}

/// The lower-case hexadecimal digit for a value below 16.
pub open spec fn hex_digit(value: u8) -> char {
    if value < 10 {
        (48 + value) as char
    } else {
        (87 + value) as char
    }
}

/// Two hexadecimal digits for each byte, the high half first.
pub open spec fn hex_encoded(bytes: Seq<u8>) -> Seq<char> {
    Seq::new(
        2 * bytes.len(),
        |i: int|
            hex_digit(
                if i % 2 == 0 {
                    bytes[i / 2] / 16
                } else {
                    bytes[i / 2] % 16
                },
            ),
    )
}

/// The value of a hexadecimal digit, in either case.
pub open spec fn hex_value(c: char) -> Option<u8> {
    if '0' <= c <= '9' {
        Some((c as u32 - 48) as u8)
    } else if 'a' <= c <= 'f' {
        Some((c as u32 - 87) as u8)
    } else if 'A' <= c <= 'F' {
        Some((c as u32 - 55) as u8)
    } else {
        None
    }
}

/// Whether `text` writes bytes in hexadecimal.
pub open spec fn is_hex(text: Seq<char>) -> bool {
    &&& text.len() % 2 == 0
    &&& forall|i: int| 0 <= i < text.len() ==> (#[trigger] hex_value(text[i])) is Some
}

/// The bytes that a hexadecimal text writes.
pub open spec fn hex_decoded(text: Seq<char>) -> Seq<u8> {
    Seq::new(
        text.len() / 2,
        |i: int|
            (hex_value(text[2 * i]).unwrap() * 16 + hex_value(text[2 * i + 1]).unwrap()) as u8,
    )
}

/// `hex::encode`: two lower-case digits for each byte.
#[verifier::external_body]
pub(crate) fn hex_encode(bytes: &[u8]) -> (r: String)
    ensures
        r@ == hex_encoded(bytes@),
{
    hex::encode(bytes)
}

/// The text of the error with which `hex::decode` refuses a text.
pub uninterp spec fn hex_fault(text: Seq<char>) -> Seq<char>;

/// `hex::decode`, with the error given as its text: an even number of hexadecimal digits of
/// either case is decoded, anything else is refused.
#[verifier::external_body]
pub(crate) fn hex_decode(text: &str) -> (r: Result<Vec<u8>, String>)
    ensures
        r is Ok <==> is_hex(text@),
        r matches Ok(bytes) ==> bytes@ == hex_decoded(text@),
        r matches Err(e) ==> e@ == hex_fault(text@),
{
    hex::decode(text).map_err(|e| e.to_string())
}

/// Decoding what was encoded gives the bytes back.
pub proof fn hex_round_trip(bytes: Seq<u8>)
    ensures
        is_hex(hex_encoded(bytes)),
        hex_decoded(hex_encoded(bytes)) == bytes,
{
    let t = hex_encoded(bytes);
    assert forall|i: int| 0 <= i < t.len() implies (#[trigger] hex_value(t[i])) is Some by {}
    assert forall|i: int| 0 <= i < bytes.len() implies hex_decoded(t)[i] == bytes[i] by {
        assert(2 * i / 2 == i && 2 * i % 2 == 0);
        assert((2 * i + 1) / 2 == i && (2 * i + 1) % 2 == 1);
        assert(hex_value(t[2 * i]) == Some((bytes[i] / 16) as u8));
        assert(hex_value(t[2 * i + 1]) == Some((bytes[i] % 16) as u8));
    }
    assert(hex_decoded(t) =~= bytes);
}

} // verus!
