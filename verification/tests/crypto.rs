use base64::Engine;
use bitter::crypto::{
    check_kdf_costs, check_primes, check_rsa_key, collect_sealed, decrypt_aes_cbc, decrypt_cipher_string,
    decrypt_rsa_oaep_sha1, decrypt_rsa_oaep_sha256, decrypt_symmetric_key, derive_login_hash,
    derive_master_key_argon2, derive_master_key_pbkdf2, generate_pkce_pair, open_bare, open_sealed,
    parse_cipher_string, pkce_pair, prompt_and_derive_master_key, split_key, CipherForm,
};
use rsa::pkcs8::EncodePrivateKey;
use rsa::{BigUint, RsaPrivateKey};

const MASTER: &str = "ab1b77b43a92f9997067da13ecffd72e500744ddb6f9f5d8dbb84dfc08d24560";
const WRAPPED: &str = "2.chOY1e83gPUtqngc0hmuXA==|cNv3ZnXOsdjreayko4knSUEU5RKd+xHpCkhSkBBlf4+th744fAIaEulAJfEBf4gmmdH1Qdkg1+mLJarSnuyKDw/6a9DEvXpuQOvfyyHQJ7Q=|W3pAWa6CTi/GQyx5U9mxg21G69mtQ6mHWCk6fVOQfq8=";
const ARGON: &str = "5685a14123b5af36fb4fc2059c94caaa73787628816bb1b8a1aeb3fde6226020";
const E_NAME: &str = "2.h6mmNDfonwOFKmQs/pRPIQ==|EipuHFL0puYl4cgOMhfzIQ==|F2k8VGbCRcnms9RDbf0W2vafXCfEk87zBcN1X046Z9U=";
const BARE: &str = "0.vOQUesq+E9DBZYBccRBFQA==|ZroZFEacfk70ims/UilS8Q==";
const BAD_MAC: &str = "2.h6mmNDfonwOFKmQs/pRPIQ==|EipuHFL0puYl4cgOMhfzIQ==|AAAAAAAAAAAAAAAAAAAAAAAAAAAAAAAAAAAAAAAAAAA=";
const ORG_SHA1: &str = "4.sKlumkVozovi9hlnXVj45K0zBVVSYjXg3BCcZuf8ImbYQttxka8LGavhi5k0Fju6UT5Z9juX0DF5fylyOyyjFqqFHl7jQPym1dG5S3iDMcmmGCl4UUUW660bMaL6Hn4PMLb3HcmDCwg8lVHaNQ707nopvx3msPtgR3hS4bvfk2sGbdm4rzj57BvgfvK8";
const ORG_SHA256: &str = "3.BKLKztmYjt4rIxsWQAblxYbPRc8vjVNn4aUko7YVcZdkX3MUm5V8exqA6Y3cjgKAv4lw9Ul9bsvJMnEcOiEl9mGWY/k6XAocfefwbMica8YdNT0O55I43SAVyCm8Tj9gQGVyGIFJu3HPOfcOp6MzCf0Lex1F/QI9V4Ic7kvFA/Y9aegdk639r7aLGlZ2";

/// The Mersenne number with `bits` bits.
fn mersenne(bits: usize) -> BigUint {
    (BigUint::from(1u8) << bits) - BigUint::from(1u8)
}

/// An RSA key made from two Mersenne primes, in PKCS#8.
fn rsa_der() -> Vec<u8> {
    let key = RsaPrivateKey::from_p_q(mersenne(607), mersenne(521), 65537u32.into()).unwrap();
    key.to_pkcs8_der().unwrap().as_bytes().to_vec()
}

fn bytes(hex: &str) -> Vec<u8> {
    hex::decode(hex).unwrap()
}

fn master() -> [u8; 32] {
    bytes(MASTER).try_into().unwrap()
}

fn user_keys() -> ([u8; 32], [u8; 32]) {
    let all: Vec<u8> = (0u8..64).collect();
    (all[..32].try_into().unwrap(), all[32..].try_into().unwrap())
}

fn base64(text: &str) -> Vec<u8> {
    base64::prelude::BASE64_STANDARD.decode(text).unwrap()
}

#[test]
fn test_pbkdf2_derivation() {
    let password = "masterpassword123";
    let email = "test@example.com";
    let iterations = 5000;
    let master_key = derive_master_key_pbkdf2(password, email, iterations).unwrap();
    assert_eq!(master_key.len(), 32);

    let login_hash = derive_login_hash(&master_key, password);
    assert!(!login_hash.is_empty());
}

#[test]
fn test_argon2_derivation() {
    let password = "masterpassword123";
    let email = "test@example.com";
    let iterations = 2;
    let memory_mb = 8;
    let parallelism = 1;
    let master_key =
        derive_master_key_argon2(password, email, iterations, memory_mb, parallelism).unwrap();
    assert_eq!(master_key.len(), 32);
}

#[test]
fn test_aes_cbc_decryption_error() {
    let key = [0u8; 32];
    let res = decrypt_symmetric_key(&key, "invalid_cipher_string");
    assert!(res.is_err());
}

#[test]
fn pbkdf2_gives_the_known_key_and_hash() {
    let key = derive_master_key_pbkdf2("masterpassword123", "test@example.com", 5000).unwrap();
    assert_eq!(key, master());
    assert_eq!(
        derive_login_hash(&key, "masterpassword123"),
        "zx241wHoY19qxQbsZK/5OflvUsamPdIJC2RFBeK3Q7M="
    );
}

#[test]
fn the_salt_is_the_lower_case_address() {
    let key = derive_master_key_pbkdf2("masterpassword123", "Test@Example.com", 5000).unwrap();
    assert_eq!(key, master());
}

#[test]
fn pbkdf2_refuses_no_iterations() {
    assert!(derive_master_key_pbkdf2("p", "e", 0).is_err());
}

#[test]
fn argon2_gives_the_known_key() {
    let key = derive_master_key_argon2("masterpassword123", "test@example.com", 2, 8, 1).unwrap();
    assert_eq!(key.to_vec(), bytes(ARGON));
}

#[test]
fn argon2_refuses_no_iterations() {
    assert!(derive_master_key_argon2("p", "e", 0, 8, 1).is_err());
}

#[test]
fn the_kind_of_derivation_is_chosen() {
    let a = prompt_and_derive_master_key("masterpassword123", "test@example.com", 0, 5000, None, None);
    assert_eq!(a.unwrap(), master());
    let b = prompt_and_derive_master_key(
        "masterpassword123",
        "test@example.com",
        1,
        2,
        Some(8),
        Some(1),
    );
    assert_eq!(b.unwrap().to_vec(), bytes(ARGON));
    let c = prompt_and_derive_master_key("p", "e", 1, 2, None, Some(1));
    assert_eq!(c.unwrap_err(), "Argon2 memory parameter missing from KDF settings");
    let d = prompt_and_derive_master_key("p", "e", 1, 2, Some(8), None);
    assert_eq!(d.unwrap_err(), "Argon2 parallelism parameter missing from KDF settings");
    let e = prompt_and_derive_master_key("p", "e", 7, 2, None, None);
    assert_eq!(e.unwrap_err(), "Unsupported KDF type: 7");
}

#[test]
fn argon2_costs_are_checked() {
    assert!(check_kdf_costs(0, Some(u32::MAX), Some(u32::MAX)));
    assert!(check_kdf_costs(1, Some(64), Some(4)));
    assert!(!check_kdf_costs(1, Some(0x40_0000), Some(4)));
    assert!(!check_kdf_costs(1, Some(64), Some(0x2000_0000)));
    assert!(check_kdf_costs(1, Some(0), Some(u32::MAX)));
    assert_eq!(
        prompt_and_derive_master_key("p", "e", 1, 3, Some(0), Some(u32::MAX)).unwrap_err(),
        "Invalid Argon2 KDF parameters: memory cost is too small"
    );
}

#[test]
fn the_user_key_is_unwrapped() {
    assert_eq!(decrypt_symmetric_key(&master(), WRAPPED).unwrap(), user_keys());
}

#[test]
fn a_wrong_master_key_unwraps_nothing() {
    assert!(decrypt_symmetric_key(&[1u8; 32], WRAPPED).is_err());
}

#[test]
fn a_user_key_has_64_bytes() {
    assert_eq!(
        split_key("Invalid length: ", &[0u8; 63]).unwrap_err(),
        "Invalid length: 63 (expected 64)"
    );
    let all: Vec<u8> = (0u8..64).collect();
    assert_eq!(split_key("", &all).unwrap(), user_keys());
}

#[test]
fn sealed_texts_are_opened() {
    let (enc, mac) = user_keys();
    assert_eq!(decrypt_cipher_string(E_NAME, &enc, &mac).unwrap(), b"GitHub");
}

#[test]
fn bare_texts_are_opened() {
    let (enc, mac) = user_keys();
    assert_eq!(decrypt_cipher_string(BARE, &enc, &mac).unwrap(), b"bare text");
}

#[test]
fn a_wrong_mac_is_refused() {
    let (enc, mac) = user_keys();
    assert_eq!(
        decrypt_cipher_string(BAD_MAC, &enc, &mac).unwrap_err(),
        "HMAC verification failed. The ciphertext might have been tampered with."
    );
}

#[test]
fn cipher_strings_are_told_apart() {
    assert!(matches!(
        parse_cipher_string("0.a|b").unwrap(),
        CipherForm::Bare { given_iv: Some(iv), ciphertext } if iv == "a" && ciphertext == "b"
    ));
    assert!(matches!(
        parse_cipher_string("0.b").unwrap(),
        CipherForm::Bare { given_iv: None, ciphertext } if ciphertext == "b"
    ));
    assert!(matches!(
        parse_cipher_string("2.a|b|c").unwrap(),
        CipherForm::Sealed { iv, ciphertext, mac } if iv == "a" && ciphertext == "b" && mac == "c"
    ));
    assert_eq!(
        parse_cipher_string("abc").unwrap_err(),
        "Invalid CipherString: Missing encType prefix"
    );
    assert_eq!(parse_cipher_string("x.abc").unwrap_err(), "Invalid encryption type prefix");
    assert_eq!(
        parse_cipher_string("0.a|b|c").unwrap_err(),
        "Unsupported Aes256_Cbc_NotApproved format"
    );
    assert_eq!(
        parse_cipher_string("2.a|b").unwrap_err(),
        "Missing IV, ciphertext, or MAC in CipherString"
    );
    assert_eq!(parse_cipher_string("9.a").unwrap_err(), "Unsupported encryption type: 9");
}

#[test]
fn aes_needs_a_key_and_a_block() {
    assert!(decrypt_aes_cbc(&[0u8; 31], &[0u8; 16], &[0u8; 16]).is_err());
    assert!(decrypt_aes_cbc(&[0u8; 32], &[0u8; 15], &[0u8; 16]).is_err());
    assert!(decrypt_aes_cbc(&[0u8; 32], &[0u8; 16], &[0u8; 15]).is_err());
}

#[test]
fn undecoded_parts_are_refused() {
    let bad: Result<Vec<u8>, String> = Err("no".to_string());
    assert!(collect_sealed(bad.clone(), Ok(vec![]), Ok(vec![])).is_err());
    assert!(collect_sealed(Ok(vec![]), bad.clone(), Ok(vec![])).is_err());
    assert!(collect_sealed(Ok(vec![]), Ok(vec![]), bad.clone()).is_err());
    assert!(open_bare(&[0u8; 32], None, bad).is_err());
    assert_eq!(
        open_sealed(&[0u8; 32], &[0u8; 16], &[0u8; 16], false).unwrap_err(),
        "HMAC verification failed. The ciphertext might have been tampered with."
    );
}

#[test]
fn rsa_opens_both_digests() {
    let der = rsa_der();
    let org: Vec<u8> = (64u8..128).collect();
    assert_eq!(decrypt_rsa_oaep_sha1(&der, &base64(&ORG_SHA1[2..])).unwrap(), org);
    let short: Vec<u8> = (0u8..32).collect();
    assert_eq!(decrypt_rsa_oaep_sha256(&der, &base64(&ORG_SHA256[2..])).unwrap(), short);
    assert!(decrypt_rsa_oaep_sha1(b"no key", &[]).is_err());
    assert!(decrypt_rsa_oaep_sha256(&der, &base64(&ORG_SHA1[2..])).is_err());
}

#[test]
fn unbalanced_rsa_keys_are_refused() {
    let key = RsaPrivateKey::from_p_q(3u8.into(), mersenne(521), 65537u32.into()).unwrap();
    let der = key.to_pkcs8_der().unwrap().as_bytes().to_vec();
    let fault = "RSA private key has unbalanced primes";
    assert_eq!(check_rsa_key(&der).unwrap_err(), fault);
    assert_eq!(decrypt_rsa_oaep_sha1(&der, &[1]).unwrap_err(), fault);
    assert_eq!(decrypt_rsa_oaep_sha256(&der, &[1]).unwrap_err(), fault);
    assert!(check_rsa_key(&rsa_der()).is_ok());
    assert!(check_primes(100, 116).is_ok());
    assert_eq!(check_primes(100, 117).unwrap_err(), fault);
}

#[test]
fn short_keys_are_refused_where_they_are_reached() {
    let (_, mac) = user_keys();
    assert_eq!(
        decrypt_cipher_string(E_NAME, &[1, 2], &mac).unwrap_err(),
        "Invalid AES-256 key length: 2 (expected 32)"
    );
    assert_eq!(
        decrypt_cipher_string(BAD_MAC, &[], &mac).unwrap_err(),
        "HMAC verification failed. The ciphertext might have been tampered with."
    );
    assert_eq!(
        decrypt_cipher_string(BARE, &[], &mac).unwrap_err(),
        "Invalid AES-256 key length: 0 (expected 32)"
    );
}

#[test]
fn the_challenge_is_the_hash_of_the_verifier() {
    let (verifier, challenge) = pkce_pair([0u8; 32]);
    assert_eq!(verifier, "AAAAAAAAAAAAAAAAAAAAAAAAAAAAAAAAAAAAAAAAAAA");
    assert_eq!(challenge, "DwBzhbb51LfusnSGBa_hqYSgo7-j8BTQnip4TOnlzRo");
}

#[test]
fn generated_verifiers_differ() {
    let (a, challenge) = generate_pkce_pair();
    let (b, _) = generate_pkce_pair();
    assert_eq!(a.len(), 43);
    assert_eq!(challenge.len(), 43);
    assert_ne!(a, b);
}
