//! Key derivation and decryption of what a Bitwarden server stores.
use vstd::prelude::*;
use vstd::string::*;
use vstd::utf8::*;

use crate::number;
use crate::primitives;
use crate::text;

verus! {

// ---------------------------------------------------------------------------
// Shared forms
// ---------------------------------------------------------------------------
/// A result whose error text is put behind `prefix`.
pub open spec fn in_context<T>(prefix: Seq<char>, r: Result<T, Seq<char>>) -> Result<
    T,
    Seq<char>,
> {
    match r {
        Ok(value) => Ok(value),
        Err(e) => Err(prefix + e),
    }
}

/// Puts an error text behind `prefix`.
pub fn with_context<T: View>(prefix: &str, r: Result<T, String>) -> (out: Result<T, String>)
    ensures
        text::result_view(out) == in_context(prefix@, text::result_view(r)),
        r matches Ok(value) ==> out == Ok::<T, String>(value),
{
    match r {
        Ok(value) => Ok(value),
        Err(e) => Err(text::join2(prefix, &e)),
    }
}

/// The 32 bytes of `bytes` that begin at `from`.
pub fn array_at(bytes: &[u8], from: usize) -> (r: [u8; 32])
    requires
        from + 32 <= bytes@.len(),
    ensures
        r@ == bytes@.subrange(from as int, from + 32),
{
    let mut out: [u8; 32] = [0u8;32];
    let size: usize = bytes.len();
    for i in 0..32usize
        invariant
            from + 32 <= size == bytes@.len(),
            forall|j: int| 0 <= j < i ==> out@[j] == bytes@[from + j],
    {
        out[i] = bytes[from + i];
    }
    assert(out@ =~= bytes@.subrange(from as int, from + 32));
    out
}

// ---------------------------------------------------------------------------
// Key derivation
// ---------------------------------------------------------------------------
/// The master key that PBKDF2 derives from a password and an email address.
pub open spec fn pbkdf2_master_key(
    password: Seq<char>,
    email: Seq<char>,
    iterations: u32,
) -> Result<Seq<u8>, Seq<char>> {
    if iterations == 0 {
        Err("PBKDF2 iterations count cannot be zero"@)
    } else {
        Ok(
            primitives::pbkdf2_sha256(
                iterations,
                encode_utf8(text::lowercase(email)),
                encode_utf8(password),
            ),
        )
    }
}

/// Derives the 256-bit master key from password and email with PBKDF2-HMAC-SHA256.
pub fn derive_master_key_pbkdf2(password: &str, email: &str, iterations: u32) -> (r: Result<
    [u8; 32],
    String,
>)
    ensures
        text::result_view(r) == pbkdf2_master_key(password@, email@, iterations),
        r matches Ok(key) ==> iterations > 0 && key@ == primitives::pbkdf2_sha256(
            iterations,
            encode_utf8(text::lowercase(email@)),
            encode_utf8(password@),
        ),
{
    if iterations == 0 {
        return Err("PBKDF2 iterations count cannot be zero".to_owned());
    }
    let salt = email.to_lowercase();
    Ok(primitives::pbkdf2_sha256_derive(iterations, salt.as_str().as_bytes(), password.as_bytes()))
}

/// The master key that Argon2id derives from a password and an email address.
pub open spec fn argon2_master_key(
    password: Seq<char>,
    email: Seq<char>,
    iterations: u32,
    memory_mb: u32,
    parallelism: u32,
) -> Result<Seq<u8>, Seq<char>> {
    match primitives::argon2_cost_fault(
        (memory_mb * 1024) as nat,
        iterations as nat,
        parallelism as nat,
    ) {
        Some(fault) => Err("Invalid Argon2 KDF parameters: "@ + fault),
        None => in_context(
            "Argon2 key derivation failed: "@,
            primitives::argon2id(
                (memory_mb * 1024) as u32,
                iterations,
                parallelism,
                encode_utf8(password),
                primitives::sha256(encode_utf8(text::lowercase(email))),
            ),
        ),
    }
}

/// Derives the 256-bit master key from password and email with Argon2id. The memory cost in
/// KiB must fit in 32 bits; so must, where there is any memory, the smallest memory for
/// `parallelism` lanes.
pub fn derive_master_key_argon2(
    password: &str,
    email: &str,
    iterations: u32,
    memory_mb: u32,
    parallelism: u32,
) -> (r: Result<[u8; 32], String>)
    requires
        memory_mb * 1024 <= u32::MAX,
        memory_mb > 0 ==> parallelism * 8 <= u32::MAX,
    ensures
        text::result_view(r) == argon2_master_key(
            password@,
            email@,
            iterations,
            memory_mb,
            parallelism,
        ),
        encode_utf8(password@).len() <= u32::MAX && primitives::argon2_cost_fault(
            (memory_mb * 1024) as nat,
            iterations as nat,
            parallelism as nat,
        ) is None ==> r is Ok,
        r matches Ok(key) ==> primitives::argon2id(
            (memory_mb * 1024) as u32,
            iterations,
            parallelism,
            encode_utf8(password@),
            primitives::sha256(encode_utf8(text::lowercase(email@))),
        ) == Ok::<Seq<u8>, Seq<char>>(key@),
{
    let memory_kib: u32 = memory_mb * 1024;
    match primitives::argon2_check(memory_kib, iterations, parallelism) {
        Err(e) => Err(text::join2("Invalid Argon2 KDF parameters: ", &e)),
        Ok(_) => {
            let lowered = email.to_lowercase();
            let salt = primitives::sha256_digest(lowered.as_str().as_bytes());
            with_context(
                "Argon2 key derivation failed: ",
                primitives::argon2id_derive(
                    memory_kib,
                    iterations,
                    parallelism,
                    password.as_bytes(),
                    &salt,
                ),
            )
        },
    }
}

/// The hash that proves a password to the server.
pub open spec fn login_hash(master_key: Seq<u8>, password: Seq<char>) -> Seq<char> {
    primitives::base64_text(
        primitives::pbkdf2_sha256(1, encode_utf8(password), master_key),
        false,
    )
}

/// Derives the login hash that is sent to the server.
pub fn derive_login_hash(master_key: &[u8], password: &str) -> (r: String)
    ensures
        r@ == login_hash(master_key@, password@),
        r@ == primitives::base64_text(
            primitives::pbkdf2_sha256(1, encode_utf8(password@), master_key@),
            false,
        ),
{
    let hash = primitives::pbkdf2_sha256_derive(1, password.as_bytes(), master_key);
    primitives::base64_encode(&hash)
}

/// Derives the stretched master key, an encryption key and a MAC key, with HKDF-SHA256.
pub fn derive_stretched_key(master_key: &[u8]) -> (r: Result<([u8; 32], [u8; 32]), String>)
    ensures
        r matches Ok(keys) && keys.0@ == primitives::hkdf_sha256_expand(
            master_key@,
            encode_utf8("enc"@),
        ) && keys.1@ == primitives::hkdf_sha256_expand(master_key@, encode_utf8("mac"@)),
{
    let enc = match primitives::hkdf_sha256(master_key, "enc".as_bytes()) {
        Ok(key) => key,
        Err(e) => {
            return Err(text::join2("HKDF encryption key expansion failed: ", &e));
        },
    };
    match primitives::hkdf_sha256(master_key, "mac".as_bytes()) {
        Ok(mac) => Ok((enc, mac)),
        Err(e) => Err(text::join2("HKDF MAC key expansion failed: ", &e)),
    }
}

// ---------------------------------------------------------------------------
// Cipher strings
// ---------------------------------------------------------------------------
/// What a cipher string is made of, each part still in Base64.
#[derive(Debug)]
pub enum CipherForm<T> {
    /// No MAC; without an IV the IV is all zeros.
    Bare { given_iv: Option<T>, ciphertext: T },
    /// A MAC over IV and ciphertext.
    Sealed { iv: T, ciphertext: T, mac: T },
}

/// The form with its texts taken by their views.
pub open spec fn form_view(form: CipherForm<String>) -> CipherForm<Seq<char>> {
    match form {
        CipherForm::Bare { given_iv: Some(iv), ciphertext } => CipherForm::Bare {
            given_iv: Some(iv@),
            ciphertext: ciphertext@,
        },
        CipherForm::Bare { given_iv: None, ciphertext } => CipherForm::Bare {
            given_iv: None,
            ciphertext: ciphertext@,
        },
        CipherForm::Sealed { iv, ciphertext, mac } => CipherForm::Sealed {
            iv: iv@,
            ciphertext: ciphertext@,
            mac: mac@,
        },
    }
}

/// What the data behind the encryption type `kind` is made of.
pub open spec fn data_form(kind: nat, data: Seq<Seq<char>>) -> Result<
    CipherForm<Seq<char>>,
    Seq<char>,
> {
    if kind == 0 {
        if data.len() == 2 {
            Ok(CipherForm::Bare { given_iv: Some(data[0]), ciphertext: data[1] })
        } else if data.len() == 1 {
            Ok(CipherForm::Bare { given_iv: None, ciphertext: data[0] })
        } else {
            Err("Unsupported Aes256_Cbc_NotApproved format"@)
        }
    } else if kind == 1 || kind == 2 {
        if data.len() < 3 {
            Err("Missing IV, ciphertext, or MAC in CipherString"@)
        } else {
            Ok(CipherForm::Sealed { iv: data[0], ciphertext: data[1], mac: data[2] })
        }
    } else {
        Err("Unsupported encryption type: "@ + number::decimal(kind))
    }
}

/// What the cipher string `s`, `type.part|part|..`, is made of.
pub open spec fn cipher_form(s: Seq<char>) -> Result<CipherForm<Seq<char>>, Seq<char>> {
    let parts = text::split_on(s, '.');
    if parts.len() < 2 {
        Err("Invalid CipherString: Missing encType prefix"@)
    } else {
        match number::unsigned_value(parts[0], u32::MAX as nat) {
            Err(_) => Err("Invalid encryption type prefix"@),
            Ok(kind) => data_form(kind, text::split_on(parts[1], '|')),
        }
    }
}

/// Takes a cipher string apart.
pub fn parse_cipher_string(s: &str) -> (r: Result<CipherForm<String>, String>)
    ensures
        match r {
            Ok(form) => cipher_form(s@) == Ok::<CipherForm<Seq<char>>, Seq<char>>(form_view(form)),
            Err(e) => cipher_form(s@) == Err::<CipherForm<Seq<char>>, Seq<char>>(e@),
        },
{
    let parts = text::split(s, '.');
    if parts.len() < 2 {
        return Err("Invalid CipherString: Missing encType prefix".to_owned());
    }
    assert(parts.deep_view()[0] == parts@[0]@ && parts.deep_view()[1] == parts@[1]@);
    let kind: u64 = match number::parse_unsigned(&parts[0], u32::MAX as u64) {
        Ok(kind) => kind,
        Err(_) => {
            return Err("Invalid encryption type prefix".to_owned());
        },
    };
    let data = text::split(&parts[1], '|');
    assert(forall|i: int| 0 <= i < data@.len() ==> data.deep_view()[i] == data@[i]@);
    if kind == 0 {
        if data.len() == 2 {
            Ok(CipherForm::Bare { given_iv: Some(data[0].clone()), ciphertext: data[1].clone() })
        } else if data.len() == 1 {
            Ok(CipherForm::Bare { given_iv: None, ciphertext: data[0].clone() })
        } else {
            Err("Unsupported Aes256_Cbc_NotApproved format".to_owned())
        }
    } else if kind == 1 || kind == 2 {
        if data.len() < 3 {
            Err("Missing IV, ciphertext, or MAC in CipherString".to_owned())
        } else {
            Ok(
                CipherForm::Sealed {
                    iv: data[0].clone(),
                    ciphertext: data[1].clone(),
                    mac: data[2].clone(),
                },
            )
        }
    } else {
        Err(text::join2("Unsupported encryption type: ", &number::decimal_text(kind)))
    }
}

/// What AES-256-CBC makes of `ciphertext`, with the lengths of key and IV checked first.
pub open spec fn aes_plaintext(key: Seq<u8>, iv: Seq<u8>, ciphertext: Seq<u8>) -> Result<
    Seq<u8>,
    Seq<char>,
> {
    if key.len() != 32 {
        Err("Invalid AES-256 key length: "@ + number::decimal(key.len()) + " (expected 32)"@)
    } else if iv.len() != 16 {
        Err("Invalid AES IV length: "@ + number::decimal(iv.len()) + " (expected 16)"@)
    } else {
        in_context(
            "AES decryption failed (incorrect key or corrupted data): "@,
            primitives::aes256_cbc(key, iv, ciphertext),
        )
    }
}

/// Decrypts raw AES-256-CBC ciphertext with the given key and IV.
pub fn decrypt_aes_cbc(key: &[u8], iv: &[u8], ciphertext: &[u8]) -> (r: Result<Vec<u8>, String>)
    ensures
        text::result_view(r) == aes_plaintext(key@, iv@, ciphertext@),
{
    if key.len() != 32 {
        return Err(
            text::join3(
                "Invalid AES-256 key length: ",
                &number::decimal_text(key.len() as u64),
                " (expected 32)",
            ),
        );
    }
    if iv.len() != 16 {
        return Err(
            text::join3(
                "Invalid AES IV length: ",
                &number::decimal_text(iv.len() as u64),
                " (expected 16)",
            ),
        );
    }
    with_context(
        "AES decryption failed (incorrect key or corrupted data): ",
        primitives::aes256_cbc_decrypt(key, iv, ciphertext),
    )
}

/// The part of an encryption key that AES takes: the first 32 bytes, or all of a shorter key.
pub open spec fn aes_key(enc_key: Seq<u8>) -> Seq<u8> {
    if enc_key.len() < 32 {
        enc_key
    } else {
        enc_key.take(32)
    }
}

/// Decrypts AES-256-CBC ciphertext with the first 32 bytes of the key; a shorter key is refused.
fn decrypt_with_front(enc_key: &[u8], iv: &[u8], ciphertext: &[u8]) -> (r: Result<
    Vec<u8>,
    String,
>)
    ensures
        text::result_view(r) == aes_plaintext(aes_key(enc_key@), iv@, ciphertext@),
{
    if enc_key.len() < 32 {
        return decrypt_aes_cbc(enc_key, iv, ciphertext);
    }
    let key = array_at(enc_key, 0);
    assert(key@ == enc_key@.take(32));
    decrypt_aes_cbc(&key, iv, ciphertext)
}

/// The plaintext of a bare ciphertext, from what decoding gave for its parts.
pub open spec fn bare_plaintext(
    enc_key: Seq<u8>,
    iv: Option<Result<Seq<u8>, Seq<char>>>,
    ciphertext: Result<Seq<u8>, Seq<char>>,
) -> Result<Seq<u8>, Seq<char>> {
    let body = in_context("Failed to decode ciphertext: "@, ciphertext);
    match iv {
        Some(iv) => match (in_context("Failed to decode IV: "@, iv), body) {
            (Err(e), _) => Err(e),
            (_, Err(e)) => Err(e),
            (Ok(iv), Ok(body)) => aes_plaintext(aes_key(enc_key), iv, body),
        },
        None => match body {
            Err(e) => Err(e),
            Ok(body) => if body.len() < 16 {
                Err("Ciphertext too short"@)
            } else {
                aes_plaintext(aes_key(enc_key), Seq::new(16, |i: int| 0u8), body)
            },
        },
    }
}

pub open spec fn optional_result_view(iv: Option<Result<Vec<u8>, String>>) -> Option<
    Result<Seq<u8>, Seq<char>>,
> {
    match iv {
        Some(iv) => Some(text::result_view(iv)),
        None => None,
    }
}

/// Decrypts a bare ciphertext, given what decoding gave for its parts.
pub fn open_bare(
    enc_key: &[u8],
    iv: Option<Result<Vec<u8>, String>>,
    ciphertext: Result<Vec<u8>, String>,
) -> (r: Result<Vec<u8>, String>)
    ensures
        text::result_view(r) == bare_plaintext(
            enc_key@,
            optional_result_view(iv),
            text::result_view(ciphertext),
        ),
{
    match iv {
        Some(iv) => {
            let iv = match with_context("Failed to decode IV: ", iv) {
                Ok(iv) => iv,
                Err(e) => {
                    return Err(e);
                },
            };
            match with_context("Failed to decode ciphertext: ", ciphertext) {
                Ok(body) => decrypt_with_front(enc_key, &iv, &body),
                Err(e) => Err(e),
            }
        },
        None => match with_context("Failed to decode ciphertext: ", ciphertext) {
            Ok(body) => {
                if body.len() < 16 {
                    return Err("Ciphertext too short".to_owned());
                }
                let iv: [u8; 16] = [0u8;16];
                assert(iv@ =~= Seq::new(16, |i: int| 0u8));
                decrypt_with_front(enc_key, &iv, &body)
            },
            Err(e) => Err(e),
        },
    }
}

/// The parts of a sealed ciphertext, from what decoding gave for each; the first fault counts.
pub open spec fn sealed_parts(
    iv: Result<Seq<u8>, Seq<char>>,
    ciphertext: Result<Seq<u8>, Seq<char>>,
    mac: Result<Seq<u8>, Seq<char>>,
) -> Result<(Seq<u8>, Seq<u8>, Seq<u8>), Seq<char>> {
    match (iv, ciphertext, mac) {
        (Err(e), _, _) => Err("Failed to decode IV: "@ + e),
        (_, Err(e), _) => Err("Failed to decode ciphertext: "@ + e),
        (_, _, Err(e)) => Err("Failed to decode MAC: "@ + e),
        (Ok(iv), Ok(ciphertext), Ok(mac)) => Ok((iv, ciphertext, mac)),
    }
}

/// The parts of a sealed ciphertext, given what decoding gave for each.
pub fn collect_sealed(
    iv: Result<Vec<u8>, String>,
    ciphertext: Result<Vec<u8>, String>,
    mac: Result<Vec<u8>, String>,
) -> (r: Result<(Vec<u8>, Vec<u8>, Vec<u8>), String>)
    ensures
        match r {
            Ok(parts) => sealed_parts(
                text::result_view(iv),
                text::result_view(ciphertext),
                text::result_view(mac),
            ) == Ok::<(Seq<u8>, Seq<u8>, Seq<u8>), Seq<char>>((parts.0@, parts.1@, parts.2@)),
            Err(e) => sealed_parts(
                text::result_view(iv),
                text::result_view(ciphertext),
                text::result_view(mac),
            ) == Err::<(Seq<u8>, Seq<u8>, Seq<u8>), Seq<char>>(e@),
        },
{
    match (iv, ciphertext, mac) {
        (Err(e), _, _) => Err(text::join2("Failed to decode IV: ", &e)),
        (_, Err(e), _) => Err(text::join2("Failed to decode ciphertext: ", &e)),
        (_, _, Err(e)) => Err(text::join2("Failed to decode MAC: ", &e)),
        (Ok(iv), Ok(ciphertext), Ok(mac)) => Ok((iv, ciphertext, mac)),
    }
}

/// The plaintext of a sealed ciphertext, given whether its MAC holds.
pub open spec fn sealed_plaintext(
    enc_key: Seq<u8>,
    iv: Seq<u8>,
    ciphertext: Seq<u8>,
    mac_holds: bool,
) -> Result<Seq<u8>, Seq<char>> {
    if mac_holds {
        aes_plaintext(aes_key(enc_key), iv, ciphertext)
    } else {
        Err("HMAC verification failed. The ciphertext might have been tampered with."@)
    }
}

/// Decrypts a sealed ciphertext, given whether its MAC holds.
pub fn open_sealed(enc_key: &[u8], iv: &[u8], ciphertext: &[u8], mac_holds: bool) -> (r: Result<
    Vec<u8>,
    String,
>)
    ensures
        text::result_view(r) == sealed_plaintext(enc_key@, iv@, ciphertext@, mac_holds),
{
    if !mac_holds {
        return Err(
            "HMAC verification failed. The ciphertext might have been tampered with.".to_owned(),
        );
    }
    decrypt_with_front(enc_key, iv, ciphertext)
}

/// The plaintext of what a cipher string is made of.
pub open spec fn form_plaintext(
    form: CipherForm<Seq<char>>,
    enc_key: Seq<u8>,
    mac_key: Seq<u8>,
) -> Result<Seq<u8>, Seq<char>> {
    match form {
        CipherForm::Bare { given_iv, ciphertext } => bare_plaintext(
            enc_key,
            match given_iv {
                Some(iv) => Some(primitives::base64_decoded(iv)),
                None => None,
            },
            primitives::base64_decoded(ciphertext),
        ),
        CipherForm::Sealed { iv, ciphertext, mac } => match sealed_parts(
            primitives::base64_decoded(iv),
            primitives::base64_decoded(ciphertext),
            primitives::base64_decoded(mac),
        ) {
            Err(e) => Err(e),
            Ok((iv, ciphertext, mac)) => sealed_plaintext(
                enc_key,
                iv,
                ciphertext,
                primitives::hmac_sha256_holds(mac_key, iv + ciphertext, mac),
            ),
        },
    }
}

/// The plaintext of a cipher string.
pub open spec fn cipher_plaintext(s: Seq<char>, enc_key: Seq<u8>, mac_key: Seq<u8>) -> Result<
    Seq<u8>,
    Seq<char>,
> {
    match cipher_form(s) {
        Err(e) => Err(e),
        Ok(form) => form_plaintext(form, enc_key, mac_key),
    }
}

/// Decrypts a Bitwarden cipher string, `type.iv|ciphertext|mac`, `type.iv|ciphertext` or
/// `type.ciphertext`.
pub fn decrypt_cipher_string(cipher_string: &str, enc_key: &[u8], mac_key: &[u8]) -> (r: Result<
    Vec<u8>,
    String,
>)
    ensures
        text::result_view(r) == cipher_plaintext(cipher_string@, enc_key@, mac_key@),
{
    let form = match parse_cipher_string(cipher_string) {
        Ok(form) => form,
        Err(e) => {
            return Err(e);
        },
    };
    match form {
        CipherForm::Bare { given_iv, ciphertext } => {
            let body = primitives::base64_decode(&ciphertext);
            match given_iv {
                Some(iv) => open_bare(enc_key, Some(primitives::base64_decode(&iv)), body),
                None => open_bare(enc_key, None, body),
            }
        },
        CipherForm::Sealed { iv, ciphertext, mac } => {
            match collect_sealed(
                primitives::base64_decode(&iv),
                primitives::base64_decode(&ciphertext),
                primitives::base64_decode(&mac),
            ) {
                Err(e) => Err(e),
                Ok((iv, ciphertext, mac)) => {
                    let mut data: Vec<u8> = iv.clone();
                    data.extend_from_slice(&ciphertext);
                    assert(data@ == iv@ + ciphertext@);
                    let holds = primitives::hmac_sha256_verify(mac_key, &data, &mac);
                    open_sealed(enc_key, &iv, &ciphertext, holds)
                },
            }
        },
    }
}

// ---------------------------------------------------------------------------
// Wrapped keys
// ---------------------------------------------------------------------------
/// The two halves of a key of 64 bytes, with `prefix` before the fault for another length.
pub open spec fn key_halves(prefix: Seq<char>, bytes: Seq<u8>) -> Result<
    (Seq<u8>, Seq<u8>),
    Seq<char>,
> {
    if bytes.len() != 64 {
        Err(prefix + number::decimal(bytes.len()) + " (expected 64)"@)
    } else {
        Ok((bytes.subrange(0, 32), bytes.subrange(32, 64)))
    }
}

/// A pair of keys by its view.
pub open spec fn keys_view(keys: ([u8; 32], [u8; 32])) -> (Seq<u8>, Seq<u8>) {
    (keys.0@, keys.1@)
}

/// What a function that yields a pair of keys hands out, by its view.
pub open spec fn keys_result_view(r: Result<([u8; 32], [u8; 32]), String>) -> Result<
    (Seq<u8>, Seq<u8>),
    Seq<char>,
> {
    match r {
        Ok(keys) => Ok(keys_view(keys)),
        Err(e) => Err(e@),
    }
}

/// Takes a key of 64 bytes apart into encryption key and MAC key.
pub fn split_key(prefix: &str, bytes: &[u8]) -> (r: Result<([u8; 32], [u8; 32]), String>)
    ensures
        keys_result_view(r) == key_halves(prefix@, bytes@),
{
    if bytes.len() != 64 {
        return Err(
            text::join3(prefix, &number::decimal_text(bytes.len() as u64), " (expected 64)"),
        );
    }
    Ok((array_at(bytes, 0), array_at(bytes, 32)))
}

/// The user key that the master key unwraps from `wrapped_key`.
pub open spec fn symmetric_key(master_key: Seq<u8>, wrapped_key: Seq<char>) -> Result<
    (Seq<u8>, Seq<u8>),
    Seq<char>,
> {
    match cipher_plaintext(
        wrapped_key,
        primitives::hkdf_sha256_expand(master_key, encode_utf8("enc"@)),
        primitives::hkdf_sha256_expand(master_key, encode_utf8("mac"@)),
    ) {
        Err(e) => Err(e),
        Ok(bytes) => key_halves("Decrypted symmetric key has invalid length: "@, bytes),
    }
}

/// Decrypts the wrapped user key with the stretched master key, into encryption key and MAC
/// key.
pub fn decrypt_symmetric_key(master_key: &[u8], wrapped_key: &str) -> (r: Result<
    ([u8; 32], [u8; 32]),
    String,
>)
    ensures
        keys_result_view(r) == symmetric_key(master_key@, wrapped_key@),
{
    let (enc, mac) = match derive_stretched_key(master_key) {
        Ok(keys) => keys,
        Err(e) => {
            return Err(e);
        },
    };
    match decrypt_cipher_string(wrapped_key, &enc, &mac) {
        Err(e) => Err(e),
        Ok(bytes) => split_key("Decrypted symmetric key has invalid length: ", &bytes),
    }
}

/// Why an RSA private key is not worked with, if it is not: its document is refused, or its
/// second prime is so much longer than the first that the work would not end.
pub open spec fn rsa_fault(key_fault: Option<Seq<char>>, prime_bits: (usize, usize)) -> Option<
    Seq<char>,
> {
    match key_fault {
        Some(fault) => Some("Failed to parse RSA private key from PKCS#8 DER: "@ + fault),
        None => if primitives::primes_are_balanced(prime_bits) {
            None
        } else {
            Some("RSA private key has unbalanced primes"@)
        },
    }
}

/// Tests whether an RSA private key can be worked with.
pub fn check_rsa_key(priv_key_der: &[u8]) -> (r: Result<(), String>)
    ensures
        match r {
            Ok(_) => rsa_fault(
                primitives::rsa_key_fault(priv_key_der@),
                primitives::rsa_prime_bits(priv_key_der@),
            ) is None,
            Err(e) => rsa_fault(
                primitives::rsa_key_fault(priv_key_der@),
                primitives::rsa_prime_bits(priv_key_der@),
            ) == Some(e@),
        },
{
    match primitives::rsa_key_check(priv_key_der) {
        Err(e) => Err(text::join2("Failed to parse RSA private key from PKCS#8 DER: ", &e)),
        Ok(_) => {
            let (first, second) = primitives::rsa_measure_primes(priv_key_der);
            check_primes(first, second)
        },
    }
}

/// Tests whether two primes of these lengths in bits are balanced.
pub fn check_primes(first: usize, second: usize) -> (r: Result<(), String>)
    ensures
        match r {
            Ok(_) => rsa_fault(None, (first, second)) is None,
            Err(e) => rsa_fault(None, (first, second)) == Some(e@),
        },
{
    if second > first && second - first > 16 {
        Err("RSA private key has unbalanced primes".to_owned())
    } else {
        Ok(())
    }
}

/// What RSA-OAEP makes of a ciphertext, with `prefix` before the fault of decryption.
pub open spec fn rsa_plaintext(
    prefix: Seq<char>,
    key_fault: Option<Seq<char>>,
    prime_bits: (usize, usize),
    plain: Result<Seq<u8>, Seq<char>>,
) -> Result<Seq<u8>, Seq<char>> {
    match rsa_fault(key_fault, prime_bits) {
        Some(fault) => Err(fault),
        None => in_context(prefix, plain),
    }
}

/// Decrypts RSA-OAEP with SHA-1.
pub fn decrypt_rsa_oaep_sha1(priv_key_der: &[u8], ciphertext: &[u8]) -> (r: Result<
    Vec<u8>,
    String,
>)
    ensures
        text::result_view(r) == rsa_plaintext(
            "RSA-OAEP-SHA1 decryption failed: "@,
            primitives::rsa_key_fault(priv_key_der@),
            primitives::rsa_prime_bits(priv_key_der@),
            primitives::rsa_oaep_sha1(priv_key_der@, ciphertext@),
        ),
{
    match check_rsa_key(priv_key_der) {
        Err(e) => Err(e),
        Ok(_) => with_context(
            "RSA-OAEP-SHA1 decryption failed: ",
            primitives::rsa_oaep_sha1_decrypt(priv_key_der, ciphertext),
        ),
    }
}

/// Decrypts RSA-OAEP with SHA-256.
pub fn decrypt_rsa_oaep_sha256(priv_key_der: &[u8], ciphertext: &[u8]) -> (r: Result<
    Vec<u8>,
    String,
>)
    ensures
        text::result_view(r) == rsa_plaintext(
            "RSA-OAEP-SHA256 decryption failed: "@,
            primitives::rsa_key_fault(priv_key_der@),
            primitives::rsa_prime_bits(priv_key_der@),
            primitives::rsa_oaep_sha256(priv_key_der@, ciphertext@),
        ),
{
    match check_rsa_key(priv_key_der) {
        Err(e) => Err(e),
        Ok(_) => with_context(
            "RSA-OAEP-SHA256 decryption failed: ",
            primitives::rsa_oaep_sha256_decrypt(priv_key_der, ciphertext),
        ),
    }
}

// ---------------------------------------------------------------------------
// Login helpers
// ---------------------------------------------------------------------------
/// Whether `challenge` is the PKCE challenge of `verifier`.
pub open spec fn is_challenge_of(challenge: Seq<char>, verifier: Seq<char>) -> bool {
    challenge == primitives::base64_text(primitives::sha256(encode_utf8(verifier)), true)
}

/// The PKCE code verifier that random bytes give, and its SHA-256 code challenge.
pub fn pkce_pair(random: [u8; 32]) -> (r: (String, String))
    ensures
        r.0@ == primitives::base64_text(random@, true),
        is_challenge_of(r.1@, r.0@),
{
    let verifier = primitives::base64_url_encode(&random);
    let hash = primitives::sha256_digest(verifier.as_str().as_bytes());
    let challenge = primitives::base64_url_encode(&hash);
    (verifier, challenge)
}

/// Generates a PKCE code verifier and its SHA-256 code challenge, both Base64url without
/// padding.
pub fn generate_pkce_pair() -> (r: (String, String))
    ensures
        exists|random: Seq<u8>|
            random.len() == 32 && r.0@ == #[trigger] primitives::base64_text(random, true),
        is_challenge_of(r.1@, r.0@),
{
    let random = primitives::random_bytes();
    let pair = pkce_pair(random);
    assert(random@.len() == 32 && pair.0@ == primitives::base64_text(random@, true));
    pair
}

/// How a master key is derived from a password.
pub open spec fn master_key(
    password: Seq<char>,
    email: Seq<char>,
    kdf_type: u32,
    iterations: u32,
    memory: Option<u32>,
    parallelism: Option<u32>,
) -> Result<Seq<u8>, Seq<char>> {
    if kdf_type == 0 {
        pbkdf2_master_key(password, email, iterations)
    } else if kdf_type == 1 {
        match (memory, parallelism) {
            (None, _) => Err("Argon2 memory parameter missing from KDF settings"@),
            (_, None) => Err("Argon2 parallelism parameter missing from KDF settings"@),
            (Some(memory), Some(parallelism)) => argon2_master_key(
                password,
                email,
                iterations,
                memory,
                parallelism,
            ),
        }
    } else {
        Err("Unsupported KDF type: "@ + number::decimal(kdf_type as nat))
    }
}

/// The Argon2 costs, where they matter, fit in 32 bits.
pub open spec fn kdf_costs_fit(
    kdf_type: u32,
    memory: Option<u32>,
    parallelism: Option<u32>,
) -> bool {
    kdf_type == 1 ==> match (memory, parallelism) {
        (Some(memory), Some(parallelism)) => memory * 1024 <= u32::MAX && (memory > 0
            ==> parallelism * 8 <= u32::MAX),
        _ => true,
    }
}

/// Whether the Argon2 costs, where they matter, fit in 32 bits.
pub fn check_kdf_costs(kdf_type: u32, memory: Option<u32>, parallelism: Option<u32>) -> (r: bool)
    ensures
        r == kdf_costs_fit(kdf_type, memory, parallelism),
{
    if kdf_type != 1 {
        return true;
    }
    match (memory, parallelism) {
        (Some(memory), Some(parallelism)) => memory <= 0x3f_ffff && (memory == 0
            || parallelism <= 0x1fff_ffff),
        _ => true,
    }
}

/// Derives the 256-bit master key from the password that the user gave.
pub fn prompt_and_derive_master_key(
    password: &str,
    email: &str,
    kdf_type: u32,
    iterations: u32,
    memory: Option<u32>,
    parallelism: Option<u32>,
) -> (r: Result<[u8; 32], String>)
    requires
        kdf_costs_fit(kdf_type, memory, parallelism),
    ensures
        text::result_view(r) == master_key(
            password@,
            email@,
            kdf_type,
            iterations,
            memory,
            parallelism,
        ),
{
    if kdf_type == 0 {
        derive_master_key_pbkdf2(password, email, iterations)
    } else if kdf_type == 1 {
        match (memory, parallelism) {
            (None, _) => Err("Argon2 memory parameter missing from KDF settings".to_owned()),
            (_, None) => Err("Argon2 parallelism parameter missing from KDF settings".to_owned()),
            (Some(memory), Some(parallelism)) => derive_master_key_argon2(
                password,
                email,
                iterations,
                memory,
                parallelism,
            ),
        }
    } else {
        Err(text::join2("Unsupported KDF type: ", &number::decimal_text(kdf_type as u64)))
    }
}

// ---------------------------------------------------------------------------
// Laws
// ---------------------------------------------------------------------------
/// A sealed text whose MAC does not hold is refused as such, whatever the encryption key and
/// whatever the ciphertext would decrypt to.
pub proof fn wrong_macs_are_refused(
    s: Seq<char>,
    form: (Seq<char>, Seq<char>, Seq<char>),
    parts: (Seq<u8>, Seq<u8>, Seq<u8>),
    enc_key: Seq<u8>,
    mac_key: Seq<u8>,
)
    requires
        cipher_form(s) == Ok::<CipherForm<Seq<char>>, Seq<char>>(
            CipherForm::Sealed { iv: form.0, ciphertext: form.1, mac: form.2 },
        ),
        primitives::base64_decoded(form.0) == Ok::<Seq<u8>, Seq<char>>(parts.0),
        primitives::base64_decoded(form.1) == Ok::<Seq<u8>, Seq<char>>(parts.1),
        primitives::base64_decoded(form.2) == Ok::<Seq<u8>, Seq<char>>(parts.2),
        !primitives::hmac_sha256_holds(mac_key, parts.0 + parts.1, parts.2),
    ensures
        cipher_plaintext(s, enc_key, mac_key) == Err::<Seq<u8>, Seq<char>>(
            "HMAC verification failed. The ciphertext might have been tampered with."@,
        ),
{
}

} // verus!
