//! Laws of refusals: what is refused, and with which message.
use vstd::prelude::*;
use vstd::string::*;
use vstd::utf8::*;

use crate::agent;
use crate::agent::{OfferedKey, SignatureHash};
use crate::api::{CipherSync, FieldSync, LoginSync, OrganizationSync, SshKeySync, SyncResponse};
use crate::crypto;
use crate::number;
use crate::primitives;
use crate::storage;
use crate::storage::vault;
use crate::text;

use super::crypto::{is_head, is_part, sealed};

verus! {

// ---------------------------------------------------------------------------
// Key derivation
// ---------------------------------------------------------------------------
/// Settings that derive no key are refused with what is wrong with them.
pub proof fn bad_derivation_settings_are_named(
    password: Seq<char>,
    email: Seq<char>,
    iterations: u32,
    memory: Option<u32>,
    parallelism: Option<u32>,
    kind: u32,
)
    ensures
        crypto::pbkdf2_master_key(password, email, 0) == Err::<Seq<u8>, Seq<char>>(
            "PBKDF2 iterations count cannot be zero"@,
        ),
        crypto::master_key(password, email, 0, 0, memory, parallelism) == Err::<Seq<u8>, Seq<char>>(
            "PBKDF2 iterations count cannot be zero"@,
        ),
        memory is None ==> crypto::master_key(password, email, 1, iterations, memory, parallelism)
            == Err::<Seq<u8>, Seq<char>>("Argon2 memory parameter missing from KDF settings"@),
        memory is Some && parallelism is None ==> crypto::master_key(
            password,
            email,
            1,
            iterations,
            memory,
            parallelism,
        ) == Err::<Seq<u8>, Seq<char>>("Argon2 parallelism parameter missing from KDF settings"@),
        kind > 1 ==> crypto::master_key(password, email, kind, iterations, memory, parallelism)
            == Err::<Seq<u8>, Seq<char>>("Unsupported KDF type: "@ + number::decimal(kind as nat)),
{
}

/// Argon2 costs that are refused are named: too little memory, no round, no lane, too many lanes.
pub proof fn bad_argon2_costs_are_named(
    password: Seq<char>,
    email: Seq<char>,
    rounds: u32,
    memory_mb: u32,
    lanes: u32,
)
    ensures
        ({
            let key = crypto::argon2_master_key(password, email, rounds, memory_mb, lanes);
            let label = "Invalid Argon2 KDF parameters: "@;
            let enough = memory_mb >= 1 && memory_mb * 1024 >= 8 * lanes;
            &&& !enough ==> key == Err::<Seq<u8>, Seq<char>>(label + "memory cost is too small"@)
            &&& enough && rounds == 0 ==> key == Err::<Seq<u8>, Seq<char>>(
                label + "time cost is too small"@,
            )
            &&& enough && rounds > 0 && lanes == 0 ==> key == Err::<Seq<u8>, Seq<char>>(
                label + "not enough threads"@,
            )
            &&& enough && rounds > 0 && lanes > 0xff_ffff ==> key == Err::<Seq<u8>, Seq<char>>(
                label + "too many threads"@,
            )
        }),
{
}

/// A derivation that fails is reported with its fault.
pub proof fn failed_derivations_are_reported(
    password: Seq<char>,
    email: Seq<char>,
    rounds: u32,
    memory_mb: u32,
    lanes: u32,
    e: Seq<char>,
)
    requires
        primitives::argon2_cost_fault(
            (memory_mb * 1024) as nat,
            rounds as nat,
            lanes as nat,
        ) is None,
        primitives::argon2id(
            (memory_mb * 1024) as u32,
            rounds,
            lanes,
            encode_utf8(password),
            primitives::sha256(encode_utf8(text::lowercase(email))),
        ) == Err::<Seq<u8>, Seq<char>>(e),
    ensures
        crypto::argon2_master_key(password, email, rounds, memory_mb, lanes) == Err::<
            Seq<u8>,
            Seq<char>,
        >("Argon2 key derivation failed: "@ + e),
{
}

/// The costs of Argon2 fit where the memory in KiB, and eight times the lanes, are numbers of 32
/// bits; for any other derivation they do not matter.
pub proof fn costs_matter_for_argon2_only(
    kind: u32,
    memory: u32,
    lanes: u32,
    other: Option<u32>,
    more: Option<u32>,
)
    ensures
        kind != 1 ==> crypto::kdf_costs_fit(kind, other, more),
        other is None || more is None ==> crypto::kdf_costs_fit(1, other, more),
        memory * 1024 <= u32::MAX && lanes * 8 <= u32::MAX ==> crypto::kdf_costs_fit(
            1,
            Some(memory),
            Some(lanes),
        ),
        memory * 1024 > u32::MAX ==> !crypto::kdf_costs_fit(1, Some(memory), Some(lanes)),
        memory > 0 && lanes * 8 > u32::MAX ==> !crypto::kdf_costs_fit(1, Some(memory), Some(lanes)),
        crypto::kdf_costs_fit(1, Some(0), Some(lanes)),
{
}

// ---------------------------------------------------------------------------
// Cipher strings
// ---------------------------------------------------------------------------
/// A cipher string without a type, or with one that is no number or not supported, is refused with
/// that.
pub proof fn bad_types_are_named(
    head: Seq<char>,
    body: Seq<char>,
    kind: nat,
    enc_key: Seq<u8>,
    mac_key: Seq<u8>,
)
    requires
        !head.contains('.'),
        !body.contains('.'),
    ensures
        crypto::cipher_plaintext(head, enc_key, mac_key) == Err::<Seq<u8>, Seq<char>>(
            "Invalid CipherString: Missing encType prefix"@,
        ),
        number::unsigned_value(head, u32::MAX as nat) is Err ==> crypto::cipher_plaintext(
            head + seq!['.'] + body,
            enc_key,
            mac_key,
        ) == Err::<Seq<u8>, Seq<char>>("Invalid encryption type prefix"@),
        number::unsigned_value(head, u32::MAX as nat) == Ok::<nat, number::NumberFault>(kind) && kind
            > 2 ==> crypto::cipher_plaintext(head + seq!['.'] + body, enc_key, mac_key) == Err::<
            Seq<u8>,
            Seq<char>,
        >("Unsupported encryption type: "@ + number::decimal(kind)),
{
    text::unseparated_texts_are_whole(head, '.');
    text::splitting_is_local(head, body, '.');
    text::unseparated_texts_are_whole(body, '.');
    assert(seq![head] + seq![body] =~= seq![head, body]);
}

/// A sealed text that lacks a part is refused with that, and so is a bare one with too many.
pub proof fn missing_parts_are_named(
    head: Seq<char>,
    kind: nat,
    a: Seq<char>,
    b: Seq<char>,
    c: Seq<char>,
    enc_key: Seq<u8>,
    mac_key: Seq<u8>,
)
    requires
        is_head(head, kind),
        is_part(a),
        is_part(b),
        is_part(c),
    ensures
        kind == 1 || kind == 2 ==> crypto::cipher_plaintext(
            head + seq!['.'] + (a + seq!['|'] + b),
            enc_key,
            mac_key,
        ) == Err::<Seq<u8>, Seq<char>>("Missing IV, ciphertext, or MAC in CipherString"@),
        kind == 1 || kind == 2 ==> crypto::cipher_plaintext(
            head + seq!['.'] + a,
            enc_key,
            mac_key,
        ) == Err::<Seq<u8>, Seq<char>>("Missing IV, ciphertext, or MAC in CipherString"@),
        kind == 0 ==> crypto::cipher_plaintext(sealed(head, a, b, c), enc_key, mac_key) == Err::<
            Seq<u8>,
            Seq<char>,
        >("Unsupported Aes256_Cbc_NotApproved format"@),
{
    super::crypto::lemma_pair(a, b);
    super::crypto::lemma_triple(a, b, c);
    super::crypto::lemma_two(head, a);
    super::crypto::lemma_two(head, a + seq!['|'] + b);
    super::crypto::lemma_two(head, a + seq!['|'] + b + seq!['|'] + c);
    text::unseparated_texts_are_whole(a, '|');
}

/// A sealed text whose parts cannot be decoded, whose MAC does not hold, or that AES refuses is
/// refused with the first of these.
pub proof fn closed_texts_say_why(
    head: Seq<char>,
    kind: nat,
    texts: (Seq<char>, Seq<char>, Seq<char>),
    parts: (Seq<u8>, Seq<u8>, Seq<u8>),
    enc_key: Seq<u8>,
    mac_key: Seq<u8>,
    e: Seq<char>,
)
    requires
        is_head(head, kind),
        kind == 1 || kind == 2,
        is_part(texts.0),
        is_part(texts.1),
        is_part(texts.2),
    ensures
        ({
            let opened = crypto::cipher_plaintext(
                sealed(head, texts.0, texts.1, texts.2),
                enc_key,
                mac_key,
            );
            let iv = primitives::base64_decoded(texts.0);
            let body = primitives::base64_decoded(texts.1);
            let mac = primitives::base64_decoded(texts.2);
            let decoded = iv == Ok::<Seq<u8>, Seq<char>>(parts.0) && body == Ok::<
                Seq<u8>,
                Seq<char>,
            >(parts.1) && mac == Ok::<Seq<u8>, Seq<char>>(parts.2);
            let holds = primitives::hmac_sha256_holds(mac_key, parts.0 + parts.1, parts.2);
            &&& iv == Err::<Seq<u8>, Seq<char>>(e) ==> opened == Err::<Seq<u8>, Seq<char>>(
                "Failed to decode IV: "@ + e,
            )
            &&& iv is Ok && body == Err::<Seq<u8>, Seq<char>>(e) ==> opened == Err::<
                Seq<u8>,
                Seq<char>,
            >("Failed to decode ciphertext: "@ + e)
            &&& iv is Ok && body is Ok && mac == Err::<Seq<u8>, Seq<char>>(e) ==> opened == Err::<
                Seq<u8>,
                Seq<char>,
            >("Failed to decode MAC: "@ + e)
            &&& decoded && !holds ==> opened == Err::<Seq<u8>, Seq<char>>(
                "HMAC verification failed. The ciphertext might have been tampered with."@,
            )
            &&& decoded && holds && enc_key.len() < 32 ==> opened == Err::<Seq<u8>, Seq<char>>(
                "Invalid AES-256 key length: "@ + number::decimal(enc_key.len())
                    + " (expected 32)"@,
            )
            &&& decoded && holds && enc_key.len() == 32 && parts.0.len() != 16 ==> opened == Err::<
                Seq<u8>,
                Seq<char>,
            >("Invalid AES IV length: "@ + number::decimal(parts.0.len()) + " (expected 16)"@)
            &&& decoded && holds && enc_key.len() == 32 && parts.0.len() == 16
                && primitives::aes256_cbc(enc_key, parts.0, parts.1) == Err::<Seq<u8>, Seq<char>>(e)
                ==> opened == Err::<Seq<u8>, Seq<char>>(
                "AES decryption failed (incorrect key or corrupted data): "@ + e,
            )
        }),
{
    super::crypto::sealed_texts_are_taken_apart(head, kind, texts.0, texts.1, texts.2);
    assert(enc_key.len() == 32 ==> enc_key.take(32) =~= enc_key);
}

/// A bare text that cannot be decoded or is too short is refused with that.
pub proof fn closed_bare_texts_say_why(
    head: Seq<char>,
    body_text: Seq<char>,
    iv_text: Seq<char>,
    body: Seq<u8>,
    enc_key: Seq<u8>,
    mac_key: Seq<u8>,
    e: Seq<char>,
)
    requires
        is_head(head, 0),
        is_part(iv_text),
        is_part(body_text),
    ensures
        primitives::base64_decoded(body_text) == Err::<Seq<u8>, Seq<char>>(e)
            ==> crypto::cipher_plaintext(head + seq!['.'] + body_text, enc_key, mac_key) == Err::<
            Seq<u8>,
            Seq<char>,
        >("Failed to decode ciphertext: "@ + e),
        primitives::base64_decoded(body_text) == Ok::<Seq<u8>, Seq<char>>(body) && body.len() < 16
            ==> crypto::cipher_plaintext(head + seq!['.'] + body_text, enc_key, mac_key) == Err::<
            Seq<u8>,
            Seq<char>,
        >("Ciphertext too short"@),
        primitives::base64_decoded(iv_text) == Err::<Seq<u8>, Seq<char>>(e)
            ==> crypto::cipher_plaintext(
            head + seq!['.'] + (iv_text + seq!['|'] + body_text),
            enc_key,
            mac_key,
        ) == Err::<Seq<u8>, Seq<char>>("Failed to decode IV: "@ + e),
{
    super::crypto::lemma_pair(iv_text, body_text);
    super::crypto::lemma_two(head, iv_text + seq!['|'] + body_text);
    super::crypto::lemma_two(head, body_text);
    text::unseparated_texts_are_whole(body_text, '|');
}

/// A wrapped user key of another length is refused with it.
pub proof fn wrapped_keys_of_another_length_are_named(
    master_key: Seq<u8>,
    wrapped: Seq<char>,
    bytes: Seq<u8>,
    e: Seq<char>,
)
    ensures
        ({
            let opened = crypto::cipher_plaintext(
                wrapped,
                primitives::hkdf_sha256_expand(master_key, encode_utf8("enc"@)),
                primitives::hkdf_sha256_expand(master_key, encode_utf8("mac"@)),
            );
            let key = crypto::symmetric_key(master_key, wrapped);
            &&& opened == Ok::<Seq<u8>, Seq<char>>(bytes) && bytes.len() != 64 ==> key == Err::<
                (Seq<u8>, Seq<u8>),
                Seq<char>,
            >(
                "Decrypted symmetric key has invalid length: "@ + number::decimal(bytes.len())
                    + " (expected 64)"@,
            )
            &&& opened == Err::<Seq<u8>, Seq<char>>(e) ==> key == Err::<
                (Seq<u8>, Seq<u8>),
                Seq<char>,
            >(e)
        }),
{
}

/// An RSA key that is not worked with is refused with the reason, and a failed decryption with its
/// fault behind the prefix.
pub proof fn rsa_refusals_say_why(
    prefix: Seq<char>,
    fault: Seq<char>,
    bits: (usize, usize),
    plain: Result<Seq<u8>, Seq<char>>,
)
    ensures
        crypto::rsa_plaintext(prefix, Some(fault), bits, plain) == Err::<Seq<u8>, Seq<char>>(
            "Failed to parse RSA private key from PKCS#8 DER: "@ + fault,
        ),
        bits.1 > bits.0 + 16 ==> crypto::rsa_plaintext(prefix, None, bits, plain) == Err::<
            Seq<u8>,
            Seq<char>,
        >("RSA private key has unbalanced primes"@),
        bits.1 <= bits.0 + 16 ==> crypto::rsa_plaintext(prefix, None, bits, Err(fault)) == Err::<
            Seq<u8>,
            Seq<char>,
        >(prefix + fault),
{
}

// ---------------------------------------------------------------------------
// Items and vaults
// ---------------------------------------------------------------------------
/// Decrypted bytes that are no text are refused with the fault behind the label; a part that does
/// not open is refused with why.
pub proof fn decrypted_bytes_have_to_be_texts(
    label: Seq<char>,
    s: Seq<char>,
    keys: (Seq<u8>, Seq<u8>),
    bytes: Seq<u8>,
    e: Seq<char>,
)
    ensures
        ({
            let opened = crypto::cipher_plaintext(s, keys.0, keys.1);
            let shown = storage::decrypted_text(label, s, keys);
            &&& opened == Ok::<Seq<u8>, Seq<char>>(bytes) && valid_utf8(bytes) ==> shown == Ok::<
                Seq<char>,
                Seq<char>,
            >(decode_utf8(bytes))
            &&& opened == Ok::<Seq<u8>, Seq<char>>(bytes) && !valid_utf8(bytes) ==> shown == Err::<
                Seq<char>,
                Seq<char>,
            >(label + text::utf8_fault(bytes))
            &&& opened == Err::<Seq<u8>, Seq<char>>(e) ==> shown == Err::<Seq<char>, Seq<char>>(e)
            &&& storage::decrypted_option(label, None, keys) == Ok::<Option<Seq<char>>, Seq<char>>(
                None,
            )
            &&& shown matches Ok(plain) ==> storage::decrypted_option(label, Some(s), keys) == Ok::<
                Option<Seq<char>>,
                Seq<char>,
            >(Some(plain))
            &&& shown matches Err(f) ==> storage::decrypted_option(label, Some(s), keys) == Err::<
                Option<Seq<char>>,
                Seq<char>,
            >(f)
        }),
{
}

/// Each part of an item has its label, which stands before the fault of bytes that are no text.
pub proof fn parts_have_their_labels(
    cipher: CipherSync,
    field: FieldSync,
    login: LoginSync,
    key: SshKeySync,
    keys: (Seq<u8>, Seq<u8>),
    e: Seq<char>,
)
    ensures
        cipher.name matches Some(name) ==> storage::item_name(Some(name@), keys)
            == storage::decrypted_text("Decrypted name is not valid UTF-8: "@, name@, keys),
        storage::item_name(None, keys) == Ok::<Seq<char>, Seq<char>>("Unnamed Vault Item"@),
        storage::cipher_parts(cipher, keys).notes == storage::decrypted_option(
            "Decrypted notes not valid UTF-8: "@,
            text::option_view(cipher.notes),
            keys,
        ),
        storage::decrypted_text("Decrypted field name is not valid UTF-8: "@, field.name@, keys)
            == Err::<Seq<char>, Seq<char>>(e) ==> storage::field_texts(field, keys) == Err::<
            storage::FieldTexts,
            Seq<char>,
        >(e),
        storage::decrypted_text(
            "Decrypted field name is not valid UTF-8: "@,
            field.name@,
            keys,
        ) is Ok && storage::decrypted_option(
            "Decrypted field value is not valid UTF-8: "@,
            text::option_view(field.value),
            keys,
        ) == Err::<Option<Seq<char>>, Seq<char>>(e) ==> storage::field_texts(field, keys) == Err::<
            storage::FieldTexts,
            Seq<char>,
        >(e),
        storage::decrypted_option(
            "Decrypted username is not valid UTF-8: "@,
            text::option_view(login.username),
            keys,
        ) == Err::<Option<Seq<char>>, Seq<char>>(e) ==> storage::login_texts(login, keys) == Err::<
            storage::LoginTexts,
            Seq<char>,
        >(e),
        login.username is None && storage::decrypted_option(
            "Decrypted password is not valid UTF-8: "@,
            text::option_view(login.password),
            keys,
        ) == Err::<Option<Seq<char>>, Seq<char>>(e) ==> storage::login_texts(login, keys) == Err::<
            storage::LoginTexts,
            Seq<char>,
        >(e),
        login.username is None && login.password is None && storage::decrypted_option(
            "Decrypted URI is not valid UTF-8: "@,
            text::option_view(login.uri),
            keys,
        ) == Err::<Option<Seq<char>>, Seq<char>>(e) ==> storage::login_texts(login, keys) == Err::<
            storage::LoginTexts,
            Seq<char>,
        >(e),
        storage::decrypted_option(
            "Decrypted private key is not valid UTF-8: "@,
            text::option_view(key.private_key),
            keys,
        ) == Err::<Option<Seq<char>>, Seq<char>>(e) ==> storage::ssh_key_texts(key, keys) == Err::<
            storage::SshKeyTexts,
            Seq<char>,
        >(e),
        key.private_key is None && storage::decrypted_option(
            "Decrypted public key is not valid UTF-8: "@,
            text::option_view(key.public_key),
            keys,
        ) == Err::<Option<Seq<char>>, Seq<char>>(e) ==> storage::ssh_key_texts(key, keys) == Err::<
            storage::SshKeyTexts,
            Seq<char>,
        >(e),
{
}

/// An item's own key of another length, or that does not open, is refused with that.
pub proof fn item_keys_of_another_length_are_named(
    cipher: CipherSync,
    key: String,
    user: (Seq<u8>, Seq<u8>),
    orgs: Map<Seq<char>, (Seq<u8>, Seq<u8>)>,
    bytes: Seq<u8>,
    e: Seq<char>,
)
    requires
        cipher.key == Some(key),
        cipher.organization_id is None,
    ensures
        ({
            let opened = crypto::cipher_plaintext(key@, user.0, user.1);
            &&& opened == Ok::<Seq<u8>, Seq<char>>(bytes) && bytes.len() != 64
                ==> storage::item_keys(cipher, user, orgs) == Err::<(Seq<u8>, Seq<u8>), Seq<char>>(
                "Decrypted cipher key has invalid length: "@ + number::decimal(bytes.len())
                    + " (expected 64)"@,
            )
            &&& opened == Err::<Seq<u8>, Seq<char>>(e) ==> storage::item_keys(cipher, user, orgs)
                == Err::<(Seq<u8>, Seq<u8>), Seq<char>>(e)
        }),
{
}

/// An item is refused with the first fault of its parts, in the order name, notes, fields, login,
/// SSH key.
pub proof fn the_first_fault_of_an_item_counts(
    id: Seq<char>,
    kind: i32,
    parts: storage::PartTexts,
    e: Seq<char>,
)
    ensures
        ({
            let made = storage::assembled_item(id, kind, parts);
            let refused = Err::<storage::ItemTexts, Seq<char>>(e);
            let fields_open = parts.fields is None || parts.fields->0 is Ok;
            let login_opens = parts.login is None || parts.login->0 is Ok;
            &&& parts.name == Err::<Seq<char>, Seq<char>>(e) ==> made == refused
            &&& parts.name is Ok && parts.notes == Err::<Option<Seq<char>>, Seq<char>>(e) ==> made
                == refused
            &&& parts.name is Ok && parts.notes is Ok && parts.fields == Some(
                Err::<Seq<storage::FieldTexts>, Seq<char>>(e),
            ) ==> made == refused
            &&& parts.name is Ok && parts.notes is Ok && fields_open && parts.login == Some(
                Err::<storage::LoginTexts, Seq<char>>(e),
            ) ==> made == refused
            &&& parts.name is Ok && parts.notes is Ok && fields_open && login_opens && parts.ssh_key
                == Some(Err::<storage::SshKeyTexts, Seq<char>>(e)) ==> made == refused
        }),
{
}

/// An organization key that cannot be unwrapped is refused with why.
pub proof fn bad_organization_keys_are_named(
    head: Seq<char>,
    body: Seq<char>,
    kind: nat,
    der: Seq<u8>,
    ciphertext: Seq<u8>,
    bytes: Seq<u8>,
    e: Seq<char>,
)
    requires
        !head.contains('.'),
        is_part(body),
    ensures
        storage::unwrapped_org_key(head, der) == Err::<(Seq<u8>, Seq<u8>), Seq<char>>(
            "Invalid organization key format"@,
        ),
        ({
            let unwrapped = storage::unwrapped_org_key(head + seq!['.'] + body, der);
            let read = number::unsigned_value(head, u32::MAX as nat);
            let decoded = primitives::base64_decoded(body);
            &&& read is Err ==> unwrapped == Err::<(Seq<u8>, Seq<u8>), Seq<char>>(
                "Invalid enc_type"@,
            )
            &&& read is Ok && decoded == Err::<Seq<u8>, Seq<char>>(e) ==> unwrapped == Err::<
                (Seq<u8>, Seq<u8>),
                Seq<char>,
            >("Failed to base64 decode organization key ciphertext: "@ + e)
            &&& read == Ok::<nat, number::NumberFault>(kind) && decoded is Ok && (kind < 3 || kind
                > 6) ==> unwrapped == Err::<(Seq<u8>, Seq<u8>), Seq<char>>(
                "Unsupported organization key encryption type: "@ + number::decimal(kind),
            )
            &&& read == Ok::<nat, number::NumberFault>(kind) && (kind == 3 || kind == 5) && decoded
                == Ok::<Seq<u8>, Seq<char>>(ciphertext) && primitives::rsa_key_fault(der) is None
                && primitives::rsa_prime_bits(der).1 <= primitives::rsa_prime_bits(der).0 + 16
                && primitives::rsa_oaep_sha256(der, ciphertext) == Err::<Seq<u8>, Seq<char>>(e)
                ==> unwrapped == Err::<(Seq<u8>, Seq<u8>), Seq<char>>(
                "RSA-OAEP-SHA256 decryption failed: "@ + e,
            )
            &&& read == Ok::<nat, number::NumberFault>(kind) && (kind == 4 || kind == 6) && decoded
                == Ok::<Seq<u8>, Seq<char>>(ciphertext) && primitives::rsa_key_fault(der) is None
                && primitives::rsa_prime_bits(der).1 <= primitives::rsa_prime_bits(der).0 + 16
                && primitives::rsa_oaep_sha1(der, ciphertext) == Err::<Seq<u8>, Seq<char>>(e)
                ==> unwrapped == Err::<(Seq<u8>, Seq<u8>), Seq<char>>(
                "RSA-OAEP-SHA1 decryption failed: "@ + e,
            )
            &&& read == Ok::<nat, number::NumberFault>(kind) && (kind == 3 || kind == 5) && decoded
                == Ok::<Seq<u8>, Seq<char>>(ciphertext) && primitives::rsa_key_fault(der) is None
                && primitives::rsa_prime_bits(der).1 <= primitives::rsa_prime_bits(der).0 + 16
                && primitives::rsa_oaep_sha256(der, ciphertext) == Ok::<Seq<u8>, Seq<char>>(bytes)
                && bytes.len() != 64 ==> unwrapped == Err::<(Seq<u8>, Seq<u8>), Seq<char>>(
                "Decrypted organization key has invalid length: "@ + number::decimal(bytes.len())
                    + " (expected 64)"@,
            )
        }),
{
    text::unseparated_texts_are_whole(head, '.');
    text::splitting_is_local(head, body, '.');
    text::unseparated_texts_are_whole(body, '.');
    text::unseparated_texts_are_whole(body, '|');
    assert(seq![head] + seq![body] =~= seq![head, body]);
}

/// The warnings say what could not be opened: the user's RSA key, the key of an organization, an
/// item.
pub proof fn warnings_say_what_stayed_closed(
    key: Seq<char>,
    orgs: Seq<OrganizationSync>,
    org: OrganizationSync,
    ciphers: Seq<CipherSync>,
    cipher: CipherSync,
    der: Seq<u8>,
    user: (Seq<u8>, Seq<u8>),
    keys: Map<Seq<char>, (Seq<u8>, Seq<u8>)>,
    e: Seq<char>,
)
    ensures
        vault::user_rsa_key(Some(key), Err(e)) == (
            None::<Seq<u8>>,
            seq!["Warning: Failed to decrypt user RSA private key: "@ + e],
        ),
        vault::user_rsa_key(Some(key), Ok(der)) == (Some(der), Seq::<Seq<char>>::empty()),
        vault::user_rsa_key(None, Ok(der)) == (None::<Seq<u8>>, Seq::<Seq<char>>::empty()),
        storage::unwrapped_org_key(org.key@, der) == Err::<(Seq<u8>, Seq<u8>), Seq<char>>(e)
            ==> vault::organization_keys(orgs.push(org), der).1 == vault::organization_keys(
            orgs,
            der,
        ).1.push("Warning: Failed to decrypt organization key for "@ + org.id@ + ": "@ + e),
        storage::unwrapped_org_key(org.key@, der) is Ok ==> vault::organization_keys(
            orgs.push(org),
            der,
        ).1 == vault::organization_keys(orgs, der).1,
        storage::decrypted_cipher(cipher, user, keys) == Err::<
            Option<storage::ItemTexts>,
            Seq<char>,
        >(e) ==> vault::vault_items(ciphers.push(cipher), user, keys).1 == vault::vault_items(
            ciphers,
            user,
            keys,
        ).1.push("Warning: Skipping cipher ID "@ + cipher.id@ + " due to error: "@ + e),
{
    assert(orgs.push(org).drop_last() =~= orgs);
    assert(ciphers.push(cipher).drop_last() =~= ciphers);
}

/// A cached vault without unlock data, or with costs that are missing or of an unknown kind, is not
/// opened, and it is said why.
pub proof fn caches_that_stay_locked_say_why(sync: SyncResponse, password: Seq<char>)
    ensures
        sync.user_decryption is None ==> vault::offline_keys(sync, password) == Err::<
            (Seq<u8>, Seq<u8>),
            Seq<char>,
        >("Offline decryption settings missing from local cache. Please sync online first."@)
            && vault::offline_costs_fit(sync),
        sync.user_decryption is Some && sync.user_decryption->0.master_password_unlock is None
            ==> vault::offline_keys(sync, password) == Err::<(Seq<u8>, Seq<u8>), Seq<char>>(
            "Offline KDF data missing from local cache"@,
        ) && vault::offline_costs_fit(sync),
        sync.user_decryption matches Some(options) ==> options.master_password_unlock matches Some(
            unlock,
        ) ==> {
            let keys = vault::offline_keys(sync, password);
            &&& unlock.kdf.kdf_type == 1 && unlock.kdf.memory is None ==> keys == Err::<
                (Seq<u8>, Seq<u8>),
                Seq<char>,
            >("Argon2 memory parameter missing"@)
            &&& unlock.kdf.kdf_type == 1 && unlock.kdf.memory is Some && unlock.kdf.parallelism
                is None ==> keys == Err::<(Seq<u8>, Seq<u8>), Seq<char>>(
                "Argon2 parallelism parameter missing"@,
            )
            &&& unlock.kdf.kdf_type > 1 ==> keys == Err::<(Seq<u8>, Seq<u8>), Seq<char>>(
                "Unsupported KDF type: "@ + number::decimal(unlock.kdf.kdf_type as nat),
            )
            &&& unlock.kdf.kdf_type == 0 && unlock.kdf.iterations == 0 ==> keys == Err::<
                (Seq<u8>, Seq<u8>),
                Seq<char>,
            >("PBKDF2 iterations count cannot be zero"@)
            &&& vault::offline_costs_fit(sync) == crypto::kdf_costs_fit(
                unlock.kdf.kdf_type,
                unlock.kdf.memory,
                unlock.kdf.parallelism,
            )
        },
{
}

// ---------------------------------------------------------------------------
// The SSH agent
// ---------------------------------------------------------------------------
/// What the agent cannot do is named: a message that ends early, a key or a signature that cannot
/// be written, a signature that cannot be made.
pub proof fn agent_faults_are_named(
    keys: Seq<OfferedKey>,
    blob: Seq<u8>,
    e: Seq<char>,
    data: Seq<u8>,
    at: int,
)
    requires
        0 <= at <= data.len(),
    ensures
        agent::agent_reply(Seq::empty(), keys) == Err::<Seq<u8>, Seq<char>>(
            "Unexpected EOF reading u8"@,
        ),
        data.len() - at < 4 ==> agent::take_number(data, at) == Err::<(int, int), Seq<char>>(
            "Unexpected EOF reading u32"@,
        ),
        data.len() - at >= 4 && agent::number_at(data, at) > data.len() - at - 4
            ==> agent::take_string(data, at) == Err::<(Seq<u8>, int), Seq<char>>(
            "Unexpected EOF reading bytes"@,
        ),
        agent::signature_reply(Err(e)) == Err::<Seq<u8>, Seq<char>>("Signing failed: "@ + e),
        agent::signature_reply(Ok(Err(e))) == Err::<Seq<u8>, Seq<char>>(
            "Failed to serialize signature: "@ + e,
        ),
        keys.len() > 0 && keys[0].public_blob == Err::<Seq<u8>, Seq<char>>(e) ==> agent::find_key(
            keys,
            blob,
            0,
        ) == Err::<Option<OfferedKey>, Seq<char>>("Failed to serialize public key: "@ + e),
        keys.len() == 1 && keys[0].public_blob == Err::<Seq<u8>, Seq<char>>(e)
            ==> agent::agent_reply(seq![11u8], keys) == Err::<Seq<u8>, Seq<char>>(
            "Failed to serialize public key: "@ + e,
        ),
{
    reveal_with_fuel(agent::identities, 2);
}

/// An RSA key that cannot be read, is refused, or is shorter than 2048 bits does not sign.
pub proof fn bad_rsa_keys_do_not_sign(
    key: Seq<char>,
    numbers: (Seq<u8>, Seq<u8>, Seq<u8>, Seq<u8>, Seq<u8>),
    der: Seq<u8>,
    data: Seq<u8>,
    hash: SignatureHash,
    fault: Seq<char>,
)
    ensures
        agent::openssh_rsa_numbers(key) is None ==> agent::rsa_signature(key, hash, data) == Err::<
            Seq<u8>,
            Seq<char>,
        >("RSA key cannot be read"@),
        agent::openssh_rsa_numbers(key) == Some(numbers) ==> ({
            let document = primitives::rsa_document(
                numbers.0,
                numbers.1,
                numbers.2,
                numbers.3,
                numbers.4,
            );
            let signed = agent::rsa_signature(key, hash, data);
            let bits = primitives::rsa_prime_bits(der);
            &&& document == Err::<Seq<u8>, Seq<char>>(fault) ==> signed == Err::<
                Seq<u8>,
                Seq<char>,
            >(fault)
            &&& document == Ok::<Seq<u8>, Seq<char>>(der) && primitives::rsa_key_fault(der) == Some(
                fault,
            ) ==> signed == Err::<Seq<u8>, Seq<char>>(
                "Failed to parse RSA private key from PKCS#8 DER: "@ + fault,
            )
            &&& document == Ok::<Seq<u8>, Seq<char>>(der) && primitives::rsa_key_fault(der) is None
                && bits.1 > bits.0 + 16 ==> signed == Err::<Seq<u8>, Seq<char>>(
                "RSA private key has unbalanced primes"@,
            )
            &&& document == Ok::<Seq<u8>, Seq<char>>(der) && primitives::rsa_key_fault(der) is None
                && bits.1 <= bits.0 + 16 && primitives::rsa_modulus_bytes(der) < 256 ==> signed
                == Err::<Seq<u8>, Seq<char>>("RSA key is shorter than 2048 bits"@)
        }),
{
}

} // verus!
