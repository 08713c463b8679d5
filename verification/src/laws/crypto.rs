//! Laws of key derivation and decryption.
use vstd::prelude::*;
use vstd::string::*;
use vstd::utf8::*;

use crate::crypto;
use crate::crypto::CipherForm;
use crate::number;
use crate::primitives;
use crate::text;

verus! {

// ---------------------------------------------------------------------------
// Key derivation
// ---------------------------------------------------------------------------
/// PBKDF2 runs as often as asked, over the password, salted with the lower-case address; running
/// it no time at all is refused.
pub proof fn pbkdf2_uses_all_its_settings(password: Seq<char>, email: Seq<char>, iterations: u32)
    ensures
        iterations > 0 ==> crypto::pbkdf2_master_key(password, email, iterations) == Ok::<
            Seq<u8>,
            Seq<char>,
        >(
            primitives::pbkdf2_sha256(
                iterations,
                encode_utf8(text::lowercase(email)),
                encode_utf8(password),
            ),
        ),
        iterations == 0 ==> crypto::pbkdf2_master_key(password, email, iterations) is Err,
{
}

/// Argon2id runs with the memory, the rounds and the lanes that are asked for, over the password,
/// salted with the digest of the lower-case address.
pub proof fn argon2_uses_all_its_settings(
    password: Seq<char>,
    email: Seq<char>,
    iterations: u32,
    memory_mb: u32,
    parallelism: u32,
)
    requires
        memory_mb * 1024 <= u32::MAX,
        8 * parallelism <= memory_mb * 1024,
        1 <= iterations,
        1 <= memory_mb,
        1 <= parallelism <= 0xff_ffff,
    ensures
        ({
            let made = primitives::argon2id(
                (memory_mb * 1024) as u32,
                iterations,
                parallelism,
                encode_utf8(password),
                primitives::sha256(encode_utf8(text::lowercase(email))),
            );
            let key = crypto::argon2_master_key(
                password,
                email,
                iterations,
                memory_mb,
                parallelism,
            );
            &&& made matches Ok(bytes) ==> key == Ok::<Seq<u8>, Seq<char>>(bytes)
            &&& made is Err ==> key is Err
        }),
{
}

/// Costs that Argon2 refuses derive nothing: no round, no lane, too many lanes, or less memory than
/// the lanes need.
pub proof fn argon2_refuses_bad_settings(
    password: Seq<char>,
    email: Seq<char>,
    iterations: u32,
    memory_mb: u32,
    parallelism: u32,
)
    requires
        iterations == 0 || memory_mb == 0 || parallelism == 0 || parallelism > 0xff_ffff || memory_mb
            * 1024 < 8 * parallelism,
    ensures
        crypto::argon2_master_key(password, email, iterations, memory_mb, parallelism) is Err,
{
}

/// The case of the address does not matter: two addresses with the same lower-case form derive the
/// same key from the same password and settings.
pub proof fn the_case_of_the_address_does_not_matter(
    password: Seq<char>,
    a: Seq<char>,
    b: Seq<char>,
    kdf_type: u32,
    iterations: u32,
    memory: Option<u32>,
    parallelism: Option<u32>,
)
    requires
        text::lowercase(a) == text::lowercase(b),
    ensures
        crypto::master_key(password, a, kdf_type, iterations, memory, parallelism)
            == crypto::master_key(password, b, kdf_type, iterations, memory, parallelism),
{
}

/// The kind of derivation decides: nought is PBKDF2, whatever the other costs are, and one is
/// Argon2id, which needs both of them; any other kind is refused.
pub proof fn the_kind_of_derivation_decides(
    password: Seq<char>,
    email: Seq<char>,
    iterations: u32,
    memory: Option<u32>,
    parallelism: Option<u32>,
    kind: u32,
)
    ensures
        iterations > 0 ==> crypto::master_key(
            password,
            email,
            0,
            iterations,
            memory,
            parallelism,
        ) == Ok::<Seq<u8>, Seq<char>>(
            primitives::pbkdf2_sha256(
                iterations,
                encode_utf8(text::lowercase(email)),
                encode_utf8(password),
            ),
        ),
        memory is None || parallelism is None ==> crypto::master_key(
            password,
            email,
            1,
            iterations,
            memory,
            parallelism,
        ) is Err,
        memory matches Some(m) ==> parallelism matches Some(p) ==> crypto::master_key(
            password,
            email,
            1,
            iterations,
            memory,
            parallelism,
        ) == crypto::argon2_master_key(password, email, iterations, m, p),
        kind > 1 ==> crypto::master_key(
            password,
            email,
            kind,
            iterations,
            memory,
            parallelism,
        ) is Err,
        iterations == 0 ==> crypto::master_key(
            password,
            email,
            kind,
            iterations,
            memory,
            parallelism,
        ) is Err,
{
}

/// The hash that is sent to the server is one round of PBKDF2 over the master key, salted with the
/// password, in Base64: the master key itself is not sent.
pub proof fn the_login_hash_is_one_more_round(master_key: Seq<u8>, password: Seq<char>)
    ensures
        crypto::login_hash(master_key, password) == primitives::base64_text(
            primitives::pbkdf2_sha256(1, encode_utf8(password), master_key),
            false,
        ),
{
}

/// Base64 writes three bytes as four characters, in the alphabet of letters, digits, `+` and `/`, or
/// `-` and `_` in a URL; what is left over is padded outside URLs.
pub proof fn base64_writes_three_bytes_as_four_characters(
    a: u8,
    b: u8,
    c: u8,
    rest: Seq<u8>,
    url_safe: bool,
)
    ensures
        primitives::base64_text(seq![a, b, c] + rest, url_safe) == seq![
            primitives::base64_char(a as int / 4, url_safe),
            primitives::base64_char(a as int % 4 * 16 + b as int / 16, url_safe),
            primitives::base64_char(b as int % 16 * 4 + c as int / 64, url_safe),
            primitives::base64_char(c as int % 64, url_safe),
        ] + primitives::base64_text(rest, url_safe),
        primitives::base64_text(Seq::empty(), url_safe) == Seq::<char>::empty(),
        primitives::base64_text(seq![a], true).len() == 2,
        primitives::base64_text(seq![a], false) == seq![
            primitives::base64_char(a as int / 4, false),
            primitives::base64_char(a as int % 4 * 16, false),
            '=',
            '=',
        ],
        primitives::base64_text(seq![a, b], false) == seq![
            primitives::base64_char(a as int / 4, false),
            primitives::base64_char(a as int % 4 * 16 + b as int / 16, false),
            primitives::base64_char(b as int % 16 * 4, false),
            '=',
        ],
{
    let s = seq![a, b, c] + rest;
    assert(s.skip(3) =~= rest);
    assert(s[0] == a && s[1] == b && s[2] == c);
    assert(primitives::base64_text(seq![a], false) =~= seq![
        primitives::base64_char(a as int / 4, false),
        primitives::base64_char(a as int % 4 * 16, false),
        '=',
        '=',
    ]);
    assert(primitives::base64_text(seq![a, b], false) =~= seq![
        primitives::base64_char(a as int / 4, false),
        primitives::base64_char(a as int % 4 * 16 + b as int / 16, false),
        primitives::base64_char(b as int % 16 * 4, false),
        '=',
    ]);
}

// ---------------------------------------------------------------------------
// Cipher strings
// ---------------------------------------------------------------------------
/// A text that no separator of cipher strings cuts.
pub open spec fn is_part(s: Seq<char>) -> bool {
    !s.contains('.') && !s.contains('|')
}

/// A text that writes the number of an encryption type.
pub open spec fn is_head(head: Seq<char>, kind: nat) -> bool {
    !head.contains('.') && number::unsigned_value(head, u32::MAX as nat) == Ok::<
        nat,
        number::NumberFault,
    >(kind)
}

pub(super) proof fn lemma_two(head: Seq<char>, body: Seq<char>)
    requires
        !head.contains('.'),
        !body.contains('.'),
    ensures
        text::split_on(head + seq!['.'] + body, '.') == seq![head, body],
{
    text::splitting_is_local(head, body, '.');
    text::unseparated_texts_are_whole(head, '.');
    text::unseparated_texts_are_whole(body, '.');
    assert(seq![head] + seq![body] =~= seq![head, body]);
}

pub(super) proof fn lemma_pair(a: Seq<char>, b: Seq<char>)
    requires
        is_part(a),
        is_part(b),
    ensures
        text::split_on(a + seq!['|'] + b, '|') == seq![a, b],
        !(a + seq!['|'] + b).contains('.'),
{
    text::splitting_is_local(a, b, '|');
    text::unseparated_texts_are_whole(a, '|');
    text::unseparated_texts_are_whole(b, '|');
    assert(seq![a] + seq![b] =~= seq![a, b]);
    let s = a + seq!['|'] + b;
    assert forall|i: int| 0 <= i < s.len() implies s[i] != '.' by {
        if i < a.len() {
            assert(a.contains(a[i]));
        } else if i > a.len() {
            assert(b.contains(b[i - a.len() - 1]));
        }
    }
}

pub(super) proof fn lemma_triple(a: Seq<char>, b: Seq<char>, c: Seq<char>)
    requires
        is_part(a),
        is_part(b),
        is_part(c),
    ensures
        text::split_on(a + seq!['|'] + b + seq!['|'] + c, '|') == seq![a, b, c],
        !(a + seq!['|'] + b + seq!['|'] + c).contains('.'),
{
    let front = a + seq!['|'] + b;
    lemma_pair(a, b);
    text::splitting_is_local(front, c, '|');
    text::unseparated_texts_are_whole(c, '|');
    assert(seq![a, b] + seq![c] =~= seq![a, b, c]);
    let s = front + seq!['|'] + c;
    assert forall|i: int| 0 <= i < s.len() implies s[i] != '.' by {
        if i < front.len() {
            assert(front.contains(front[i]));
        } else if i > front.len() {
            assert(c.contains(c[i - front.len() - 1]));
        }
    }
}

/// A sealed text, `type.iv|ciphertext|mac`, of type one or two.
pub open spec fn sealed(
    head: Seq<char>,
    iv: Seq<char>,
    ciphertext: Seq<char>,
    mac: Seq<char>,
) -> Seq<char> {
    head + seq!['.'] + (iv + seq!['|'] + ciphertext + seq!['|'] + mac)
}

/// A sealed text is taken apart into the parts it was written with.
pub proof fn sealed_texts_are_taken_apart(
    head: Seq<char>,
    kind: nat,
    iv: Seq<char>,
    ciphertext: Seq<char>,
    mac: Seq<char>,
)
    requires
        is_head(head, kind),
        kind == 1 || kind == 2,
        is_part(iv),
        is_part(ciphertext),
        is_part(mac),
    ensures
        crypto::cipher_form(sealed(head, iv, ciphertext, mac)) == Ok::<
            CipherForm<Seq<char>>,
            Seq<char>,
        >(CipherForm::Sealed { iv, ciphertext, mac }),
{
    lemma_triple(iv, ciphertext, mac);
    lemma_two(head, iv + seq!['|'] + ciphertext + seq!['|'] + mac);
}

/// A sealed text whose MAC holds over its IV and its ciphertext, under the MAC key, opens to what
/// AES makes of the ciphertext under the first half of the keys and the IV.
pub proof fn sealed_texts_are_opened(
    head: Seq<char>,
    kind: nat,
    texts: (Seq<char>, Seq<char>, Seq<char>),
    parts: (Seq<u8>, Seq<u8>, Seq<u8>),
    enc_key: Seq<u8>,
    mac_key: Seq<u8>,
)
    requires
        is_head(head, kind),
        kind == 1 || kind == 2,
        is_part(texts.0),
        is_part(texts.1),
        is_part(texts.2),
        primitives::base64_decoded(texts.0) == Ok::<Seq<u8>, Seq<char>>(parts.0),
        primitives::base64_decoded(texts.1) == Ok::<Seq<u8>, Seq<char>>(parts.1),
        primitives::base64_decoded(texts.2) == Ok::<Seq<u8>, Seq<char>>(parts.2),
        enc_key.len() == 32,
        parts.0.len() == 16,
    ensures
        ({
            let opened = crypto::cipher_plaintext(
                sealed(head, texts.0, texts.1, texts.2),
                enc_key,
                mac_key,
            );
            let made = primitives::aes256_cbc(enc_key, parts.0, parts.1);
            if primitives::hmac_sha256_holds(mac_key, parts.0 + parts.1, parts.2) {
                (made matches Ok(plain) ==> opened == Ok::<Seq<u8>, Seq<char>>(plain)) && (made is Err
                    ==> opened is Err)
            } else {
                opened is Err
            }
        }),
{
    sealed_texts_are_taken_apart(head, kind, texts.0, texts.1, texts.2);
    assert(enc_key.take(32) =~= enc_key);
}

/// A part of a sealed text that is no Base64 keeps it closed, and so does an IV that is not one
/// block.
pub proof fn broken_parts_stay_closed(
    head: Seq<char>,
    kind: nat,
    texts: (Seq<char>, Seq<char>, Seq<char>),
    enc_key: Seq<u8>,
    mac_key: Seq<u8>,
)
    requires
        is_head(head, kind),
        kind == 1 || kind == 2,
        is_part(texts.0),
        is_part(texts.1),
        is_part(texts.2),
        primitives::base64_decoded(texts.0) is Err || primitives::base64_decoded(texts.1) is Err
            || primitives::base64_decoded(texts.2) is Err || (primitives::base64_decoded(
            texts.0,
        ) matches Ok(iv) && iv.len() != 16),
    ensures
        crypto::cipher_plaintext(
            sealed(head, texts.0, texts.1, texts.2),
            enc_key,
            mac_key,
        ) is Err,
{
    sealed_texts_are_taken_apart(head, kind, texts.0, texts.1, texts.2);
}

/// A text of type nought is a ciphertext behind its IV, or one alone, which has an IV of zeros. It
/// opens to what AES makes of it.
pub proof fn bare_texts_are_opened(
    head: Seq<char>,
    iv_text: Seq<char>,
    body_text: Seq<char>,
    iv: Seq<u8>,
    body: Seq<u8>,
    enc_key: Seq<u8>,
    mac_key: Seq<u8>,
)
    requires
        is_head(head, 0),
        is_part(iv_text),
        is_part(body_text),
        primitives::base64_decoded(iv_text) == Ok::<Seq<u8>, Seq<char>>(iv),
        primitives::base64_decoded(body_text) == Ok::<Seq<u8>, Seq<char>>(body),
        enc_key.len() == 32,
        iv.len() == 16,
    ensures
        primitives::aes256_cbc(enc_key, iv, body) matches Ok(plain) ==> crypto::cipher_plaintext(
            head + seq!['.'] + (iv_text + seq!['|'] + body_text),
            enc_key,
            mac_key,
        ) == Ok::<Seq<u8>, Seq<char>>(plain),
        body.len() >= 16 ==> (primitives::aes256_cbc(
            enc_key,
            Seq::new(16, |i: int| 0u8),
            body,
        ) matches Ok(plain) ==> crypto::cipher_plaintext(
            head + seq!['.'] + body_text,
            enc_key,
            mac_key,
        ) == Ok::<Seq<u8>, Seq<char>>(plain)),
        body.len() < 16 ==> crypto::cipher_plaintext(
            head + seq!['.'] + body_text,
            enc_key,
            mac_key,
        ) is Err,
{
    assert(enc_key.take(32) =~= enc_key);
    lemma_pair(iv_text, body_text);
    lemma_two(head, iv_text + seq!['|'] + body_text);
    lemma_two(head, body_text);
    text::unseparated_texts_are_whole(body_text, '|');
}

/// Texts of any other type stay closed, and so does a text without a type.
pub proof fn other_types_stay_closed(
    head: Seq<char>,
    kind: nat,
    body: Seq<char>,
    enc_key: Seq<u8>,
    mac_key: Seq<u8>,
)
    requires
        is_head(head, kind),
        kind > 2,
        !body.contains('.'),
    ensures
        crypto::cipher_plaintext(head + seq!['.'] + body, enc_key, mac_key) is Err,
        crypto::cipher_plaintext(body, enc_key, mac_key) is Err,
{
    lemma_two(head, body);
    text::unseparated_texts_are_whole(body, '.');
}

/// Of a long encryption key only the first 32 bytes count.
pub proof fn only_the_front_of_the_key_counts(
    s: Seq<char>,
    enc_key: Seq<u8>,
    more: Seq<u8>,
    mac_key: Seq<u8>,
)
    requires
        enc_key.len() == 32,
    ensures
        crypto::cipher_plaintext(s, enc_key + more, mac_key) == crypto::cipher_plaintext(
            s,
            enc_key,
            mac_key,
        ),
{
    assert((enc_key + more).take(32) =~= enc_key);
    assert(enc_key.take(32) =~= enc_key);
}

// ---------------------------------------------------------------------------
// Wrapped keys
// ---------------------------------------------------------------------------
/// The user's key is what the wrapped key opens to under the two keys into which the master key is
/// stretched: its first half encrypts, its second half authenticates. It has 64 bytes.
pub proof fn the_master_key_unwraps_the_user_key(
    master_key: Seq<u8>,
    wrapped: Seq<char>,
    enc: Seq<u8>,
    mac: Seq<u8>,
    bytes: Seq<u8>,
)
    requires
        crypto::cipher_plaintext(
            wrapped,
            primitives::hkdf_sha256_expand(master_key, encode_utf8("enc"@)),
            primitives::hkdf_sha256_expand(master_key, encode_utf8("mac"@)),
        ) == Ok::<Seq<u8>, Seq<char>>(bytes),
    ensures
        bytes == enc + mac && enc.len() == 32 && mac.len() == 32 ==> crypto::symmetric_key(
            master_key,
            wrapped,
        ) == Ok::<(Seq<u8>, Seq<u8>), Seq<char>>((enc, mac)),
        bytes.len() != 64 ==> crypto::symmetric_key(master_key, wrapped) is Err,
{
    if bytes == enc + mac && enc.len() == 32 && mac.len() == 32 {
        assert(bytes.subrange(0, 32) =~= enc);
        assert(bytes.subrange(32, 64) =~= mac);
    }
}

/// A wrapped key that does not open unwraps nothing.
pub proof fn closed_keys_unwrap_nothing(master_key: Seq<u8>, wrapped: Seq<char>)
    requires
        crypto::cipher_plaintext(
            wrapped,
            primitives::hkdf_sha256_expand(master_key, encode_utf8("enc"@)),
            primitives::hkdf_sha256_expand(master_key, encode_utf8("mac"@)),
        ) is Err,
    ensures
        crypto::symmetric_key(master_key, wrapped) is Err,
{
}

/// RSA-OAEP hands out what the key opens, and nothing where the key is refused or its primes are
/// far apart.
pub proof fn rsa_opens_what_the_key_opens(
    prefix: Seq<char>,
    bits: (usize, usize),
    plain: Seq<u8>,
    fault: Seq<char>,
)
    ensures
        bits.1 <= bits.0 + 16 ==> crypto::rsa_plaintext(prefix, None, bits, Ok(plain)) == Ok::<
            Seq<u8>,
            Seq<char>,
        >(plain),
        bits.1 > bits.0 + 16 ==> crypto::rsa_plaintext(prefix, None, bits, Ok(plain)) is Err,
        crypto::rsa_plaintext(prefix, Some(fault), bits, Ok(plain)) is Err,
        crypto::rsa_plaintext(prefix, None, bits, Err(fault)) is Err,
{
}

/// A PKCE challenge is the SHA-256 digest of its verifier in the Base64 of URLs, and no other text.
pub proof fn the_challenge_is_the_digest_of_the_verifier(challenge: Seq<char>, verifier: Seq<char>)
    ensures
        crypto::is_challenge_of(challenge, verifier) <==> challenge == primitives::base64_text(
            primitives::sha256(encode_utf8(verifier)),
            true,
        ),
{
}

/// Further parts of a sealed text, behind its MAC or behind another dot, do not matter.
pub proof fn more_parts_of_a_sealed_text_do_not_matter(
    head: Seq<char>,
    kind: nat,
    iv: Seq<char>,
    ciphertext: Seq<char>,
    mac: Seq<char>,
    more: Seq<char>,
)
    requires
        is_head(head, kind),
        kind == 1 || kind == 2,
        is_part(iv),
        is_part(ciphertext),
        is_part(mac),
        is_part(more),
    ensures
        crypto::cipher_form(sealed(head, iv, ciphertext, mac) + seq!['|'] + more)
            == crypto::cipher_form(sealed(head, iv, ciphertext, mac)),
        crypto::cipher_form(sealed(head, iv, ciphertext, mac) + seq!['.'] + more)
            == crypto::cipher_form(sealed(head, iv, ciphertext, mac)),
{
    sealed_texts_are_taken_apart(head, kind, iv, ciphertext, mac);
    lemma_triple(iv, ciphertext, mac);
    let body = iv + seq!['|'] + ciphertext + seq!['|'] + mac;
    let long = body + seq!['|'] + more;
    assert forall|i: int| 0 <= i < long.len() implies long[i] != '.' by {
        if i < body.len() {
            assert(body.contains(body[i]));
        } else if i > body.len() {
            assert(more.contains(more[i - body.len() - 1]));
        }
    }
    lemma_two(head, long);
    assert(sealed(head, iv, ciphertext, mac) + seq!['|'] + more =~= head + seq!['.'] + long);
    text::splitting_is_local(body, more, '|');
    text::unseparated_texts_are_whole(more, '|');
    assert(seq![iv, ciphertext, mac] + seq![more] =~= seq![iv, ciphertext, mac, more]);
    lemma_two(head, body);
    text::splitting_is_local(head + seq!['.'] + body, more, '.');
    text::unseparated_texts_are_whole(more, '.');
    assert(seq![head, body] + seq![more] =~= seq![head, body, more]);
}

} // verus!
