//! Laws of the decryption of a vault and of the SSH keys in it.
use vstd::prelude::*;
use vstd::string::*;
use vstd::utf8::*;

use crate::api::{CipherSync, FieldSync, LoginSync, OrganizationSync, SshKeySync, SyncResponse};
use crate::crypto;
use crate::primitives;
use crate::storage;
use crate::storage::vault;
use crate::text;

verus! {

// ---------------------------------------------------------------------------
// Keys of an item
// ---------------------------------------------------------------------------
/// An item of an organization whose keys are known is opened with those keys alone: its own key
/// opens under them to the two halves of its keys, without one it is opened with them directly,
/// and the user's keys have no part in it.
pub proof fn items_of_an_organization_open_with_its_keys(
    cipher: CipherSync,
    org: String,
    user: (Seq<u8>, Seq<u8>),
    other: (Seq<u8>, Seq<u8>),
    orgs: Map<Seq<char>, (Seq<u8>, Seq<u8>)>,
    enc: Seq<u8>,
    mac: Seq<u8>,
)
    requires
        cipher.organization_id == Some(org),
        orgs.dom().contains(org@),
        enc.len() == 32,
        mac.len() == 32,
    ensures
        cipher.key is None ==> storage::item_keys(cipher, user, orgs) == Ok::<
            (Seq<u8>, Seq<u8>),
            Seq<char>,
        >(orgs[org@]),
        cipher.key matches Some(key) ==> crypto::cipher_plaintext(
            key@,
            orgs[org@].0,
            orgs[org@].1,
        ) == Ok::<Seq<u8>, Seq<char>>(enc + mac) ==> storage::item_keys(cipher, user, orgs) == Ok::<
            (Seq<u8>, Seq<u8>),
            Seq<char>,
        >((enc, mac)),
        cipher.key matches Some(key) ==> crypto::cipher_plaintext(
            key@,
            orgs[org@].0,
            orgs[org@].1,
        ) is Err ==> storage::item_keys(cipher, user, orgs) is Err,
        storage::item_keys(cipher, user, orgs) == storage::item_keys(cipher, other, orgs),
{
    assert((enc + mac).subrange(0, 32) =~= enc);
    assert((enc + mac).subrange(32, 64) =~= mac);
}

/// An item of the user, or of an organization whose keys are not known, is opened with the user's
/// keys: its own key opens under them to the two halves of its keys, without one it is opened with
/// them directly.
pub proof fn other_items_open_with_the_keys_of_the_user(
    cipher: CipherSync,
    user: (Seq<u8>, Seq<u8>),
    orgs: Map<Seq<char>, (Seq<u8>, Seq<u8>)>,
    enc: Seq<u8>,
    mac: Seq<u8>,
)
    requires
        cipher.organization_id matches Some(org) ==> !orgs.dom().contains(org@),
        enc.len() == 32,
        mac.len() == 32,
    ensures
        cipher.key is None ==> storage::item_keys(cipher, user, orgs) == Ok::<
            (Seq<u8>, Seq<u8>),
            Seq<char>,
        >(user),
        cipher.key matches Some(key) ==> crypto::cipher_plaintext(key@, user.0, user.1) == Ok::<
            Seq<u8>,
            Seq<char>,
        >(enc + mac) ==> storage::item_keys(cipher, user, orgs) == Ok::<
            (Seq<u8>, Seq<u8>),
            Seq<char>,
        >((enc, mac)),
        cipher.key matches Some(key) ==> crypto::cipher_plaintext(key@, user.0, user.1) is Err
            ==> storage::item_keys(cipher, user, orgs) is Err,
{
    assert((enc + mac).subrange(0, 32) =~= enc);
    assert((enc + mac).subrange(32, 64) =~= mac);
}

/// A key of an item that does not have 64 bytes opens nothing.
pub proof fn item_keys_have_64_bytes(
    cipher: CipherSync,
    key: String,
    user: (Seq<u8>, Seq<u8>),
    orgs: Map<Seq<char>, (Seq<u8>, Seq<u8>)>,
    bytes: Seq<u8>,
)
    requires
        cipher.organization_id is None,
        cipher.key == Some(key),
        crypto::cipher_plaintext(key@, user.0, user.1) == Ok::<Seq<u8>, Seq<char>>(bytes),
        bytes.len() != 64,
    ensures
        storage::item_keys(cipher, user, orgs) is Err,
{
}

// ---------------------------------------------------------------------------
// Texts of an item
// ---------------------------------------------------------------------------
/// The cipher string `s` opens to the text `plain`.
pub open spec fn opens_to(s: Seq<char>, keys: (Seq<u8>, Seq<u8>), plain: Seq<char>) -> bool {
    crypto::cipher_plaintext(s, keys.0, keys.1) matches Ok(bytes) && valid_utf8(bytes) && decode_utf8(
        bytes,
    ) == plain
}

/// The cipher string `s` opens to some text.
pub open spec fn opens(s: Seq<char>, keys: (Seq<u8>, Seq<u8>)) -> bool {
    crypto::cipher_plaintext(s, keys.0, keys.1) matches Ok(bytes) && valid_utf8(bytes)
}

/// The optional cipher string opens to the optional text: both are there or neither is.
pub open spec fn option_opens_to(
    s: Option<String>,
    keys: (Seq<u8>, Seq<u8>),
    plain: Option<Seq<char>>,
) -> bool {
    match (s, plain) {
        (Some(s), Some(plain)) => opens_to(s@, keys, plain),
        (None, None) => true,
        _ => false,
    }
}

/// The optional cipher string, where it is there, opens.
pub open spec fn option_opens(s: Option<String>, keys: (Seq<u8>, Seq<u8>)) -> bool {
    s matches Some(s) ==> opens(s@, keys)
}

/// Every text of a login opens.
pub open spec fn login_opens(login: LoginSync, keys: (Seq<u8>, Seq<u8>)) -> bool {
    option_opens(login.username, keys) && option_opens(login.password, keys) && option_opens(
        login.uri,
        keys,
    )
}

/// Every text of the fields opens.
pub open spec fn fields_open(fields: Seq<FieldSync>, keys: (Seq<u8>, Seq<u8>)) -> bool {
    forall|i: int|
        0 <= i < fields.len() ==> opens((#[trigger] fields[i]).name@, keys) && option_opens(
            fields[i].value,
            keys,
        )
}

/// Every text of an SSH key opens.
pub open spec fn ssh_key_opens(key: SshKeySync, keys: (Seq<u8>, Seq<u8>)) -> bool {
    option_opens(key.private_key, keys) && option_opens(key.public_key, keys)
}

/// Every text of an item opens.
pub open spec fn item_opens(cipher: CipherSync, keys: (Seq<u8>, Seq<u8>)) -> bool {
    &&& option_opens(cipher.name, keys)
    &&& option_opens(cipher.notes, keys)
    &&& cipher.fields matches Some(fields) ==> fields_open(fields@, keys)
    &&& cipher.login matches Some(login) ==> login_opens(login, keys)
    &&& cipher.ssh_key matches Some(key) ==> ssh_key_opens(key, keys)
}

/// The texts of a field are what its cipher strings open to.
pub open spec fn field_opens_to(
    field: FieldSync,
    keys: (Seq<u8>, Seq<u8>),
    texts: storage::FieldTexts,
) -> bool {
    &&& opens_to(field.name@, keys, texts.name)
    &&& option_opens_to(field.value, keys, texts.value)
    &&& texts.kind == field.kind
}

/// Every text of the item stands for the cipher string in its place.
pub open spec fn item_opens_to(
    cipher: CipherSync,
    keys: (Seq<u8>, Seq<u8>),
    item: storage::ItemTexts,
) -> bool {
    &&& item.id == cipher.id@
    &&& item.kind == cipher.kind
    &&& match cipher.name {
        Some(name) => opens_to(name@, keys, item.name),
        None => item.name == "Unnamed Vault Item"@,
    }
    &&& option_opens_to(cipher.notes, keys, item.notes)
    &&& match (cipher.login, item.login) {
        (Some(login), Some(texts)) => {
            &&& option_opens_to(login.username, keys, texts.username)
            &&& option_opens_to(login.password, keys, texts.password)
            &&& option_opens_to(login.uri, keys, texts.uri)
        },
        (None, None) => true,
        _ => false,
    }
    &&& match (cipher.ssh_key, item.ssh_key) {
        (Some(key), Some(texts)) => {
            &&& option_opens_to(key.private_key, keys, texts.private_key)
            &&& option_opens_to(key.public_key, keys, texts.public_key)
        },
        (None, None) => true,
        _ => false,
    }
    &&& match (cipher.fields, item.fields) {
        (Some(fields), Some(texts)) => {
            &&& fields@.len() == texts.len()
            &&& forall|i: int|
                0 <= i < texts.len() ==> field_opens_to(fields@[i], keys, #[trigger] texts[i])
        },
        (None, None) => true,
        _ => false,
    }
}

proof fn lemma_fields_open(fields: Seq<FieldSync>, keys: (Seq<u8>, Seq<u8>))
    ensures
        storage::fields_texts(fields, keys) matches Ok(texts) ==> texts.len() == fields.len() && (
        forall|i: int|
            0 <= i < texts.len() ==> field_opens_to(fields[i], keys, #[trigger] texts[i])),
        fields_open(fields, keys) ==> storage::fields_texts(fields, keys) is Ok,
        storage::fields_texts(fields, keys) is Ok ==> fields_open(fields, keys),
    decreases fields.len(),
{
    if fields.len() > 0 {
        let shorter = fields.drop_last();
        lemma_fields_open(shorter, keys);
        if fields_open(fields, keys) {
            assert forall|i: int| 0 <= i < shorter.len() implies opens(
                (#[trigger] shorter[i]).name@,
                keys,
            ) && option_opens(shorter[i].value, keys) by {
                assert(fields[i] == shorter[i]);
            }
            assert(opens(fields[fields.len() - 1].name@, keys));
        }
        if let Ok(texts) = storage::fields_texts(fields, keys) {
            let before = storage::fields_texts(shorter, keys)->Ok_0;
            assert forall|i: int| 0 <= i < texts.len() implies field_opens_to(
                fields[i],
                keys,
                #[trigger] texts[i],
            ) by {
                if i < before.len() {
                    assert(field_opens_to(shorter[i], keys, before[i]));
                    assert(texts[i] == before[i]);
                }
            }
            assert forall|i: int| 0 <= i < fields.len() implies opens(
                (#[trigger] fields[i]).name@,
                keys,
            ) && option_opens(fields[i].value, keys) by {
                assert(field_opens_to(fields[i], keys, texts[i]));
            }
        }
    }
}

/// A decrypted item holds, in each place, the text that the cipher string of that place opens to
/// under the keys of the item: nothing is lost, added or put elsewhere.
pub proof fn decrypted_items_say_what_was_encrypted(
    cipher: CipherSync,
    user: (Seq<u8>, Seq<u8>),
    orgs: Map<Seq<char>, (Seq<u8>, Seq<u8>)>,
    keys: (Seq<u8>, Seq<u8>),
    item: storage::ItemTexts,
)
    requires
        storage::item_keys(cipher, user, orgs) == Ok::<(Seq<u8>, Seq<u8>), Seq<char>>(keys),
        storage::decrypted_cipher(cipher, user, orgs) == Ok::<
            Option<storage::ItemTexts>,
            Seq<char>,
        >(Some(item)),
    ensures
        cipher.deleted_date is None,
        item_opens_to(cipher, keys, item),
{
    if let Some(fields) = cipher.fields {
        lemma_fields_open(fields@, keys);
    }
}

/// An item that was not deleted, whose keys are found and whose texts all open, is decrypted; one
/// with a text that does not open is not, and a deleted one is passed over.
pub proof fn items_that_open_are_decrypted(
    cipher: CipherSync,
    user: (Seq<u8>, Seq<u8>),
    orgs: Map<Seq<char>, (Seq<u8>, Seq<u8>)>,
)
    ensures
        cipher.deleted_date is Some ==> storage::decrypted_cipher(cipher, user, orgs) == Ok::<
            Option<storage::ItemTexts>,
            Seq<char>,
        >(None),
        cipher.deleted_date is None ==> (storage::item_keys(cipher, user, orgs) matches Ok(keys)
            ==> item_opens(cipher, keys) ==> (storage::decrypted_cipher(
            cipher,
            user,
            orgs,
        ) matches Ok(Some(item)) && item_opens_to(cipher, keys, item))),
        cipher.deleted_date is None ==> (storage::item_keys(cipher, user, orgs) matches Ok(keys)
            ==> !item_opens(cipher, keys) ==> storage::decrypted_cipher(cipher, user, orgs) is Err),
        cipher.deleted_date is None ==> storage::item_keys(cipher, user, orgs) is Err
            ==> storage::decrypted_cipher(cipher, user, orgs) is Err,
{
    if let Ok(keys) = storage::item_keys(cipher, user, orgs) {
        if let Some(fields) = cipher.fields {
            lemma_fields_open(fields@, keys);
        }
    }
}

// ---------------------------------------------------------------------------
// The whole vault
// ---------------------------------------------------------------------------
/// An item alone is listed where it is decrypted, passed over where it was deleted, and left out
/// with one warning where it cannot be decrypted.
pub proof fn one_item_is_listed_or_warned_of(
    cipher: CipherSync,
    user: (Seq<u8>, Seq<u8>),
    orgs: Map<Seq<char>, (Seq<u8>, Seq<u8>)>,
)
    ensures
        ({
            let (items, warnings) = vault::vault_items(seq![cipher], user, orgs);
            match storage::decrypted_cipher(cipher, user, orgs) {
                Ok(Some(item)) => items == seq![item] && warnings.len() == 0,
                Ok(None) => items.len() == 0 && warnings.len() == 0,
                Err(_) => items.len() == 0 && warnings.len() == 1,
            }
        }),
{
    reveal_with_fuel(vault::vault_items, 2);
    assert(seq![cipher].drop_last() =~= Seq::<CipherSync>::empty());
    assert(seq![cipher].last() == cipher);
    if let Ok(Some(item)) = storage::decrypted_cipher(cipher, user, orgs) {
        assert(Seq::<storage::ItemTexts>::empty().push(item) =~= seq![item]);
    }
}

/// Every item of the vault that can be decrypted is listed.
pub proof fn decryptable_items_are_listed(
    ciphers: Seq<CipherSync>,
    i: int,
    user: (Seq<u8>, Seq<u8>),
    orgs: Map<Seq<char>, (Seq<u8>, Seq<u8>)>,
    item: storage::ItemTexts,
)
    requires
        0 <= i < ciphers.len(),
        storage::decrypted_cipher(ciphers[i], user, orgs) == Ok::<
            Option<storage::ItemTexts>,
            Seq<char>,
        >(Some(item)),
    ensures
        vault::vault_items(ciphers, user, orgs).0.contains(item),
    decreases ciphers.len(),
{
    let shorter = ciphers.drop_last();
    let all = vault::vault_items(ciphers, user, orgs).0;
    let before = vault::vault_items(shorter, user, orgs).0;
    if i == ciphers.len() - 1 {
        assert(all[all.len() - 1] == item);
    } else {
        decryptable_items_are_listed(shorter, i, user, orgs, item);
        let j = choose|j: int| 0 <= j < before.len() && before[j] == item;
        assert(all[j] == item);
    }
}

/// The keys of an organization are those that the user's RSA key unwraps for it; of two entries
/// with one id the later counts.
pub proof fn organizations_have_their_own_keys(
    orgs: Seq<OrganizationSync>,
    der: Seq<u8>,
    i: int,
    keys: (Seq<u8>, Seq<u8>),
)
    requires
        0 <= i < orgs.len(),
        storage::unwrapped_org_key(orgs[i].key@, der) == Ok::<(Seq<u8>, Seq<u8>), Seq<char>>(keys),
        forall|j: int| i < j < orgs.len() ==> (#[trigger] orgs[j]).id@ != orgs[i].id@,
    ensures
        vault::organization_keys(orgs, der).0.dom().contains(orgs[i].id@),
        vault::organization_keys(orgs, der).0[orgs[i].id@] == keys,
    decreases orgs.len(),
{
    if i < orgs.len() - 1 {
        let shorter = orgs.drop_last();
        assert forall|j: int| i < j < shorter.len() implies (#[trigger] shorter[j]).id@
            != shorter[i].id@ by {
            assert(orgs[j].id@ != orgs[i].id@);
        }
        organizations_have_their_own_keys(shorter, der, i, keys);
        assert(orgs[orgs.len() - 1].id@ != orgs[i].id@);
    }
}

/// No organization has keys that were not unwrapped for it.
pub proof fn organization_keys_are_unwrapped(orgs: Seq<OrganizationSync>, der: Seq<u8>, id: Seq<char>)
    requires
        vault::organization_keys(orgs, der).0.dom().contains(id),
    ensures
        exists|i: int|
            0 <= i < orgs.len() && (#[trigger] orgs[i]).id@ == id && storage::unwrapped_org_key(
                orgs[i].key@,
                der,
            ) == Ok::<(Seq<u8>, Seq<u8>), Seq<char>>(vault::organization_keys(orgs, der).0[id]),
    decreases orgs.len(),
{
    if orgs.len() > 0 {
        let shorter = orgs.drop_last();
        let last = orgs.len() - 1;
        if orgs[last].id@ == id && storage::unwrapped_org_key(orgs[last].key@, der) is Ok {
            assert(orgs[last].id@ == id);
        } else {
            organization_keys_are_unwrapped(shorter, der, id);
            let i = choose|i: int|
                0 <= i < shorter.len() && (#[trigger] shorter[i]).id@ == id
                    && storage::unwrapped_org_key(shorter[i].key@, der) == Ok::<
                    (Seq<u8>, Seq<u8>),
                    Seq<char>,
                >(vault::organization_keys(shorter, der).0[id]);
            assert(orgs[i].id@ == id);
        }
    }
}

/// A wrapped organization key, `type.data`, is unwrapped by RSA-OAEP with the digest of its type:
/// SHA-256 for three and five, SHA-1 for four and six. It has 64 bytes: its first half encrypts, its
/// second half authenticates.
pub proof fn organization_keys_are_unwrapped_by_rsa(
    head: Seq<char>,
    kind: nat,
    data: Seq<char>,
    ciphertext: Seq<u8>,
    der: Seq<u8>,
    enc: Seq<u8>,
    mac: Seq<u8>,
)
    requires
        super::crypto::is_head(head, kind),
        super::crypto::is_part(data),
        primitives::base64_decoded(data) == Ok::<Seq<u8>, Seq<char>>(ciphertext),
        primitives::rsa_key_fault(der) is None,
        primitives::rsa_prime_bits(der).1 <= primitives::rsa_prime_bits(der).0 + 16,
        enc.len() == 32,
        mac.len() == 32,
    ensures
        ({
            let unwrapped = storage::unwrapped_org_key(head + seq!['.'] + data, der);
            let keys = Ok::<(Seq<u8>, Seq<u8>), Seq<char>>((enc, mac));
            let bytes = Ok::<Seq<u8>, Seq<char>>(enc + mac);
            &&& (kind == 3 || kind == 5) && primitives::rsa_oaep_sha256(der, ciphertext) == bytes
                ==> unwrapped == keys
            &&& (kind == 4 || kind == 6) && primitives::rsa_oaep_sha1(der, ciphertext) == bytes
                ==> unwrapped == keys
            &&& kind < 3 || kind > 6 ==> unwrapped is Err
        }),
{
    text::splitting_is_local(head, data, '.');
    text::unseparated_texts_are_whole(head, '.');
    text::unseparated_texts_are_whole(data, '.');
    assert(seq![head] + seq![data] =~= seq![head, data]);
    text::unseparated_texts_are_whole(data, '|');
    assert((enc + mac).subrange(0, 32) =~= enc);
    assert((enc + mac).subrange(32, 64) =~= mac);
}

/// The vault is opened with the keys of its organizations, which the user's RSA key unwraps, which
/// in turn the user's keys open: each item that opens so is listed.
pub proof fn the_vault_is_opened_with_the_keys_of_its_organizations(
    sync: SyncResponse,
    user: (Seq<u8>, Seq<u8>),
    private_key: String,
    der: Seq<u8>,
    orgs: Vec<OrganizationSync>,
)
    requires
        sync.profile.private_key == Some(private_key),
        crypto::cipher_plaintext(private_key@, user.0, user.1) == Ok::<Seq<u8>, Seq<char>>(der),
        sync.profile.organizations == Some(orgs),
    ensures
        vault::opened_vault(sync, user).0 == vault::vault_items(
            sync.ciphers@,
            user,
            vault::organization_keys(orgs@, der).0,
        ).0,
{
}

/// Without an RSA key, with one that does not open, or without organizations, the items of the user
/// are opened all the same.
pub proof fn the_items_of_the_user_are_opened_all_the_same(
    sync: SyncResponse,
    user: (Seq<u8>, Seq<u8>),
)
    requires
        sync.profile.organizations is None || sync.profile.private_key is None || (
        sync.profile.private_key matches Some(key) && crypto::cipher_plaintext(
            key@,
            user.0,
            user.1,
        ) is Err),
    ensures
        vault::opened_vault(sync, user).0 == vault::vault_items(
            sync.ciphers@,
            user,
            Map::empty(),
        ).0,
{
}

// ---------------------------------------------------------------------------
// Unlocking from the cache
// ---------------------------------------------------------------------------
/// A cached vault is unlocked by the password with the settings and the salt that were cached with
/// it: the key that they derive unwraps the user's key of the profile.
pub proof fn the_cached_settings_unlock_the_cache(
    sync: SyncResponse,
    password: Seq<char>,
    unlock: crate::api::MasterPasswordUnlockSync,
    options: crate::api::UserDecryptionSync,
    master_key: Seq<u8>,
)
    requires
        sync.user_decryption == Some(options),
        options.master_password_unlock == Some(unlock),
        crypto::master_key(
            password,
            unlock.salt@,
            unlock.kdf.kdf_type,
            unlock.kdf.iterations,
            unlock.kdf.memory,
            unlock.kdf.parallelism,
        ) == Ok::<Seq<u8>, Seq<char>>(master_key),
    ensures
        vault::offline_keys(sync, password) == crypto::symmetric_key(
            master_key,
            sync.profile.key@,
        ),
{
}

/// Without cached settings, or with settings that derive no key, the cache stays locked.
pub proof fn without_settings_the_cache_stays_locked(sync: SyncResponse, password: Seq<char>)
    requires
        match sync.user_decryption {
            None => true,
            Some(options) => match options.master_password_unlock {
                None => true,
                Some(unlock) => crypto::master_key(
                    password,
                    unlock.salt@,
                    unlock.kdf.kdf_type,
                    unlock.kdf.iterations,
                    unlock.kdf.memory,
                    unlock.kdf.parallelism,
                ) is Err,
            },
        },
    ensures
        vault::offline_keys(sync, password) is Err,
{
}

// ---------------------------------------------------------------------------
// SSH keys
// ---------------------------------------------------------------------------
/// A text between the markers of a PEM private key.
pub open spec fn is_pem(s: Seq<char>) -> bool {
    exists|a: Seq<char>, b: Seq<char>, c: Seq<char>, d: Seq<char>|
        s == #[trigger] (a + "-----BEGIN"@ + b) && s == #[trigger] (c + "PRIVATE KEY-----"@ + d)
}

/// A text holds a private key exactly where both markers of one stand in it.
pub proof fn private_keys_are_known_by_their_markers(s: Seq<char>)
    ensures
        vault::holds_private_key(s) <==> is_pem(s),
{
    if vault::holds_private_key(s) {
        let i = choose|i: int| text::found_at(s, "-----BEGIN"@, i);
        let j = choose|j: int| text::found_at(s, "PRIVATE KEY-----"@, j);
        super::text::found_texts_stand_there(s, "-----BEGIN"@, i);
        super::text::found_texts_stand_there(s, "PRIVATE KEY-----"@, j);
        let (a, b) = (s.take(i), s.skip(i + "-----BEGIN"@.len()));
        let (c, d) = (s.take(j), s.skip(j + "PRIVATE KEY-----"@.len()));
        assert(s == a + "-----BEGIN"@ + b && s == c + "PRIVATE KEY-----"@ + d);
    }
    if is_pem(s) {
        let (a, b, c, d) = choose|a: Seq<char>, b: Seq<char>, c: Seq<char>, d: Seq<char>|
            s == #[trigger] (a + "-----BEGIN"@ + b) && s == #[trigger] (c + "PRIVATE KEY-----"@
                + d);
        super::text::texts_are_found_where_they_stand(a, "-----BEGIN"@, b);
        super::text::texts_are_found_where_they_stand(c, "PRIVATE KEY-----"@, d);
    }
}

/// Whether an item has a private key in its own key part.
pub open spec fn has_own_key(item: storage::ItemTexts) -> bool {
    item.ssh_key matches Some(key) && (key.private_key matches Some(private_key) && is_pem(
        private_key,
    ))
}

/// The names under which a field is looked at for an SSH key, in any case: `ssh_private_key`,
/// `ssh-private-key`, and every name with `ssh_key` in it.
pub open spec fn is_key_field(name: Seq<char>) -> bool {
    let lowered = text::lowercase(name);
    ||| lowered == "ssh_private_key"@
    ||| lowered == "ssh-private-key"@
    ||| exists|a: Seq<char>, b: Seq<char>| lowered == #[trigger] (a + "ssh_key"@ + b)
}

/// Fields with these names are looked at for an SSH key, and no others.
pub proof fn key_fields_are_known_by_their_names(name: Seq<char>)
    ensures
        vault::names_ssh_key(name) <==> is_key_field(name),
{
    let lowered = text::lowercase(name);
    if text::has_text(lowered, "ssh_key"@) {
        let i = choose|i: int| text::found_at(lowered, "ssh_key"@, i);
        super::text::found_texts_stand_there(lowered, "ssh_key"@, i);
        let (a, b) = (lowered.take(i), lowered.skip(i + "ssh_key"@.len()));
        assert(lowered == a + "ssh_key"@ + b);
    }
    if exists|a: Seq<char>, b: Seq<char>| lowered == #[trigger] (a + "ssh_key"@ + b) {
        let (a, b) = choose|a: Seq<char>, b: Seq<char>| lowered == #[trigger] (a + "ssh_key"@ + b);
        super::text::texts_are_found_where_they_stand(a, "ssh_key"@, b);
    }
}

proof fn lemma_item_among(items: Seq<storage::ItemTexts>, i: int, key: storage::KeyTexts)
    requires
        0 <= i < items.len(),
        vault::item_ssh_keys(items[i]).contains(key),
    ensures
        vault::all_ssh_keys(items).contains(key),
    decreases items.len(),
{
    let all = vault::all_ssh_keys(items);
    let before = vault::all_ssh_keys(items.drop_last());
    if i == items.len() - 1 {
        let own = vault::item_ssh_keys(items[i]);
        let j = choose|j: int| 0 <= j < own.len() && own[j] == key;
        assert(all[before.len() + j] == key);
    } else {
        assert(items.drop_last()[i] == items[i]);
        lemma_item_among(items.drop_last(), i, key);
        let j = choose|j: int| 0 <= j < before.len() && before[j] == key;
        assert(all[j] == key);
    }
}

proof fn lemma_field_among(
    item: storage::ItemTexts,
    fields: Seq<storage::FieldTexts>,
    i: int,
    key: storage::KeyTexts,
)
    requires
        0 <= i < fields.len(),
        vault::field_key(item, fields[i]) == Some(key),
    ensures
        vault::field_keys(item, fields).contains(key),
    decreases fields.len(),
{
    let all = vault::field_keys(item, fields);
    let before = vault::field_keys(item, fields.drop_last());
    if i == fields.len() - 1 {
        assert(all[all.len() - 1] == key);
    } else {
        assert(fields.drop_last()[i] == fields[i]);
        lemma_field_among(item, fields.drop_last(), i, key);
        let j = choose|j: int| 0 <= j < before.len() && before[j] == key;
        assert(all[j] == key);
    }
}

/// An item with a private key in its own key part yields that key, under the name of the item, and
/// nothing else.
pub proof fn key_items_yield_their_key(
    items: Seq<storage::ItemTexts>,
    i: int,
    key: storage::SshKeyTexts,
    private_key: Seq<char>,
)
    requires
        0 <= i < items.len(),
        items[i].ssh_key == Some(key),
        key.private_key == Some(private_key),
        is_pem(private_key),
    ensures
        ({
            let found = storage::KeyTexts {
                id: items[i].id,
                name: items[i].name,
                private_key,
                public_key: key.public_key,
                note: items[i].notes,
            };
            &&& vault::item_ssh_keys(items[i]) == seq![found]
            &&& vault::all_ssh_keys(items).contains(found)
        }),
{
    private_keys_are_known_by_their_markers(private_key);
    let found = vault::item_ssh_keys(items[i])[0];
    assert(vault::item_ssh_keys(items[i]).contains(found));
    lemma_item_among(items, i, found);
}

/// An item without a key of its own, with a field of such a name that holds a private key, yields
/// that key, under the names of the item and the field.
pub proof fn key_fields_yield_their_key(
    items: Seq<storage::ItemTexts>,
    i: int,
    fields: Seq<storage::FieldTexts>,
    f: int,
    value: Seq<char>,
)
    requires
        0 <= i < items.len(),
        !has_own_key(items[i]),
        items[i].fields == Some(fields),
        0 <= f < fields.len(),
        is_key_field(fields[f].name),
        fields[f].value == Some(value),
        is_pem(value),
    ensures
        vault::all_ssh_keys(items).contains(
            (storage::KeyTexts {
                id: items[i].id,
                name: items[i].name + " ("@ + fields[f].name + ")"@,
                private_key: value,
                public_key: None,
                note: items[i].notes,
            }),
        ),
{
    let item = items[i];
    key_fields_are_known_by_their_names(fields[f].name);
    private_keys_are_known_by_their_markers(value);
    lemma_no_own_key(item);
    let key = vault::field_key(item, fields[f]).unwrap();
    lemma_field_among(item, fields, f, key);
    let of_fields = vault::field_keys(item, fields);
    let j = choose|j: int| 0 <= j < of_fields.len() && of_fields[j] == key;
    assert(vault::item_ssh_keys(item)[j] == key);
    lemma_item_among(items, i, key);
}

/// A secure note without a key of its own whose body holds a private key yields that key.
pub proof fn notes_yield_their_key(items: Seq<storage::ItemTexts>, i: int, notes: Seq<char>)
    requires
        0 <= i < items.len(),
        !has_own_key(items[i]),
        items[i].kind == 2,
        items[i].notes == Some(notes),
        is_pem(notes),
    ensures
        vault::all_ssh_keys(items).contains(
            (storage::KeyTexts {
                id: items[i].id,
                name: items[i].name,
                private_key: notes,
                public_key: None,
                note: Some("Extracted from secure note text body"@),
            }),
        ),
{
    let item = items[i];
    private_keys_are_known_by_their_markers(notes);
    lemma_no_own_key(item);
    let all = vault::item_ssh_keys(item);
    let key = vault::note_key(item)[0];
    assert(all[all.len() - 1] == key);
    assert(all.contains(key));
    lemma_item_among(items, i, key);
}

proof fn lemma_no_own_key(item: storage::ItemTexts)
    requires
        !has_own_key(item),
    ensures
        vault::native_key(item) is None,
{
    if let Some(key) = item.ssh_key {
        if let Some(private_key) = key.private_key {
            private_keys_are_known_by_their_markers(private_key);
        }
    }
}

/// An item yields nothing beside these: without a key of its own, what it yields is the value of
/// one of its fields with such a name, or the body of a secure note.
pub proof fn nothing_else_yields_a_key(item: storage::ItemTexts, k: int)
    requires
        !has_own_key(item),
        0 <= k < vault::item_ssh_keys(item).len(),
    ensures
        ({
            let key = vault::item_ssh_keys(item)[k];
            ||| item.kind == 2 && item.notes == Some(key.private_key)
            ||| item.fields matches Some(fields) && exists|f: int|
                0 <= f < fields.len() && is_key_field((#[trigger] fields[f]).name)
                    && fields[f].value == Some(key.private_key)
        }),
{
    lemma_no_own_key(item);
    if let Some(fields) = item.fields {
        if k < vault::field_keys(item, fields).len() {
            lemma_from_field(item, fields, k);
        }
    }
}

proof fn lemma_from_field(item: storage::ItemTexts, fields: Seq<storage::FieldTexts>, k: int)
    requires
        0 <= k < vault::field_keys(item, fields).len(),
    ensures
        exists|f: int|
            0 <= f < fields.len() && is_key_field((#[trigger] fields[f]).name) && fields[f].value
                == Some(vault::field_keys(item, fields)[k].private_key),
    decreases fields.len(),
{
    let shorter = fields.drop_last();
    let before = vault::field_keys(item, shorter);
    if k < before.len() {
        lemma_from_field(item, shorter, k);
        let f = choose|f: int|
            0 <= f < shorter.len() && is_key_field((#[trigger] shorter[f]).name)
                && shorter[f].value == Some(before[k].private_key);
        assert(fields[f] == shorter[f]);
    } else {
        let last = fields.len() - 1;
        key_fields_are_known_by_their_names(fields[last].name);
        assert(fields[last].value is Some);
    }
}

/// The keys of two lists of items are those of the first and then those of the second.
pub proof fn keys_of_items_are_independent(
    first: Seq<storage::ItemTexts>,
    second: Seq<storage::ItemTexts>,
)
    ensures
        vault::all_ssh_keys(first + second) == vault::all_ssh_keys(first) + vault::all_ssh_keys(
            second,
        ),
    decreases second.len(),
{
    if second.len() == 0 {
        assert(first + second =~= first);
    } else {
        assert((first + second).drop_last() =~= first + second.drop_last());
        keys_of_items_are_independent(first, second.drop_last());
    }
    assert(vault::all_ssh_keys(first + second) =~= vault::all_ssh_keys(first)
        + vault::all_ssh_keys(second));
}

/// The SSH keys of a vault are those of the items that its keys open.
pub proof fn the_ssh_keys_of_a_vault_are_those_of_its_items(
    sync: SyncResponse,
    user: (Seq<u8>, Seq<u8>),
)
    ensures
        vault::vault_ssh_keys(sync, user) == vault::all_ssh_keys(
            vault::opened_vault(sync, user).0,
        ),
{
}

/// A file in a directory lies behind one slash, whether the directory is written with one or not;
/// where no directory is named, the file stands alone.
pub proof fn files_lie_in_their_directory(dir: Seq<char>, name: Seq<char>)
    requires
        dir.len() > 0,
        dir.last() != '/',
    ensures
        storage::file_in(dir, name) == dir + seq!['/'] + name,
        storage::file_in(dir + seq!['/'], name) == dir + seq!['/'] + name,
        storage::file_in(Seq::empty(), name) == name,
{
    assert(Seq::<char>::empty() + name =~= name);
    reveal_strlit("/");
    assert("/"@ =~= seq!['/']);
}

/// Items are listed in the order of the vault, each once.
pub proof fn items_are_listed_in_the_order_of_the_vault(
    ciphers: Seq<CipherSync>,
    cipher: CipherSync,
    user: (Seq<u8>, Seq<u8>),
    orgs: Map<Seq<char>, (Seq<u8>, Seq<u8>)>,
)
    ensures
        ({
            let before = vault::vault_items(ciphers, user, orgs).0;
            let after = vault::vault_items(ciphers.push(cipher), user, orgs).0;
            match storage::decrypted_cipher(cipher, user, orgs) {
                Ok(Some(item)) => after == before.push(item),
                _ => after == before,
            }
        }),
        vault::vault_items(Seq::empty(), user, orgs).0.len() == 0,
        vault::vault_items(Seq::empty(), user, orgs).1.len() == 0,
{
    assert(ciphers.push(cipher).drop_last() =~= ciphers);
}

/// The warnings of a vault are those on the user's RSA key, on the keys of the organizations and on
/// the items, in that order.
pub proof fn warnings_come_in_order(
    sync: SyncResponse,
    user: (Seq<u8>, Seq<u8>),
    private_key: String,
    der: Seq<u8>,
    orgs: Vec<OrganizationSync>,
    e: Seq<char>,
)
    requires
        sync.profile.private_key == Some(private_key),
        sync.profile.organizations == Some(orgs),
    ensures
        crypto::cipher_plaintext(private_key@, user.0, user.1) == Ok::<Seq<u8>, Seq<char>>(der)
            ==> vault::opened_vault(sync, user).1 == vault::organization_keys(orgs@, der).1
            + vault::vault_items(
            sync.ciphers@,
            user,
            vault::organization_keys(orgs@, der).0,
        ).1,
        crypto::cipher_plaintext(private_key@, user.0, user.1) == Err::<Seq<u8>, Seq<char>>(e)
            ==> vault::opened_vault(sync, user).1 == seq![
            "Warning: Failed to decrypt user RSA private key: "@ + e,
        ] + vault::vault_items(sync.ciphers@, user, Map::empty()).1,
{
    let none = Seq::<Seq<char>>::empty();
    let warnings = vault::organization_keys(orgs@, der).1;
    assert(none + warnings =~= warnings);
    let one = seq!["Warning: Failed to decrypt user RSA private key: "@ + e];
    assert(one + none =~= one);
}

/// Of a wrapped organization key only the first part behind the type counts.
pub proof fn more_parts_of_an_organization_key_do_not_matter(
    head: Seq<char>,
    data: Seq<char>,
    more: Seq<char>,
    rest: Seq<char>,
    der: Seq<u8>,
)
    requires
        !head.contains('.'),
        super::crypto::is_part(data),
        !more.contains('.'),
    ensures
        storage::unwrapped_org_key(head + seq!['.'] + (data + seq!['|'] + more), der)
            == storage::unwrapped_org_key(head + seq!['.'] + data, der),
        storage::unwrapped_org_key(head + seq!['.'] + data + seq!['.'] + rest, der)
            == storage::unwrapped_org_key(head + seq!['.'] + data, der),
{
    let long = data + seq!['|'] + more;
    assert forall|i: int| 0 <= i < long.len() implies long[i] != '.' by {
        if i < data.len() {
            assert(data.contains(data[i]));
        } else if i > data.len() {
            assert(more.contains(more[i - data.len() - 1]));
        }
    }
    text::unseparated_texts_are_whole(head, '.');
    text::unseparated_texts_are_whole(data, '.');
    text::unseparated_texts_are_whole(long, '.');
    text::splitting_is_local(head, data, '.');
    text::splitting_is_local(head, long, '.');
    text::splitting_is_local(head + seq!['.'] + data, rest, '.');
    text::unseparated_texts_are_whole(data, '|');
    text::splitting_is_local(data, more, '|');
    assert((seq![data] + text::split_on(more, '|'))[0] == data);
    assert((seq![head] + seq![data] + text::split_on(rest, '.'))[1] == data);
    assert((seq![head] + seq![data] + text::split_on(rest, '.'))[0] == head);
}

} // verus!
