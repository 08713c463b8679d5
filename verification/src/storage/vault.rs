//! Decryption of a whole vault, and the SSH keys that its items hold.
use vstd::prelude::*;
use vstd::string::*;

use super::{
    decrypt_org_key, decrypt_single_cipher, CipherItem, DecryptedField, Keys, OrgKeys, SshKeyItem,
};
use crate::api::{
    CipherSync, MasterPasswordUnlockSync, OrganizationSync, ProfileSync, SyncResponse,
};
use crate::config;
use crate::crypto;
use crate::number;
use crate::text;

verus! {

// ---------------------------------------------------------------------------
// The whole vault
// ---------------------------------------------------------------------------
/// The user's RSA private key, and the warning where it cannot be decrypted.
pub open spec fn user_rsa_key(
    private_key: Option<Seq<char>>,
    plain: Result<Seq<u8>, Seq<char>>,
) -> (Option<Seq<u8>>, Seq<Seq<char>>) {
    match (private_key, plain) {
        (None, _) => (None, Seq::empty()),
        (Some(_), Ok(der)) => (Some(der), Seq::empty()),
        (Some(_), Err(e)) => (
            None,
            seq!["Warning: Failed to decrypt user RSA private key: "@ + e],
        ),
    }
}

/// The keys of the organizations, and a warning for each that cannot be unwrapped.
pub open spec fn organization_keys(orgs: Seq<OrganizationSync>, der: Seq<u8>) -> (
    Map<Seq<char>, (Seq<u8>, Seq<u8>)>,
    Seq<Seq<char>>,
)
    decreases orgs.len(),
{
    if orgs.len() == 0 {
        (Map::empty(), Seq::empty())
    } else {
        let (keys, warnings) = organization_keys(orgs.drop_last(), der);
        let org = orgs.last();
        match super::unwrapped_org_key(org.key@, der) {
            Ok(pair) => (keys.insert(org.id@, pair), warnings),
            Err(e) => (
                keys,
                warnings.push(
                    "Warning: Failed to decrypt organization key for "@ + org.id@ + ": "@ + e,
                ),
            ),
        }
    }
}

/// The organization keys that a profile gives access to: none without the RSA key.
pub open spec fn profile_keys(orgs: Option<Vec<OrganizationSync>>, der: Option<Seq<u8>>) -> (
    Map<Seq<char>, (Seq<u8>, Seq<u8>)>,
    Seq<Seq<char>>,
) {
    match (orgs, der) {
        (Some(orgs), Some(der)) => organization_keys(orgs@, der),
        _ => (Map::empty(), Seq::empty()),
    }
}

/// The decrypted items, and a warning for each item that cannot be decrypted.
pub open spec fn vault_items(
    ciphers: Seq<CipherSync>,
    user: (Seq<u8>, Seq<u8>),
    orgs: Map<Seq<char>, (Seq<u8>, Seq<u8>)>,
) -> (Seq<super::ItemTexts>, Seq<Seq<char>>)
    decreases ciphers.len(),
{
    if ciphers.len() == 0 {
        (Seq::empty(), Seq::empty())
    } else {
        let (items, warnings) = vault_items(ciphers.drop_last(), user, orgs);
        let cipher = ciphers.last();
        match super::decrypted_cipher(cipher, user, orgs) {
            Ok(Some(item)) => (items.push(item), warnings),
            Ok(None) => (items, warnings),
            Err(e) => (
                items,
                warnings.push(
                    "Warning: Skipping cipher ID "@ + cipher.id@ + " due to error: "@ + e,
                ),
            ),
        }
    }
}

/// Everything that the user's keys open in a vault: the items, and the warnings on the way.
pub open spec fn opened_vault(sync: SyncResponse, user: (Seq<u8>, Seq<u8>)) -> (
    Seq<super::ItemTexts>,
    Seq<Seq<char>>,
) {
    let (der, rsa_warnings) = rsa_of_profile(sync.profile, user);
    let (orgs, org_warnings) = profile_keys(sync.profile.organizations, der);
    let (items, warnings) = vault_items(sync.ciphers@, user, orgs);
    (items, rsa_warnings + org_warnings + warnings)
}

/// The RSA private key of a profile.
pub open spec fn rsa_of_profile(profile: ProfileSync, user: (Seq<u8>, Seq<u8>)) -> (
    Option<Seq<u8>>,
    Seq<Seq<char>>,
) {
    match profile.private_key {
        None => (None, Seq::empty()),
        Some(key) => user_rsa_key(Some(key@), crypto::cipher_plaintext(key@, user.0, user.1)),
    }
}

/// The user's RSA private key, given what decrypting it gave.
pub fn accept_rsa_key(plain: Result<Vec<u8>, String>, warnings: &mut Vec<String>) -> (r: Option<
    Vec<u8>,
>)
    ensures
        ({
            let (der, added) = user_rsa_key(Some(Seq::empty()), text::result_view(plain));
            &&& super::part_view(r) == der
            &&& super::seq_view(final(warnings)@) == super::seq_view(old(warnings)@) + added
        }),
{
    match plain {
        Ok(der) => {
            assert(super::seq_view(warnings@) =~= super::seq_view(old(warnings)@)
                + Seq::<Seq<char>>::empty());
            Some(der)
        },
        Err(e) => {
            let warning = text::join2("Warning: Failed to decrypt user RSA private key: ", &e);
            warnings.push(warning);
            assert(super::seq_view(warnings@) =~= super::seq_view(old(warnings)@)
                + seq![warning@]);
            None
        },
    }
}

/// Unwraps the keys of the organizations, with a warning for each that cannot be.
pub fn unwrap_organization_keys(
    orgs: &[OrganizationSync],
    der: &[u8],
    warnings: &mut Vec<String>,
) -> (r: OrgKeys)
    ensures
        r@ == organization_keys(orgs@, der@).0,
        super::seq_view(final(warnings)@) == super::seq_view(old(warnings)@) + organization_keys(
            orgs@,
            der@,
        ).1,
{
    let mut keys = OrgKeys::new();
    assert(super::seq_view(warnings@) =~= super::seq_view(old(warnings)@) + Seq::<
        Seq<char>,
    >::empty());
    assert(orgs@.take(0) =~= Seq::<OrganizationSync>::empty());
    for i in 0..orgs.len()
        invariant
            keys@ == organization_keys(orgs@.take(i as int), der@).0,
            super::seq_view(warnings@) == super::seq_view(old(warnings)@) + organization_keys(
                orgs@.take(i as int),
                der@,
            ).1,
    {
        let org = &orgs[i];
        assert(orgs@.take(i + 1).drop_last() == orgs@.take(i as int));
        let ghost before = warnings@;
        match decrypt_org_key(&org.key, der) {
            Ok(pair) => {
                keys.insert(&org.id, pair);
            },
            Err(e) => {
                let mut warning = text::join3(
                    "Warning: Failed to decrypt organization key for ",
                    &org.id,
                    ": ",
                );
                warning.append(&e);
                warnings.push(warning);
                assert(super::seq_view(warnings@) =~= super::seq_view(before).push(warning@));
                assert(super::seq_view(warnings@) =~= super::seq_view(old(warnings)@)
                    + organization_keys(orgs@.take(i + 1), der@).1);
            },
        }
    }
    assert(orgs@.take(orgs@.len() as int) == orgs@);
    keys
}

/// Decrypts the items, with a warning for each that cannot be.
pub fn decrypt_items(
    ciphers: &[CipherSync],
    user: &Keys,
    orgs: &OrgKeys,
    warnings: &mut Vec<String>,
) -> (r: Vec<CipherItem>)
    ensures
        super::seq_view(r@) == vault_items(ciphers@, crypto::keys_view(*user), orgs@).0,
        super::seq_view(final(warnings)@) == super::seq_view(old(warnings)@) + vault_items(
            ciphers@,
            crypto::keys_view(*user),
            orgs@,
        ).1,
{
    let mut items: Vec<CipherItem> = Vec::new();
    let ghost keys = crypto::keys_view(*user);
    assert(super::seq_view(items@) =~= Seq::<super::ItemTexts>::empty());
    assert(super::seq_view(warnings@) =~= super::seq_view(old(warnings)@) + Seq::<
        Seq<char>,
    >::empty());
    assert(ciphers@.take(0) =~= Seq::<CipherSync>::empty());
    for i in 0..ciphers.len()
        invariant
            keys == crypto::keys_view(*user),
            super::seq_view(items@) == vault_items(ciphers@.take(i as int), keys, orgs@).0,
            super::seq_view(warnings@) == super::seq_view(old(warnings)@) + vault_items(
                ciphers@.take(i as int),
                keys,
                orgs@,
            ).1,
    {
        let cipher = &ciphers[i];
        assert(ciphers@.take(i + 1).drop_last() == ciphers@.take(i as int));
        let ghost before = warnings@;
        match decrypt_single_cipher(cipher, user, orgs, &mut items) {
            Ok(_) => {},
            Err(e) => {
                let mut warning = text::join3(
                    "Warning: Skipping cipher ID ",
                    &cipher.id,
                    " due to error: ",
                );
                warning.append(&e);
                warnings.push(warning);
                assert(super::seq_view(warnings@) =~= super::seq_view(before).push(warning@));
                assert(super::seq_view(warnings@) =~= super::seq_view(old(warnings)@)
                    + vault_items(ciphers@.take(i + 1), keys, orgs@).1);
            },
        }
    }
    assert(ciphers@.take(ciphers@.len() as int) == ciphers@);
    items
}

/// Decrypts every item of the vault that the user's keys open, and hands out the warnings for
/// the rest.
pub fn decrypt_vault(sync: &SyncResponse, enc_key: &[u8; 32], mac_key: &[u8; 32]) -> (r: (
    Vec<CipherItem>,
    Vec<String>,
))
    ensures
        super::seq_view(r.0@) == opened_vault(*sync, (enc_key@, mac_key@)).0,
        super::seq_view(r.1@) == opened_vault(*sync, (enc_key@, mac_key@)).1,
{
    let user: Keys = (*enc_key, *mac_key);
    let ghost keys = crypto::keys_view(user);
    let mut warnings: Vec<String> = Vec::new();
    assert(super::seq_view(warnings@) =~= Seq::<Seq<char>>::empty());
    let der = match &sync.profile.private_key {
        None => None,
        Some(key) => accept_rsa_key(
            crypto::decrypt_cipher_string(key, enc_key, mac_key),
            &mut warnings,
        ),
    };
    let ghost rsa_warnings = rsa_of_profile(sync.profile, keys).1;
    assert(super::seq_view(warnings@) =~= rsa_warnings);
    let orgs = match (&sync.profile.organizations, &der) {
        (Some(orgs), Some(der)) => unwrap_organization_keys(orgs, der, &mut warnings),
        _ => OrgKeys::new(),
    };
    let ghost org_warnings = profile_keys(
        sync.profile.organizations,
        rsa_of_profile(sync.profile, keys).0,
    ).1;
    assert(super::seq_view(warnings@) =~= rsa_warnings + org_warnings);
    let items = decrypt_items(&sync.ciphers, &user, &orgs, &mut warnings);
    (items, warnings)
}

/// Decrypts every item of the vault that the user's keys open.
pub fn parse_and_decrypt_all_ciphers(
    sync_response: &SyncResponse,
    enc_key: &[u8; 32],
    mac_key: &[u8; 32],
) -> (r: Vec<CipherItem>)
    ensures
        super::seq_view(r@) == opened_vault(*sync_response, (enc_key@, mac_key@)).0,
{
    decrypt_vault(sync_response, enc_key, mac_key).0
}

/// Items are decrypted one by one: those of two lists, one behind the other, are those of the
/// first and then those of the second. No item keeps another from being decrypted.
pub proof fn items_are_independent(
    first: Seq<CipherSync>,
    second: Seq<CipherSync>,
    user: (Seq<u8>, Seq<u8>),
    orgs: Map<Seq<char>, (Seq<u8>, Seq<u8>)>,
)
    ensures
        vault_items(first + second, user, orgs).0 == vault_items(first, user, orgs).0 + vault_items(
            second,
            user,
            orgs,
        ).0,
        vault_items(first + second, user, orgs).1 == vault_items(first, user, orgs).1 + vault_items(
            second,
            user,
            orgs,
        ).1,
    decreases second.len(),
{
    if second.len() == 0 {
        assert(first + second =~= first);
    } else {
        assert((first + second).drop_last() =~= first + second.drop_last());
        items_are_independent(first, second.drop_last(), user, orgs);
    }
    assert(vault_items(first + second, user, orgs).0 =~= vault_items(first, user, orgs).0
        + vault_items(second, user, orgs).0);
    assert(vault_items(first + second, user, orgs).1 =~= vault_items(first, user, orgs).1
        + vault_items(second, user, orgs).1);
}

/// Each decrypted item is that of an item in the vault that was not deleted.
pub proof fn items_come_from_the_vault(
    ciphers: Seq<CipherSync>,
    user: (Seq<u8>, Seq<u8>),
    orgs: Map<Seq<char>, (Seq<u8>, Seq<u8>)>,
    i: int,
)
    requires
        0 <= i < vault_items(ciphers, user, orgs).0.len(),
    ensures
        exists|j: int|
            #![trigger ciphers[j]]
            {
                &&& 0 <= j < ciphers.len()
                &&& ciphers[j].deleted_date is None
                &&& ciphers[j].id@ == vault_items(ciphers, user, orgs).0[i].id
                &&& super::decrypted_cipher(ciphers[j], user, orgs) == Ok::<
                    Option<super::ItemTexts>,
                    Seq<char>,
                >(Some(vault_items(ciphers, user, orgs).0[i]))
            },
    decreases ciphers.len(),
{
    if ciphers.len() > 0 {
        let shorter = ciphers.drop_last();
        if i < vault_items(shorter, user, orgs).0.len() {
            items_come_from_the_vault(shorter, user, orgs, i);
            let j = choose|j: int|
                #![trigger shorter[j]]
                {
                    &&& 0 <= j < shorter.len()
                    &&& shorter[j].deleted_date is None
                    &&& shorter[j].id@ == vault_items(shorter, user, orgs).0[i].id
                    &&& super::decrypted_cipher(shorter[j], user, orgs) == Ok::<
                        Option<super::ItemTexts>,
                        Seq<char>,
                    >(Some(vault_items(shorter, user, orgs).0[i]))
                };
            assert(ciphers[j] == shorter[j]);
        } else {
            assert(ciphers[ciphers.len() - 1] == ciphers.last());
        }
    }
}

// ---------------------------------------------------------------------------
// SSH keys
// ---------------------------------------------------------------------------
/// Whether a text holds a private key between PEM markers.
pub open spec fn holds_private_key(s: Seq<char>) -> bool {
    text::has_text(s, "-----BEGIN"@) && text::has_text(s, "PRIVATE KEY-----"@)
}

/// Whether a text holds a private key between PEM markers.
pub fn is_ssh_private_key(s: &str) -> (r: bool)
    ensures
        r == holds_private_key(s@),
{
    text::contains(s, "-----BEGIN") && text::contains(s, "PRIVATE KEY-----")
}

/// Whether a field of this name may hold an SSH key.
pub open spec fn names_ssh_key(name: Seq<char>) -> bool {
    let lowered = text::lowercase(name);
    ||| lowered == "ssh_private_key"@
    ||| lowered == "ssh-private-key"@
    ||| text::has_text(lowered, "ssh_key"@)
}

/// The SSH key in the item's own key part.
pub open spec fn native_key(item: super::ItemTexts) -> Option<super::KeyTexts> {
    match item.ssh_key {
        Some(key) => match key.private_key {
            Some(private_key) => if holds_private_key(private_key) {
                Some(
                    super::KeyTexts {
                        id: item.id,
                        name: item.name,
                        private_key,
                        public_key: key.public_key,
                        note: item.notes,
                    },
                )
            } else {
                None
            },
            None => None,
        },
        None => None,
    }
}

/// The SSH key in one field of an item.
pub open spec fn field_key(item: super::ItemTexts, field: super::FieldTexts) -> Option<
    super::KeyTexts,
> {
    match field.value {
        Some(value) => if names_ssh_key(field.name) && holds_private_key(value) {
            Some(
                super::KeyTexts {
                    id: item.id,
                    name: item.name + " ("@ + field.name + ")"@,
                    private_key: value,
                    public_key: None,
                    note: item.notes,
                },
            )
        } else {
            None
        },
        None => None,
    }
}

/// The SSH keys in the fields of an item.
pub open spec fn field_keys(item: super::ItemTexts, fields: Seq<super::FieldTexts>) -> Seq<
    super::KeyTexts,
>
    decreases fields.len(),
{
    if fields.len() == 0 {
        Seq::empty()
    } else {
        let before = field_keys(item, fields.drop_last());
        match field_key(item, fields.last()) {
            Some(key) => before.push(key),
            None => before,
        }
    }
}

/// The SSH key in the body of a secure note.
pub open spec fn note_key(item: super::ItemTexts) -> Seq<super::KeyTexts> {
    match item.notes {
        Some(notes) => if item.kind == 2 && holds_private_key(notes) {
            seq![
                super::KeyTexts {
                    id: item.id,
                    name: item.name,
                    private_key: notes,
                    public_key: None,
                    note: Some("Extracted from secure note text body"@),
                },
            ]
        } else {
            Seq::empty()
        },
        None => Seq::empty(),
    }
}

/// The SSH keys of one item: its own key part if that holds one, otherwise those in its fields
/// and then the one in its note.
pub open spec fn item_ssh_keys(item: super::ItemTexts) -> Seq<super::KeyTexts> {
    match native_key(item) {
        Some(key) => seq![key],
        None => (match item.fields {
            Some(fields) => field_keys(item, fields),
            None => Seq::empty(),
        }) + note_key(item),
    }
}

/// The SSH keys of all items, in order.
pub open spec fn all_ssh_keys(items: Seq<super::ItemTexts>) -> Seq<super::KeyTexts>
    decreases items.len(),
{
    if items.len() == 0 {
        Seq::empty()
    } else {
        all_ssh_keys(items.drop_last()) + item_ssh_keys(items.last())
    }
}

/// Whether a field of this name may hold an SSH key.
fn is_ssh_key_name(name: &str) -> (r: bool)
    ensures
        r == names_ssh_key(name@),
{
    let lowered = name.to_lowercase();
    text::same(&lowered, "ssh_private_key") || text::same(&lowered, "ssh-private-key")
        || text::contains(&lowered, "ssh_key")
}

/// Finds the SSH key in the item's own key part.
fn find_native_key(cipher: &CipherItem) -> (r: Option<SshKeyItem>)
    ensures
        super::part_view(r) == native_key(cipher@),
{
    match &cipher.ssh_key {
        Some(key) => match &key.private_key {
            Some(private_key) => {
                if is_ssh_private_key(private_key) {
                    Some(
                        SshKeyItem {
                            id: cipher.id.clone(),
                            name: cipher.name.clone(),
                            private_key: private_key.clone(),
                            public_key: text::copy_option(&key.public_key),
                            note: text::copy_option(&cipher.notes),
                        },
                    )
                } else {
                    None
                }
            },
            None => None,
        },
        None => None,
    }
}

/// Finds the SSH key in one field of an item.
fn find_field_key(cipher: &CipherItem, field: &DecryptedField) -> (r: Option<SshKeyItem>)
    ensures
        super::part_view(r) == field_key(cipher@, field@),
{
    match &field.value {
        Some(value) => {
            if is_ssh_key_name(&field.name) && is_ssh_private_key(value) {
                let mut name = text::join3(&cipher.name, " (", &field.name);
                name.append(")");
                Some(
                    SshKeyItem {
                        id: cipher.id.clone(),
                        name,
                        private_key: value.clone(),
                        public_key: None,
                        note: text::copy_option(&cipher.notes),
                    },
                )
            } else {
                None
            }
        },
        None => None,
    }
}

/// Puts the SSH keys in the fields of an item behind `keys`.
fn push_field_keys(cipher: &CipherItem, fields: &Vec<DecryptedField>, keys: &mut Vec<SshKeyItem>)
    ensures
        super::seq_view(final(keys)@) == super::seq_view(old(keys)@) + field_keys(
            cipher@,
            super::seq_view(fields@),
        ),
{
    let ghost texts = super::seq_view(fields@);
    assert(super::seq_view(keys@) =~= super::seq_view(old(keys)@) + Seq::<
        super::KeyTexts,
    >::empty());
    assert(texts.take(0) =~= Seq::<super::FieldTexts>::empty());
    for i in 0..fields.len()
        invariant
            texts == super::seq_view(fields@),
            super::seq_view(keys@) == super::seq_view(old(keys)@) + field_keys(
                cipher@,
                texts.take(i as int),
            ),
    {
        let ghost before = keys@;
        assert(texts.take(i + 1).drop_last() == texts.take(i as int));
        match find_field_key(cipher, &fields[i]) {
            Some(key) => {
                keys.push(key);
                assert(super::seq_view(keys@) =~= super::seq_view(before).push(key@));
            },
            None => {},
        }
        assert(super::seq_view(keys@) =~= super::seq_view(old(keys)@) + field_keys(
            cipher@,
            texts.take(i + 1),
        ));
    }
    assert(texts.take(texts.len() as int) == texts);
}

/// Puts the SSH keys of one item behind `keys`.
fn push_item_keys(cipher: &CipherItem, keys: &mut Vec<SshKeyItem>)
    ensures
        super::seq_view(final(keys)@) == super::seq_view(old(keys)@) + item_ssh_keys(cipher@),
{
    match find_native_key(cipher) {
        Some(key) => {
            keys.push(key);
            assert(super::seq_view(keys@) =~= super::seq_view(old(keys)@) + item_ssh_keys(cipher@));
            return;
        },
        None => {},
    }
    match &cipher.fields {
        Some(fields) => {
            push_field_keys(cipher, fields, keys);
        },
        None => {},
    }
    let ghost with_fields = keys@;
    let ghost from_fields = match cipher@.fields {
        Some(fields) => field_keys(cipher@, fields),
        None => Seq::empty(),
    };
    assert(super::seq_view(with_fields) =~= super::seq_view(old(keys)@) + from_fields);
    if cipher.kind == 2 {
        match &cipher.notes {
            Some(notes) => {
                if is_ssh_private_key(notes) {
                    let key = SshKeyItem {
                        id: cipher.id.clone(),
                        name: cipher.name.clone(),
                        private_key: notes.clone(),
                        public_key: None,
                        note: Some("Extracted from secure note text body".to_owned()),
                    };
                    keys.push(key);
                    assert(super::seq_view(keys@) =~= super::seq_view(with_fields) + seq![key@]);
                }
            },
            None => {},
        }
    }
    assert(super::seq_view(keys@) =~= super::seq_view(old(keys)@) + (from_fields + note_key(
        cipher@,
    )));
}

/// The SSH keys that decrypted items hold.
pub fn extract_ssh_keys_from_ciphers(ciphers: &[CipherItem]) -> (r: Vec<SshKeyItem>)
    ensures
        super::seq_view(r@) == all_ssh_keys(super::seq_view(ciphers@)),
{
    let mut keys: Vec<SshKeyItem> = Vec::new();
    let ghost texts = super::seq_view(ciphers@);
    assert(super::seq_view(keys@) =~= Seq::<super::KeyTexts>::empty());
    assert(texts.take(0) =~= Seq::<super::ItemTexts>::empty());
    for i in 0..ciphers.len()
        invariant
            texts == super::seq_view(ciphers@),
            super::seq_view(keys@) == all_ssh_keys(texts.take(i as int)),
    {
        assert(texts.take(i + 1).drop_last() == texts.take(i as int));
        push_item_keys(&ciphers[i], &mut keys);
    }
    assert(texts.take(texts.len() as int) == texts);
    keys
}

proof fn lemma_field_keys_hold(item: super::ItemTexts, fields: Seq<super::FieldTexts>, i: int)
    requires
        0 <= i < field_keys(item, fields).len(),
    ensures
        holds_private_key(field_keys(item, fields)[i].private_key),
        field_keys(item, fields)[i].id == item.id,
    decreases fields.len(),
{
    if fields.len() > 0 && i < field_keys(item, fields.drop_last()).len() {
        lemma_field_keys_hold(item, fields.drop_last(), i);
    }
}

/// Every extracted key is a text between PEM markers, and bears the id of an item of the list.
pub proof fn extracted_keys_are_private_keys(items: Seq<super::ItemTexts>, i: int)
    requires
        0 <= i < all_ssh_keys(items).len(),
    ensures
        holds_private_key(all_ssh_keys(items)[i].private_key),
        exists|j: int|
            0 <= j < items.len() && (#[trigger] items[j]).id == all_ssh_keys(items)[i].id,
    decreases items.len(),
{
    if items.len() > 0 {
        let before = all_ssh_keys(items.drop_last());
        if i < before.len() {
            extracted_keys_are_private_keys(items.drop_last(), i);
            let j = choose|j: int|
                0 <= j < items.drop_last().len() && (#[trigger] items.drop_last()[j]).id
                    == before[i].id;
            assert(items[j].id == all_ssh_keys(items)[i].id);
        } else {
            let item = items.last();
            let k = i - before.len();
            assert(all_ssh_keys(items)[i] == item_ssh_keys(item)[k]);
            if native_key(item) is None {
                if let Some(fields) = item.fields {
                    if k < field_keys(item, fields).len() {
                        lemma_field_keys_hold(item, fields, k);
                    }
                }
            }
            assert(items[items.len() - 1].id == all_ssh_keys(items)[i].id);
        }
    }
}

// ---------------------------------------------------------------------------
// Offline decryption
// ---------------------------------------------------------------------------
/// The unlock data of a cached vault.
pub open spec fn offline_unlock(sync: SyncResponse) -> Result<MasterPasswordUnlockSync, Seq<char>> {
    match sync.user_decryption {
        None => Err(
            "Offline decryption settings missing from local cache. Please sync online first."@,
        ),
        Some(options) => match options.master_password_unlock {
            None => Err("Offline KDF data missing from local cache"@),
            Some(unlock) => Ok(unlock),
        },
    }
}

/// The master key that the unlock data of a cached vault derives from a password.
pub open spec fn offline_master_key(password: Seq<char>, unlock: MasterPasswordUnlockSync) -> Result<
    Seq<u8>,
    Seq<char>,
> {
    let kdf = unlock.kdf;
    if kdf.kdf_type == 0 {
        crypto::pbkdf2_master_key(password, unlock.salt@, kdf.iterations)
    } else if kdf.kdf_type == 1 {
        match (kdf.memory, kdf.parallelism) {
            (None, _) => Err("Argon2 memory parameter missing"@),
            (_, None) => Err("Argon2 parallelism parameter missing"@),
            (Some(memory), Some(parallelism)) => crypto::argon2_master_key(
                password,
                unlock.salt@,
                kdf.iterations,
                memory,
                parallelism,
            ),
        }
    } else {
        Err("Unsupported KDF type: "@ + number::decimal(kdf.kdf_type as nat))
    }
}

/// Derives the master key from a password and the unlock data of a cached vault.
pub fn derive_offline_master_key(password: &str, unlock: &MasterPasswordUnlockSync) -> (r: Result<
    [u8; 32],
    String,
>)
    requires
        crypto::kdf_costs_fit(unlock.kdf.kdf_type, unlock.kdf.memory, unlock.kdf.parallelism),
    ensures
        text::result_view(r) == offline_master_key(password@, *unlock),
{
    let kdf = unlock.kdf;
    if kdf.kdf_type == 0 {
        crypto::derive_master_key_pbkdf2(password, &unlock.salt, kdf.iterations)
    } else if kdf.kdf_type == 1 {
        match (kdf.memory, kdf.parallelism) {
            (None, _) => Err("Argon2 memory parameter missing".to_owned()),
            (_, None) => Err("Argon2 parallelism parameter missing".to_owned()),
            (Some(memory), Some(parallelism)) => crypto::derive_master_key_argon2(
                password,
                &unlock.salt,
                kdf.iterations,
                memory,
                parallelism,
            ),
        }
    } else {
        Err(text::join2("Unsupported KDF type: ", &number::decimal_text(kdf.kdf_type as u64)))
    }
}

/// The user keys that a password opens in a cached vault.
pub open spec fn offline_keys(sync: SyncResponse, password: Seq<char>) -> Result<
    (Seq<u8>, Seq<u8>),
    Seq<char>,
> {
    match offline_unlock(sync) {
        Err(e) => Err(e),
        Ok(unlock) => match offline_master_key(password, unlock) {
            Err(e) => Err(e),
            Ok(master_key) => crypto::symmetric_key(master_key, sync.profile.key@),
        },
    }
}

/// The Argon2 costs of a cached vault, where they matter, fit in 32 bits.
pub open spec fn offline_costs_fit(sync: SyncResponse) -> bool {
    match offline_unlock(sync) {
        Ok(unlock) => crypto::kdf_costs_fit(
            unlock.kdf.kdf_type,
            unlock.kdf.memory,
            unlock.kdf.parallelism,
        ),
        Err(_) => true,
    }
}

/// Unlocks a cached vault with the master password: the decrypted items and the user's keys.
pub fn decrypt_sync_response_offline(sync_resp: &SyncResponse, password: &str) -> (r: Result<
    (Vec<CipherItem>, [u8; 32], [u8; 32]),
    String,
>)
    requires
        offline_costs_fit(*sync_resp),
    ensures
        match r {
            Ok((items, enc, mac)) => offline_keys(*sync_resp, password@) == Ok::<
                (Seq<u8>, Seq<u8>),
                Seq<char>,
            >((enc@, mac@)) && super::seq_view(items@) == opened_vault(
                *sync_resp,
                (enc@, mac@),
            ).0,
            Err(e) => offline_keys(*sync_resp, password@) == Err::<
                (Seq<u8>, Seq<u8>),
                Seq<char>,
            >(e@),
        },
{
    let unlock = match &sync_resp.user_decryption {
        None => {
            return Err(
                "Offline decryption settings missing from local cache. Please sync online first.".to_owned(),
            );
        },
        Some(options) => match &options.master_password_unlock {
            None => {
                return Err("Offline KDF data missing from local cache".to_owned());
            },
            Some(unlock) => unlock,
        },
    };
    let master_key = match derive_offline_master_key(password, unlock) {
        Err(e) => {
            return Err(e);
        },
        Ok(master_key) => master_key,
    };
    match crypto::decrypt_symmetric_key(&master_key, &sync_resp.profile.key) {
        Err(e) => Err(e),
        Ok((enc, mac)) => {
            let items = parse_and_decrypt_all_ciphers(sync_resp, &enc, &mac);
            Ok((items, enc, mac))
        },
    }
}

// ---------------------------------------------------------------------------
// After a sync
// ---------------------------------------------------------------------------
/// The SSH keys that the user's keys open in a vault.
pub open spec fn vault_ssh_keys(sync: SyncResponse, user: (Seq<u8>, Seq<u8>)) -> Seq<
    super::KeyTexts,
> {
    all_ssh_keys(opened_vault(sync, user).0)
}

/// Decrypts the SSH keys of a vault.
pub fn decrypt_ssh_keys(sync: &SyncResponse, enc_key: &[u8; 32], mac_key: &[u8; 32]) -> (r: Vec<
    SshKeyItem,
>)
    ensures
        super::seq_view(r@) == vault_ssh_keys(*sync, (enc_key@, mac_key@)),
{
    extract_ssh_keys_from_ciphers(&parse_and_decrypt_all_ciphers(sync, enc_key, mac_key))
}

/// What is done with the caches once a vault was fetched.
#[derive(Debug)]
pub enum PostSync {
    /// Write these items to the unencrypted cache, and save the keys.
    Keep { items: Vec<CipherItem> },
    /// Remove the unencrypted cache and the saved keys.
    Wipe,
}

/// Decides what becomes of the unencrypted cache and of the saved keys: a session that never
/// times out keeps both, any other keeps neither.
pub fn handle_post_sync(
    sync_response: &SyncResponse,
    timeout: &str,
    enc_key: &[u8; 32],
    mac_key: &[u8; 32],
) -> (r: PostSync)
    ensures
        match r {
            PostSync::Keep { items } => config::normalized(timeout@) == "never"@ && super::seq_view(
                items@,
            ) == opened_vault(*sync_response, (enc_key@, mac_key@)).0,
            PostSync::Wipe => config::normalized(timeout@) != "never"@,
        },
{
    if config::never_locks(timeout) {
        PostSync::Keep { items: parse_and_decrypt_all_ciphers(sync_response, enc_key, mac_key) }
    } else {
        PostSync::Wipe
    }
}

} // verus!
