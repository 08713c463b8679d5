//! The local vault: where it lies, what its items hold, and how they are decrypted.
use vstd::prelude::*;
use vstd::string::*;
use vstd::utf8::*;

use crate::api::{CipherSync, FieldSync, LoginSync, SshKeySync};
use crate::crypto;
use crate::number;
use crate::primitives;
use crate::text;

pub mod laws;
pub mod lists;
pub mod repository;
pub mod sql;
pub mod tables;
pub mod transaction;
pub mod vault;

verus! {

// ---------------------------------------------------------------------------
// Paths
// ---------------------------------------------------------------------------
/// The path of the file `name` in the directory `dir`.
pub open spec fn file_in(dir: Seq<char>, name: Seq<char>) -> Seq<char> {
    if dir.len() > 0 && dir.last() != '/' {
        dir + "/"@ + name
    } else {
        dir + name
    }
}

/// Joins a directory and a file name.
pub fn join_path(dir: &str, name: &str) -> (r: String)
    ensures
        r@ == file_in(dir@, name@),
{
    let chars = text::chars_of(dir);
    if chars.len() > 0 && chars[chars.len() - 1] != '/' {
        text::join3(dir, "/", name)
    } else {
        text::join2(dir, name)
    }
}

/// The path of the cache database under the cache directory, where there is one.
pub fn db_path(cache_dir: &Option<String>) -> (r: Option<String>)
    ensures
        text::option_view(r) == match *cache_dir {
            Some(dir) => Some(file_in(dir@, "vault.db"@)),
            None => None,
        },
{
    match cache_dir {
        Some(dir) => Some(join_path(dir, "vault.db")),
        None => None,
    }
}

/// The path of the unencrypted cache under the cache directory, where there is one.
pub fn unencrypted_db_path(cache_dir: &Option<String>) -> (r: Option<String>)
    ensures
        text::option_view(r) == match *cache_dir {
            Some(dir) => Some(file_in(dir@, "vault.db.raw"@)),
            None => None,
        },
{
    match cache_dir {
        Some(dir) => Some(join_path(dir, "vault.db.raw")),
        None => None,
    }
}

// ---------------------------------------------------------------------------
// Decrypted items
// ---------------------------------------------------------------------------
/// An SSH key found in the vault: the item's id, a name, the private key in PEM or OpenSSH
/// format.
#[derive(Debug, Clone)]
pub struct SshKeyItem {
    pub id: String,
    pub name: String,
    pub private_key: String,
    pub public_key: Option<String>,
    pub note: Option<String>,
}

#[derive(Debug, Clone)]
pub struct DecryptedField {
    pub name: String,
    pub value: Option<String>,
    pub kind: i32,
}

#[derive(Debug, Clone)]
pub struct DecryptedLogin {
    pub username: Option<String>,
    pub password: Option<String>,
    pub uri: Option<String>,
}

#[derive(Debug, Clone)]
pub struct DecryptedSshKey {
    pub private_key: Option<String>,
    pub public_key: Option<String>,
}

#[derive(Debug, Clone)]
pub struct CipherItem {
    pub id: String,
    pub kind: i32,
    pub name: String,
    pub notes: Option<String>,
    pub login: Option<DecryptedLogin>,
    pub fields: Option<Vec<DecryptedField>>,
    pub ssh_key: Option<DecryptedSshKey>,
}

/// The texts of an SSH key item.
pub struct KeyTexts {
    pub id: Seq<char>,
    pub name: Seq<char>,
    pub private_key: Seq<char>,
    pub public_key: Option<Seq<char>>,
    pub note: Option<Seq<char>>,
}

/// The texts of a decrypted field.
pub struct FieldTexts {
    pub name: Seq<char>,
    pub value: Option<Seq<char>>,
    pub kind: i32,
}

/// The texts of a decrypted login.
pub struct LoginTexts {
    pub username: Option<Seq<char>>,
    pub password: Option<Seq<char>>,
    pub uri: Option<Seq<char>>,
}

/// The texts of a decrypted SSH key.
pub struct SshKeyTexts {
    pub private_key: Option<Seq<char>>,
    pub public_key: Option<Seq<char>>,
}

/// The texts of a decrypted item.
#[verifier::ext_equal]
pub struct ItemTexts {
    pub id: Seq<char>,
    pub kind: i32,
    pub name: Seq<char>,
    pub notes: Option<Seq<char>>,
    pub login: Option<LoginTexts>,
    pub fields: Option<Seq<FieldTexts>>,
    pub ssh_key: Option<SshKeyTexts>,
}

impl View for SshKeyItem {
    type V = KeyTexts;

    open spec fn view(&self) -> KeyTexts {
        KeyTexts {
            id: self.id@,
            name: self.name@,
            private_key: self.private_key@,
            public_key: text::option_view(self.public_key),
            note: text::option_view(self.note),
        }
    }
}

impl View for DecryptedField {
    type V = FieldTexts;

    open spec fn view(&self) -> FieldTexts {
        FieldTexts { name: self.name@, value: text::option_view(self.value), kind: self.kind }
    }
}

impl View for DecryptedLogin {
    type V = LoginTexts;

    open spec fn view(&self) -> LoginTexts {
        LoginTexts {
            username: text::option_view(self.username),
            password: text::option_view(self.password),
            uri: text::option_view(self.uri),
        }
    }
}

impl View for DecryptedSshKey {
    type V = SshKeyTexts;

    open spec fn view(&self) -> SshKeyTexts {
        SshKeyTexts {
            private_key: text::option_view(self.private_key),
            public_key: text::option_view(self.public_key),
        }
    }
}

/// The texts of each item of a list.
pub open spec fn seq_view<T: View>(s: Seq<T>) -> Seq<T::V> {
    s.map_values(|t: T| t@)
}

/// The texts of an optional part.
pub open spec fn part_view<T: View>(part: Option<T>) -> Option<T::V> {
    match part {
        Some(part) => Some(part@),
        None => None,
    }
}

/// The texts of an optional list.
pub open spec fn list_view<T: View>(list: Option<Vec<T>>) -> Option<Seq<T::V>> {
    match list {
        Some(list) => Some(seq_view(list@)),
        None => None,
    }
}

impl View for CipherItem {
    type V = ItemTexts;

    open spec fn view(&self) -> ItemTexts {
        ItemTexts {
            id: self.id@,
            kind: self.kind,
            name: self.name@,
            notes: text::option_view(self.notes),
            login: part_view(self.login),
            fields: list_view(self.fields),
            ssh_key: part_view(self.ssh_key),
        }
    }
}

// ---------------------------------------------------------------------------
// Decryption of texts
// ---------------------------------------------------------------------------
/// An encryption key and a MAC key.
pub type Keys = ([u8; 32], [u8; 32]);

/// An optional pair of keys, by its value.
pub open spec fn held_keys(keys: Option<Keys>) -> Option<(Seq<u8>, Seq<u8>)> {
    match keys {
        Some(keys) => Some(crypto::keys_view(keys)),
        None => None,
    }
}

/// The text that decrypted bytes hold, with `label` before the fault of bytes that are not
/// UTF-8.
pub open spec fn plain_text(label: Seq<char>, plain: Result<Seq<u8>, Seq<char>>) -> Result<
    Seq<char>,
    Seq<char>,
> {
    match plain {
        Err(e) => Err(e),
        Ok(bytes) => if valid_utf8(bytes) {
            Ok(decode_utf8(bytes))
        } else {
            Err(label + text::utf8_fault(bytes))
        },
    }
}

/// Turns what decryption gave into a text.
pub fn text_of_plain(label: &str, plain: Result<Vec<u8>, String>) -> (r: Result<String, String>)
    ensures
        text::result_view(r) == plain_text(label@, text::result_view(plain)),
{
    match plain {
        Err(e) => Err(e),
        Ok(bytes) => crypto::with_context(label, text::decode_text(bytes)),
    }
}

/// The text behind a cipher string.
pub open spec fn decrypted_text(
    label: Seq<char>,
    s: Seq<char>,
    keys: (Seq<u8>, Seq<u8>),
) -> Result<Seq<char>, Seq<char>> {
    plain_text(label, crypto::cipher_plaintext(s, keys.0, keys.1))
}

/// The text behind an optional cipher string.
pub open spec fn decrypted_option(
    label: Seq<char>,
    s: Option<Seq<char>>,
    keys: (Seq<u8>, Seq<u8>),
) -> Result<Option<Seq<char>>, Seq<char>> {
    match s {
        None => Ok(None),
        Some(s) => match decrypted_text(label, s, keys) {
            Ok(plain) => Ok(Some(plain)),
            Err(e) => Err(e),
        },
    }
}

/// The outcome of decrypting an optional text, by its view.
pub open spec fn option_result_view(r: Result<Option<String>, String>) -> Result<
    Option<Seq<char>>,
    Seq<char>,
> {
    match r {
        Ok(o) => Ok(text::option_view(o)),
        Err(e) => Err(e@),
    }
}

/// Decrypts a cipher string into a text.
pub fn decrypt_text(label: &str, s: &str, keys: &Keys) -> (r: Result<String, String>)
    ensures
        text::result_view(r) == decrypted_text(label@, s@, crypto::keys_view(*keys)),
{
    text_of_plain(label, crypto::decrypt_cipher_string(s, &keys.0, &keys.1))
}

/// Decrypts an optional cipher string into an optional text.
pub fn decrypt_option(label: &str, s: &Option<String>, keys: &Keys) -> (r: Result<
    Option<String>,
    String,
>)
    ensures
        option_result_view(r) == decrypted_option(
            label@,
            text::option_view(*s),
            crypto::keys_view(*keys),
        ),
{
    match s {
        None => Ok(None),
        Some(s) => match decrypt_text(label, s, keys) {
            Ok(plain) => Ok(Some(plain)),
            Err(e) => Err(e),
        },
    }
}

// ---------------------------------------------------------------------------
// Organization keys
// ---------------------------------------------------------------------------
/// The encryption type and the Base64 ciphertext of a wrapped organization key.
pub open spec fn org_key_parts(s: Seq<char>) -> Result<(nat, Seq<char>), Seq<char>> {
    let parts = text::split_on(s, '.');
    if parts.len() < 2 {
        Err("Invalid organization key format"@)
    } else {
        match number::unsigned_value(parts[0], u32::MAX as nat) {
            Err(_) => Err("Invalid enc_type"@),
            Ok(kind) => Ok((kind, text::split_on(parts[1], '|')[0])),
        }
    }
}

/// Takes a wrapped organization key apart.
pub fn parse_org_key(s: &str) -> (r: Result<(u64, String), String>)
    ensures
        match r {
            Ok(parts) => org_key_parts(s@) == Ok::<(nat, Seq<char>), Seq<char>>(
                (parts.0 as nat, parts.1@),
            ),
            Err(e) => org_key_parts(s@) == Err::<(nat, Seq<char>), Seq<char>>(e@),
        },
{
    let parts = text::split(s, '.');
    if parts.len() < 2 {
        return Err("Invalid organization key format".to_owned());
    }
    assert(parts.deep_view()[0] == parts@[0]@ && parts.deep_view()[1] == parts@[1]@);
    match number::parse_unsigned(&parts[0], u32::MAX as u64) {
        Err(_) => Err("Invalid enc_type".to_owned()),
        Ok(kind) => {
            let data = text::split(&parts[1], '|');
            assert(data.deep_view()[0] == data@[0]@);
            Ok((kind, data[0].clone()))
        },
    }
}

/// The organization key that the user's RSA key unwraps.
pub open spec fn unwrapped_org_key(s: Seq<char>, der: Seq<u8>) -> Result<
    (Seq<u8>, Seq<u8>),
    Seq<char>,
> {
    match org_key_parts(s) {
        Err(e) => Err(e),
        Ok((kind, data)) => match primitives::base64_decoded(data) {
            Err(e) => Err("Failed to base64 decode organization key ciphertext: "@ + e),
            Ok(ciphertext) => {
                if kind == 3 || kind == 5 {
                    org_key_halves(
                        crypto::rsa_plaintext(
                            "RSA-OAEP-SHA256 decryption failed: "@,
                            primitives::rsa_key_fault(der),
                            primitives::rsa_prime_bits(der),
                            primitives::rsa_oaep_sha256(der, ciphertext),
                        ),
                    )
                } else if kind == 4 || kind == 6 {
                    org_key_halves(
                        crypto::rsa_plaintext(
                            "RSA-OAEP-SHA1 decryption failed: "@,
                            primitives::rsa_key_fault(der),
                            primitives::rsa_prime_bits(der),
                            primitives::rsa_oaep_sha1(der, ciphertext),
                        ),
                    )
                } else {
                    Err("Unsupported organization key encryption type: "@ + number::decimal(kind))
                }
            },
        },
    }
}

/// The two halves of an unwrapped organization key.
pub open spec fn org_key_halves(plain: Result<Seq<u8>, Seq<char>>) -> Result<
    (Seq<u8>, Seq<u8>),
    Seq<char>,
> {
    match plain {
        Err(e) => Err(e),
        Ok(bytes) => crypto::key_halves("Decrypted organization key has invalid length: "@, bytes),
    }
}

/// Takes an unwrapped organization key apart.
pub fn split_org_key(plain: Result<Vec<u8>, String>) -> (r: Result<Keys, String>)
    ensures
        crypto::keys_result_view(r) == org_key_halves(text::result_view(plain)),
{
    match plain {
        Err(e) => Err(e),
        Ok(bytes) => crypto::split_key("Decrypted organization key has invalid length: ", &bytes),
    }
}

/// Unwraps an organization key with the user's RSA private key.
pub fn decrypt_org_key(org_key: &str, priv_key_der: &[u8]) -> (r: Result<Keys, String>)
    ensures
        crypto::keys_result_view(r) == unwrapped_org_key(org_key@, priv_key_der@),
{
    let (kind, data) = match parse_org_key(org_key) {
        Ok(parts) => parts,
        Err(e) => {
            return Err(e);
        },
    };
    match primitives::base64_decode(&data) {
        Err(e) => Err(
            text::join2("Failed to base64 decode organization key ciphertext: ", &e),
        ),
        Ok(ciphertext) => {
            if kind == 3 || kind == 5 {
                split_org_key(crypto::decrypt_rsa_oaep_sha256(priv_key_der, &ciphertext))
            } else if kind == 4 || kind == 6 {
                split_org_key(crypto::decrypt_rsa_oaep_sha1(priv_key_der, &ciphertext))
            } else {
                Err(
                    text::join2(
                        "Unsupported organization key encryption type: ",
                        &number::decimal_text(kind),
                    ),
                )
            }
        },
    }
}

/// The keys of the organizations, by organization id.
#[derive(Debug)]
pub struct OrgKeys {
    entries: Vec<(String, Keys)>,
}

/// The map that a list of entries makes, a later entry over an earlier one.
pub open spec fn entries_map(entries: Seq<(String, Keys)>) -> Map<Seq<char>, (Seq<u8>, Seq<u8>)>
    decreases entries.len(),
{
    if entries.len() == 0 {
        Map::empty()
    } else {
        entries_map(entries.drop_last()).insert(
            entries.last().0@,
            crypto::keys_view(entries.last().1),
        )
    }
}

impl View for OrgKeys {
    type V = Map<Seq<char>, (Seq<u8>, Seq<u8>)>;

    closed spec fn view(&self) -> Map<Seq<char>, (Seq<u8>, Seq<u8>)> {
        entries_map(self.entries@)
    }
}

impl OrgKeys {
    /// No keys.
    pub fn new() -> (r: Self)
        ensures
            r@ == Map::<Seq<char>, (Seq<u8>, Seq<u8>)>::empty(),
    {
        OrgKeys { entries: Vec::new() }
    }

    /// Puts in the keys of one organization, in place of any it had.
    pub fn insert(&mut self, id: &String, keys: Keys)
        ensures
            final(self)@ == old(self)@.insert(id@, crypto::keys_view(keys)),
    {
        let ghost before = self.entries@;
        self.entries.push((id.clone(), keys));
        assert(self.entries@.drop_last() == before);
    }

    /// The keys of one organization.
    pub fn get(&self, id: &str) -> (r: Option<Keys>)
        ensures
            match r {
                Some(keys) => self@.dom().contains(id@) && self@[id@] == crypto::keys_view(keys),
                None => !self@.dom().contains(id@),
            },
    {
        let mut i: usize = self.entries.len();
        assert(self.entries@.take(i as int) == self.entries@);
        while i > 0
            invariant
                i <= self.entries@.len(),
                self@.dom().contains(id@) == entries_map(self.entries@.take(i as int)).dom().contains(
                    id@,
                ),
                self@.dom().contains(id@) ==> self@[id@] == entries_map(
                    self.entries@.take(i as int),
                )[id@],
            decreases i,
        {
            let entry = &self.entries[i - 1];
            assert(self.entries@.take(i as int).drop_last() == self.entries@.take(i - 1));
            if text::same(&entry.0, id) {
                return Some(entry.1);
            }
            i = i - 1;
        }
        None
    }
}

// ---------------------------------------------------------------------------
// Decryption of one item
// ---------------------------------------------------------------------------
/// The keys under which the item's own key, or the item itself, is encrypted: those of its
/// organization where they are known, the user's own otherwise.
pub open spec fn active_keys(
    organization_id: Option<Seq<char>>,
    user: (Seq<u8>, Seq<u8>),
    orgs: Map<Seq<char>, (Seq<u8>, Seq<u8>)>,
) -> (Seq<u8>, Seq<u8>) {
    match organization_id {
        Some(id) => if orgs.dom().contains(id) {
            orgs[id]
        } else {
            user
        },
        None => user,
    }
}

/// Chooses the keys of the item's organization, or the user's own.
pub fn choose_keys(organization_id: &Option<String>, user: &Keys, orgs: &OrgKeys) -> (r: Keys)
    ensures
        crypto::keys_view(r) == active_keys(
            text::option_view(*organization_id),
            crypto::keys_view(*user),
            orgs@,
        ),
{
    match organization_id {
        Some(id) => match orgs.get(id) {
            Some(keys) => keys,
            None => *user,
        },
        None => *user,
    }
}

/// The two halves of an item's own key.
pub open spec fn item_key_halves(plain: Result<Seq<u8>, Seq<char>>) -> Result<
    (Seq<u8>, Seq<u8>),
    Seq<char>,
> {
    match plain {
        Err(e) => Err(e),
        Ok(bytes) => crypto::key_halves("Decrypted cipher key has invalid length: "@, bytes),
    }
}

/// Takes an item's own key apart.
pub fn split_item_key(plain: Result<Vec<u8>, String>) -> (r: Result<Keys, String>)
    ensures
        crypto::keys_result_view(r) == item_key_halves(text::result_view(plain)),
{
    match plain {
        Err(e) => Err(e),
        Ok(bytes) => crypto::split_key("Decrypted cipher key has invalid length: ", &bytes),
    }
}

/// The keys under which the texts of an item are encrypted.
pub open spec fn item_keys(
    cipher: CipherSync,
    user: (Seq<u8>, Seq<u8>),
    orgs: Map<Seq<char>, (Seq<u8>, Seq<u8>)>,
) -> Result<(Seq<u8>, Seq<u8>), Seq<char>> {
    let active = active_keys(text::option_view(cipher.organization_id), user, orgs);
    match cipher.key {
        None => Ok(active),
        Some(key) => item_key_halves(crypto::cipher_plaintext(key@, active.0, active.1)),
    }
}

/// Finds the keys under which the texts of an item are encrypted.
pub fn find_item_keys(cipher: &CipherSync, user: &Keys, orgs: &OrgKeys) -> (r: Result<Keys, String>)
    ensures
        crypto::keys_result_view(r) == item_keys(*cipher, crypto::keys_view(*user), orgs@),
{
    let active = choose_keys(&cipher.organization_id, user, orgs);
    match &cipher.key {
        None => Ok(active),
        Some(key) => split_item_key(crypto::decrypt_cipher_string(key, &active.0, &active.1)),
    }
}

/// The decrypted name of an item.
pub open spec fn item_name(name: Option<Seq<char>>, keys: (Seq<u8>, Seq<u8>)) -> Result<
    Seq<char>,
    Seq<char>,
> {
    match name {
        Some(name) => decrypted_text("Decrypted name is not valid UTF-8: "@, name, keys),
        None => Ok("Unnamed Vault Item"@),
    }
}

/// Decrypts the name of an item.
pub fn decrypt_name(name: &Option<String>, keys: &Keys) -> (r: Result<String, String>)
    ensures
        text::result_view(r) == item_name(text::option_view(*name), crypto::keys_view(*keys)),
{
    match name {
        Some(name) => decrypt_text("Decrypted name is not valid UTF-8: ", name, keys),
        None => Ok("Unnamed Vault Item".to_owned()),
    }
}

/// The texts of one field.
pub open spec fn field_texts(field: FieldSync, keys: (Seq<u8>, Seq<u8>)) -> Result<
    FieldTexts,
    Seq<char>,
> {
    match decrypted_text("Decrypted field name is not valid UTF-8: "@, field.name@, keys) {
        Err(e) => Err(e),
        Ok(name) => match decrypted_option(
            "Decrypted field value is not valid UTF-8: "@,
            text::option_view(field.value),
            keys,
        ) {
            Err(e) => Err(e),
            Ok(value) => Ok(FieldTexts { name, value, kind: field.kind }),
        },
    }
}

/// The texts of the fields; the first fault counts.
pub open spec fn fields_texts(fields: Seq<FieldSync>, keys: (Seq<u8>, Seq<u8>)) -> Result<
    Seq<FieldTexts>,
    Seq<char>,
>
    decreases fields.len(),
{
    if fields.len() == 0 {
        Ok(Seq::empty())
    } else {
        match fields_texts(fields.drop_last(), keys) {
            Err(e) => Err(e),
            Ok(done) => match field_texts(fields.last(), keys) {
                Err(e) => Err(e),
                Ok(field) => Ok(done.push(field)),
            },
        }
    }
}

/// Decrypts one field.
pub fn decrypt_field(field: &FieldSync, keys: &Keys) -> (r: Result<DecryptedField, String>)
    ensures
        text::result_view(r) == field_texts(*field, crypto::keys_view(*keys)),
{
    match decrypt_text("Decrypted field name is not valid UTF-8: ", &field.name, keys) {
        Err(e) => Err(e),
        Ok(name) => match decrypt_option(
            "Decrypted field value is not valid UTF-8: ",
            &field.value,
            keys,
        ) {
            Err(e) => Err(e),
            Ok(value) => Ok(DecryptedField { name, value, kind: field.kind }),
        },
    }
}

/// An error among the first fields is an error among all.
proof fn lemma_fields_fault(fields: Seq<FieldSync>, keys: (Seq<u8>, Seq<u8>), n: int)
    requires
        0 <= n <= fields.len(),
        fields_texts(fields.take(n), keys) is Err,
    ensures
        fields_texts(fields, keys) == fields_texts(fields.take(n), keys),
    decreases fields.len() - n,
{
    if n == fields.len() {
        assert(fields.take(n) == fields);
    } else {
        assert(fields.take(n + 1).drop_last() == fields.take(n));
        lemma_fields_fault(fields, keys, n + 1);
    }
}

/// The outcome of decrypting fields, by its view.
pub open spec fn fields_result_view(r: Result<Vec<DecryptedField>, String>) -> Result<
    Seq<FieldTexts>,
    Seq<char>,
> {
    match r {
        Ok(fields) => Ok(seq_view(fields@)),
        Err(e) => Err(e@),
    }
}

/// Decrypts the fields of an item.
pub fn decrypt_fields(fields: &[FieldSync], keys: &Keys) -> (r: Result<Vec<DecryptedField>, String>)
    ensures
        fields_result_view(r) == fields_texts(fields@, crypto::keys_view(*keys)),
{
    let mut done: Vec<DecryptedField> = Vec::new();
    assert(seq_view(done@) =~= Seq::<FieldTexts>::empty());
    for i in 0..fields.len()
        invariant
            fields_texts(fields@.take(i as int), crypto::keys_view(*keys)) == Ok::<
                Seq<FieldTexts>,
                Seq<char>,
            >(seq_view(done@)),
    {
        assert(fields@.take(i + 1).drop_last() == fields@.take(i as int));
        match decrypt_field(&fields[i], keys) {
            Err(e) => {
                proof {
                    lemma_fields_fault(fields@, crypto::keys_view(*keys), i + 1);
                }
                return Err(e);
            },
            Ok(field) => {
                let ghost before = done@;
                done.push(field);
                assert(seq_view(done@) =~= seq_view(before).push(field@));
            },
        }
    }
    assert(fields@.take(fields@.len() as int) == fields@);
    Ok(done)
}

/// The texts of a login.
pub open spec fn login_texts(login: LoginSync, keys: (Seq<u8>, Seq<u8>)) -> Result<
    LoginTexts,
    Seq<char>,
> {
    match decrypted_option(
        "Decrypted username is not valid UTF-8: "@,
        text::option_view(login.username),
        keys,
    ) {
        Err(e) => Err(e),
        Ok(username) => match decrypted_option(
            "Decrypted password is not valid UTF-8: "@,
            text::option_view(login.password),
            keys,
        ) {
            Err(e) => Err(e),
            Ok(password) => match decrypted_option(
                "Decrypted URI is not valid UTF-8: "@,
                text::option_view(login.uri),
                keys,
            ) {
                Err(e) => Err(e),
                Ok(uri) => Ok(LoginTexts { username, password, uri }),
            },
        },
    }
}

/// Decrypts a login.
pub fn decrypt_login(login: &LoginSync, keys: &Keys) -> (r: Result<DecryptedLogin, String>)
    ensures
        text::result_view(r) == login_texts(*login, crypto::keys_view(*keys)),
{
    let username = match decrypt_option(
        "Decrypted username is not valid UTF-8: ",
        &login.username,
        keys,
    ) {
        Err(e) => {
            return Err(e);
        },
        Ok(username) => username,
    };
    let password = match decrypt_option(
        "Decrypted password is not valid UTF-8: ",
        &login.password,
        keys,
    ) {
        Err(e) => {
            return Err(e);
        },
        Ok(password) => password,
    };
    match decrypt_option("Decrypted URI is not valid UTF-8: ", &login.uri, keys) {
        Err(e) => Err(e),
        Ok(uri) => Ok(DecryptedLogin { username, password, uri }),
    }
}

/// The texts of an SSH key.
pub open spec fn ssh_key_texts(key: SshKeySync, keys: (Seq<u8>, Seq<u8>)) -> Result<
    SshKeyTexts,
    Seq<char>,
> {
    match decrypted_option(
        "Decrypted private key is not valid UTF-8: "@,
        text::option_view(key.private_key),
        keys,
    ) {
        Err(e) => Err(e),
        Ok(private_key) => match decrypted_option(
            "Decrypted public key is not valid UTF-8: "@,
            text::option_view(key.public_key),
            keys,
        ) {
            Err(e) => Err(e),
            Ok(public_key) => Ok(SshKeyTexts { private_key, public_key }),
        },
    }
}

/// Decrypts an SSH key.
pub fn decrypt_ssh_key(key: &SshKeySync, keys: &Keys) -> (r: Result<DecryptedSshKey, String>)
    ensures
        text::result_view(r) == ssh_key_texts(*key, crypto::keys_view(*keys)),
{
    let private_key = match decrypt_option(
        "Decrypted private key is not valid UTF-8: ",
        &key.private_key,
        keys,
    ) {
        Err(e) => {
            return Err(e);
        },
        Ok(private_key) => private_key,
    };
    match decrypt_option("Decrypted public key is not valid UTF-8: ", &key.public_key, keys) {
        Err(e) => Err(e),
        Ok(public_key) => Ok(DecryptedSshKey { private_key, public_key }),
    }
}

/// What decrypting the parts of an item gave.
pub struct ItemParts<N, O, F, L, K> {
    pub name: N,
    pub notes: O,
    pub fields: F,
    pub login: L,
    pub ssh_key: K,
}

/// The parts of an item by their texts.
pub type PartTexts = ItemParts<
    Result<Seq<char>, Seq<char>>,
    Result<Option<Seq<char>>, Seq<char>>,
    Option<Result<Seq<FieldTexts>, Seq<char>>>,
    Option<Result<LoginTexts, Seq<char>>>,
    Option<Result<SshKeyTexts, Seq<char>>>,
>;

/// The parts of an item.
pub type DecryptedParts = ItemParts<
    Result<String, String>,
    Result<Option<String>, String>,
    Option<Result<Vec<DecryptedField>, String>>,
    Option<Result<DecryptedLogin, String>>,
    Option<Result<DecryptedSshKey, String>>,
>;

/// The texts of decrypted parts.
pub open spec fn parts_view(parts: DecryptedParts) -> PartTexts {
    ItemParts {
        name: text::result_view(parts.name),
        notes: option_result_view(parts.notes),
        fields: match parts.fields {
            Some(fields) => Some(fields_result_view(fields)),
            None => None,
        },
        login: match parts.login {
            Some(login) => Some(text::result_view(login)),
            None => None,
        },
        ssh_key: match parts.ssh_key {
            Some(key) => Some(text::result_view(key)),
            None => None,
        },
    }
}

/// An optional result as the result of an option.
pub open spec fn transposed<T>(part: Option<Result<T, Seq<char>>>) -> Result<
    Option<T>,
    Seq<char>,
> {
    match part {
        None => Ok(None),
        Some(Ok(t)) => Ok(Some(t)),
        Some(Err(e)) => Err(e),
    }
}

/// The item that decrypted parts make: the first fault, in the order name, notes, fields,
/// login, SSH key, refuses it.
pub open spec fn assembled_item(id: Seq<char>, kind: i32, parts: PartTexts) -> Result<
    ItemTexts,
    Seq<char>,
> {
    match (
        parts.name,
        parts.notes,
        transposed(parts.fields),
        transposed(parts.login),
        transposed(parts.ssh_key),
    ) {
        (Err(e), _, _, _, _) => Err(e),
        (_, Err(e), _, _, _) => Err(e),
        (_, _, Err(e), _, _) => Err(e),
        (_, _, _, Err(e), _) => Err(e),
        (_, _, _, _, Err(e)) => Err(e),
        (Ok(name), Ok(notes), Ok(fields), Ok(login), Ok(ssh_key)) => Ok(
            ItemTexts { id, kind, name, notes, login, fields, ssh_key },
        ),
    }
}

/// Makes an item of its decrypted parts.
pub fn assemble_item(id: &String, kind: i32, parts: DecryptedParts) -> (r: Result<
    CipherItem,
    String,
>)
    ensures
        text::result_view(r) == assembled_item(id@, kind, parts_view(parts)),
{
    let ItemParts { name, notes, fields, login, ssh_key } = parts;
    let name = match name {
        Ok(name) => name,
        Err(e) => {
            return Err(e);
        },
    };
    let notes = match notes {
        Ok(notes) => notes,
        Err(e) => {
            return Err(e);
        },
    };
    let fields = match fields {
        None => None,
        Some(Ok(fields)) => Some(fields),
        Some(Err(e)) => {
            return Err(e);
        },
    };
    let login = match login {
        None => None,
        Some(Ok(login)) => Some(login),
        Some(Err(e)) => {
            return Err(e);
        },
    };
    let ssh_key = match ssh_key {
        None => None,
        Some(Ok(ssh_key)) => Some(ssh_key),
        Some(Err(e)) => {
            return Err(e);
        },
    };
    Ok(CipherItem { id: id.clone(), kind, name, notes, login, fields, ssh_key })
}

/// What decrypting the parts of `cipher` gives.
pub open spec fn cipher_parts(cipher: CipherSync, keys: (Seq<u8>, Seq<u8>)) -> PartTexts {
    ItemParts {
        name: item_name(text::option_view(cipher.name), keys),
        notes: decrypted_option(
            "Decrypted notes not valid UTF-8: "@,
            text::option_view(cipher.notes),
            keys,
        ),
        fields: match cipher.fields {
            Some(fields) => Some(fields_texts(fields@, keys)),
            None => None,
        },
        login: match cipher.login {
            Some(login) => Some(login_texts(login, keys)),
            None => None,
        },
        ssh_key: match cipher.ssh_key {
            Some(key) => Some(ssh_key_texts(key, keys)),
            None => None,
        },
    }
}

/// What decrypting an item gives: nothing for a deleted one, an item, or the fault.
pub open spec fn decrypted_cipher(
    cipher: CipherSync,
    user: (Seq<u8>, Seq<u8>),
    orgs: Map<Seq<char>, (Seq<u8>, Seq<u8>)>,
) -> Result<Option<ItemTexts>, Seq<char>> {
    if cipher.deleted_date is Some {
        Ok(None)
    } else {
        match item_keys(cipher, user, orgs) {
            Err(e) => Err(e),
            Ok(keys) => match assembled_item(cipher.id@, cipher.kind, cipher_parts(cipher, keys)) {
                Err(e) => Err(e),
                Ok(item) => Ok(Some(item)),
            },
        }
    }
}

/// Decrypts one item and puts it behind `ciphers`; a deleted item is passed over, and a faulty
/// one leaves the list as it was.
pub fn decrypt_single_cipher(
    cipher: &CipherSync,
    user: &Keys,
    orgs: &OrgKeys,
    ciphers: &mut Vec<CipherItem>,
) -> (r: Result<(), String>)
    ensures
        match decrypted_cipher(*cipher, crypto::keys_view(*user), orgs@) {
            Err(e) => r matches Err(f) && f@ == e && final(ciphers)@ == old(ciphers)@,
            Ok(None) => r is Ok && final(ciphers)@ == old(ciphers)@,
            Ok(Some(item)) => r is Ok && seq_view(final(ciphers)@) == seq_view(old(ciphers)@).push(
                item,
            ),
        },
{
    if cipher.deleted_date.is_some() {
        return Ok(());
    }
    let keys = match find_item_keys(cipher, user, orgs) {
        Ok(keys) => keys,
        Err(e) => {
            return Err(e);
        },
    };
    let parts = ItemParts {
        name: decrypt_name(&cipher.name, &keys),
        notes: decrypt_option("Decrypted notes not valid UTF-8: ", &cipher.notes, &keys),
        fields: match &cipher.fields {
            Some(fields) => Some(decrypt_fields(fields, &keys)),
            None => None,
        },
        login: match &cipher.login {
            Some(login) => Some(decrypt_login(login, &keys)),
            None => None,
        },
        ssh_key: match &cipher.ssh_key {
            Some(key) => Some(decrypt_ssh_key(key, &keys)),
            None => None,
        },
    };
    assert(parts_view(parts) == cipher_parts(*cipher, crypto::keys_view(keys)));
    match assemble_item(&cipher.id, cipher.kind, parts) {
        Err(e) => Err(e),
        Ok(item) => {
            ciphers.push(item);
            assert(seq_view(ciphers@) =~= seq_view(old(ciphers)@).push(item@));
            Ok(())
        },
    }
}

} // verus!
