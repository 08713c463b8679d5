//! What the screens show.
use vstd::prelude::*;
use vstd::string::*;
use vstd::utf8::*;

use super::{App, AppState};
use crate::api::{CipherSync, FieldSync, FolderSync, LoginSync, SshKeySync};
use crate::crypto;
use crate::storage;
use crate::storage::{Keys, SshKeyItem};
use crate::text;

verus! {

// ---------------------------------------------------------------------------
// Decryption for display
// ---------------------------------------------------------------------------
/// A stored text as it is shown: decrypted where the keys open it, else as it is stored.
pub open spec fn readable(stored: Seq<char>, keys: Option<(Seq<u8>, Seq<u8>)>) -> Seq<char> {
    match keys {
        Some((enc, mac)) => match crypto::cipher_plaintext(stored, enc, mac) {
            Ok(bytes) => if valid_utf8(bytes) {
                decode_utf8(bytes)
            } else {
                stored
            },
            Err(_) => stored,
        },
        None => stored,
    }
}

/// Decrypts a stored text for display.
pub fn decrypt_to_string(cipher_text: &str, keys: &Option<Keys>) -> (r: String)
    ensures
        r@ == readable(cipher_text@, storage::held_keys(*keys)),
{
    match keys {
        Some(keys) => match crypto::decrypt_cipher_string(cipher_text, &keys.0, &keys.1) {
            Ok(bytes) => match text::decode_text(bytes) {
                Ok(plain) => plain,
                Err(_) => cipher_text.to_owned(),
            },
            Err(_) => cipher_text.to_owned(),
        },
        None => cipher_text.to_owned(),
    }
}

/// The keys of an item: its own, where it has some that the user's keys open, else the user's.
pub open spec fn item_keys(cipher: CipherSync, keys: Option<(Seq<u8>, Seq<u8>)>) -> Option<
    (Seq<u8>, Seq<u8>),
> {
    match (keys, cipher.key) {
        (Some((enc, mac)), Some(key)) => match crypto::cipher_plaintext(key@, enc, mac) {
            Ok(bytes) => if bytes.len() == 64 {
                Some((bytes.subrange(0, 32), bytes.subrange(32, 64)))
            } else {
                keys
            },
            Err(_) => keys,
        },
        _ => keys,
    }
}

/// Opens the keys of an item.
pub fn decrypt_cipher_key(cipher: &CipherSync, keys: &Option<Keys>) -> (r: Option<Keys>)
    ensures
        storage::held_keys(r) == item_keys(*cipher, storage::held_keys(*keys)),
{
    let user: Keys = match keys {
        Some(user) => *user,
        None => {
            return None;
        },
    };
    if let Some(key) = &cipher.key {
        if let Ok(bytes) = crypto::decrypt_cipher_string(key, &user.0, &user.1) {
            if bytes.len() == 64 {
                return Some((crypto::array_at(&bytes, 0), crypto::array_at(&bytes, 32)));
            }
        }
    }
    Some(user)
}

// ---------------------------------------------------------------------------
// Labels
// ---------------------------------------------------------------------------
/// The name of a kind of item.
pub open spec fn kind_name(kind: i32) -> Seq<char> {
    if kind == 1 {
        "Login"@
    } else if kind == 2 {
        "Secure Note"@
    } else if kind == 3 {
        "Card"@
    } else if kind == 4 {
        "Identity"@
    } else if kind == 5 || kind == 100 {
        "SSH Key"@
    } else {
        "Unknown"@
    }
}

/// Names a kind of item.
pub fn kind_text(kind: i32) -> (r: &'static str)
    ensures
        r@ == kind_name(kind),
{
    if kind == 1 {
        "Login"
    } else if kind == 2 {
        "Secure Note"
    } else if kind == 3 {
        "Card"
    } else if kind == 4 {
        "Identity"
    } else if kind == 5 || kind == 100 {
        "SSH Key"
    } else {
        "Unknown"
    }
}

/// The symbol of a kind of item.
pub open spec fn kind_icon(kind: i32) -> Seq<char> {
    if kind == 1 {
        "🔑"@
    } else if kind == 2 {
        "📝"@
    } else if kind == 3 {
        "💳"@
    } else if kind == 4 {
        "👤"@
    } else if kind == 5 || kind == 100 {
        "🗝️"@
    } else {
        "📦"@
    }
}

fn icon_text(kind: i32) -> (r: &'static str)
    ensures
        r@ == kind_icon(kind),
{
    if kind == 1 {
        "🔑"
    } else if kind == 2 {
        "📝"
    } else if kind == 3 {
        "💳"
    } else if kind == 4 {
        "👤"
    } else if kind == 5 || kind == 100 {
        "🗝️"
    } else {
        "📦"
    }
}

/// The stored name of an item.
pub open spec fn stored_name(cipher: CipherSync) -> Seq<char> {
    match cipher.name {
        Some(name) => name@,
        None => "[No Name]"@,
    }
}

/// The line of an item, before the mark of a favourite.
pub fn item_label(cipher: &CipherSync, keys: &Option<Keys>) -> (r: String)
    ensures
        r@ == kind_icon(cipher.kind) + " "@ + readable(
            stored_name(*cipher),
            item_keys(*cipher, storage::held_keys(*keys)),
        ),
{
    let own = decrypt_cipher_key(cipher, keys);
    let name = match &cipher.name {
        Some(name) => decrypt_to_string(name, &own),
        None => decrypt_to_string("[No Name]", &own),
    };
    text::join3(icon_text(cipher.kind), " ", &name)
}

/// The line of a folder.
pub fn folder_label(folder: &FolderSync, keys: &Option<Keys>) -> (r: String)
    ensures
        r@ == "  📁  "@ + readable(folder.name@, storage::held_keys(*keys)),
{
    text::join2("  📁  ", &decrypt_to_string(&folder.name, keys))
}

/// The lines of the left panel: the categories, a heading, the folders.
pub open spec fn left_lines(folders: Seq<FolderSync>, keys: Option<(Seq<u8>, Seq<u8>)>) -> Seq<
    Seq<char>,
> {
    seq![
        "  ★  All Items"@,
        "  ★  Favorites"@,
        "  ★  Logins"@,
        "  ★  Cards"@,
        "  ★  Identities"@,
        "  ★  Secure Notes"@,
        "  -- Folders --"@,
    ] + folders.map_values(|folder: FolderSync| "  📁  "@ + readable(folder.name@, keys))
}

// ---------------------------------------------------------------------------
// Details
// ---------------------------------------------------------------------------
/// A line of the details of an item.
#[derive(Debug)]
pub enum Detail {
    Blank,
    Title(String),
    Kind(String),
    Heading(String),
    Field { label: String, value: String, masked: bool },
    Text(String),
    Warning(String),
}

/// The value of a [`Detail`].
pub enum DetailText {
    Blank,
    Title(Seq<char>),
    Kind(Seq<char>),
    Heading(Seq<char>),
    Field { label: Seq<char>, value: Seq<char>, masked: bool },
    Text(Seq<char>),
    Warning(Seq<char>),
}

impl View for Detail {
    type V = DetailText;

    open spec fn view(&self) -> DetailText {
        match *self {
            Detail::Blank => DetailText::Blank,
            Detail::Title(s) => DetailText::Title(s@),
            Detail::Kind(s) => DetailText::Kind(s@),
            Detail::Heading(s) => DetailText::Heading(s@),
            Detail::Field { label, value, masked } => DetailText::Field {
                label: label@,
                value: value@,
                masked,
            },
            Detail::Text(s) => DetailText::Text(s@),
            Detail::Warning(s) => DetailText::Warning(s@),
        }
    }
}

/// What stands in place of a secret.
pub const MASK: &'static str = "••••••••";

/// The line of a field, where there is a value: a secret is masked where secrets are.
pub open spec fn field_line(
    label: Seq<char>,
    value: Option<Seq<char>>,
    secret: bool,
    mask: bool,
) -> Seq<DetailText> {
    match value {
        Some(value) => seq![
            DetailText::Field {
                label: label + ": "@,
                value: if secret && mask {
                    MASK@
                } else {
                    value
                },
                masked: secret && mask,
            },
        ],
        None => Seq::empty(),
    }
}

/// An optional stored text as it is shown.
pub open spec fn readable_part(stored: Option<String>, keys: Option<(Seq<u8>, Seq<u8>)>) -> Option<
    Seq<char>,
> {
    match stored {
        Some(stored) => Some(readable(stored@, keys)),
        None => None,
    }
}

/// The lines of a login.
pub open spec fn login_details(login: LoginSync, own: Option<(Seq<u8>, Seq<u8>)>, mask: bool) -> Seq<
    DetailText,
> {
    field_line("Username"@, readable_part(login.username, own), false, mask) + field_line(
        "Password"@,
        readable_part(login.password, own),
        true,
        mask,
    ) + field_line("URI/Website"@, readable_part(login.uri, own), false, mask)
}

/// The lines of custom fields; those of type 1 are secret.
pub open spec fn field_details(
    fields: Seq<FieldSync>,
    own: Option<(Seq<u8>, Seq<u8>)>,
    mask: bool,
) -> Seq<DetailText>
    decreases fields.len(),
{
    if fields.len() == 0 {
        Seq::empty()
    } else {
        field_details(fields.drop_last(), own, mask) + field_line(
            readable(fields.last().name@, own),
            readable_part(fields.last().value, own),
            fields.last().kind == 1,
            mask,
        )
    }
}

/// The lines of an SSH key item.
pub open spec fn ssh_details(ssh_key: SshKeySync, own: Option<(Seq<u8>, Seq<u8>)>, mask: bool) -> Seq<
    DetailText,
> {
    seq![DetailText::Blank, DetailText::Heading("SSH Key Details:"@)] + field_line(
        "Private Key"@,
        readable_part(ssh_key.private_key, own),
        true,
        mask,
    ) + field_line("Public Key"@, readable_part(ssh_key.public_key, own), false, mask)
}

/// The first SSH key that was found in an item.
pub open spec fn key_of_item(keys: Seq<storage::KeyTexts>, id: Seq<char>) -> Option<
    storage::KeyTexts,
>
    decreases keys.len(),
{
    if keys.len() == 0 {
        None
    } else if keys[0].id == id {
        Some(keys[0])
    } else {
        key_of_item(keys.skip(1), id)
    }
}

/// The lines of an SSH key that was found in an item.
pub open spec fn found_key_details(key: Option<storage::KeyTexts>, mask: bool) -> Seq<DetailText> {
    match key {
        Some(key) => seq![DetailText::Blank, DetailText::Heading("SSH Private Key Detected:"@)]
            + field_line("Private Key Type"@, Some("PEM / OpenSSH format"@), false, mask)
            + field_line("Private Key Payload"@, Some(key.private_key), true, mask),
        None => Seq::empty(),
    }
}

/// The lines above the contents of an item.
pub open spec fn head_details(cipher: CipherSync, own: Option<(Seq<u8>, Seq<u8>)>) -> Seq<
    DetailText,
> {
    seq![
        DetailText::Title(
            match cipher.name {
                Some(name) => readable(name@, own),
                None => "[No Name]"@,
            },
        ),
        DetailText::Kind("Type: "@ + kind_name(cipher.kind)),
        DetailText::Blank,
    ]
}

/// The lines of the login of an item.
pub open spec fn login_part(cipher: CipherSync, own: Option<(Seq<u8>, Seq<u8>)>, mask: bool) -> Seq<
    DetailText,
> {
    match cipher.login {
        Some(login) => if cipher.kind == 1 {
            login_details(login, own, mask)
        } else {
            Seq::empty()
        },
        None => Seq::empty(),
    }
}

/// The lines of the custom fields of an item.
pub open spec fn fields_part(cipher: CipherSync, own: Option<(Seq<u8>, Seq<u8>)>, mask: bool) -> Seq<
    DetailText,
> {
    match cipher.fields {
        Some(fields) => if fields@.len() > 0 {
            seq![DetailText::Blank, DetailText::Heading("Custom Fields:"@)] + field_details(
                fields@,
                own,
                mask,
            )
        } else {
            Seq::empty()
        },
        None => Seq::empty(),
    }
}

/// The lines of the notes of an item.
pub open spec fn notes_part(cipher: CipherSync, own: Option<(Seq<u8>, Seq<u8>)>) -> Seq<
    DetailText,
> {
    match cipher.notes {
        Some(notes) => seq![
            DetailText::Blank,
            DetailText::Heading("Notes:"@),
            DetailText::Text(readable(notes@, own)),
        ],
        None => Seq::empty(),
    }
}

/// The lines of the SSH key of an item.
pub open spec fn ssh_part(cipher: CipherSync, own: Option<(Seq<u8>, Seq<u8>)>, mask: bool) -> Seq<
    DetailText,
> {
    match cipher.ssh_key {
        Some(ssh_key) => ssh_details(ssh_key, own, mask),
        None => Seq::empty(),
    }
}

/// The details of an item: without keys, only what it is.
pub open spec fn details(
    cipher: CipherSync,
    keys: Option<(Seq<u8>, Seq<u8>)>,
    ssh_keys: Seq<storage::KeyTexts>,
    mask: bool,
) -> Seq<DetailText> {
    let own = item_keys(cipher, keys);
    let head = head_details(cipher, own);
    match keys {
        None => head.push(DetailText::Warning("Locked (Master key missing)"@)),
        Some(_) => head + login_part(cipher, own, mask) + fields_part(cipher, own, mask)
            + notes_part(cipher, own) + ssh_part(cipher, own, mask) + found_key_details(
            key_of_item(ssh_keys, cipher.id@),
            mask,
        ),
    }
}

/// The lines of the details while they are written.
struct Page {
    lines: Vec<Detail>,
    mask: bool,
}

impl Page {
    spec fn text(self) -> Seq<DetailText> {
        storage::seq_view(self.lines@)
    }

    fn put(&mut self, line: Detail)
        ensures
            final(self).text() == old(self).text() + seq![line@],
            final(self).mask == old(self).mask,
    {
        self.lines.push(line);
        assert(self.text() =~= old(self).text() + seq![line@]);
    }

    fn put_heading(&mut self, heading: &str)
        ensures
            final(self).text() == old(self).text() + seq![
                DetailText::Blank,
                DetailText::Heading(heading@),
            ],
            final(self).mask == old(self).mask,
    {
        self.put(Detail::Blank);
        self.put(Detail::Heading(heading.to_owned()));
        assert(self.text() =~= old(self).text() + seq![
            DetailText::Blank,
            DetailText::Heading(heading@),
        ]);
    }

    fn put_field(&mut self, label: &str, value: Option<String>, secret: bool)
        ensures
            final(self).text() == old(self).text() + field_line(
                label@,
                text::option_view(value),
                secret,
                old(self).mask,
            ),
            final(self).mask == old(self).mask,
    {
        match value {
            Some(value) => {
                let masked = secret && self.mask;
                let value = if masked {
                    MASK.to_owned()
                } else {
                    value
                };
                self.put(Detail::Field { label: text::join2(label, ": "), value, masked });
            },
            None => {},
        }
        assert(self.text() =~= old(self).text() + field_line(
            label@,
            text::option_view(value),
            secret,
            old(self).mask,
        ));
    }

    fn put_login(&mut self, login: &LoginSync, own: &Option<Keys>)
        ensures
            final(self).text() == old(self).text() + login_details(
                *login,
                storage::held_keys(*own),
                old(self).mask,
            ),
            final(self).mask == old(self).mask,
    {
        self.put_field("Username", decrypt_part(&login.username, own), false);
        self.put_field("Password", decrypt_part(&login.password, own), true);
        self.put_field("URI/Website", decrypt_part(&login.uri, own), false);
        assert(self.text() =~= old(self).text() + login_details(
            *login,
            storage::held_keys(*own),
            old(self).mask,
        ));
    }

    fn put_fields(&mut self, fields: &Vec<FieldSync>, own: &Option<Keys>)
        ensures
            final(self).text() == old(self).text() + field_details(
                fields@,
                storage::held_keys(*own),
                old(self).mask,
            ),
            final(self).mask == old(self).mask,
    {
        let ghost keys = storage::held_keys(*own);
        let ghost mask = self.mask;
        assert(fields@.take(0) =~= Seq::<FieldSync>::empty());
        assert(self.text() =~= old(self).text() + Seq::<DetailText>::empty());
        for i in 0..fields.len()
            invariant
                keys == storage::held_keys(*own),
                mask == old(self).mask,
                self.mask == mask,
                self.text() == old(self).text() + field_details(
                    fields@.take(i as int),
                    keys,
                    mask,
                ),
        {
            let field = &fields[i];
            assert(fields@.take(i + 1).drop_last() =~= fields@.take(i as int));
            let label = decrypt_to_string(&field.name, own);
            self.put_field(&label, decrypt_part(&field.value, own), field.kind == 1);
            assert(self.text() =~= old(self).text() + field_details(
                fields@.take(i + 1),
                keys,
                mask,
            ));
        }
        assert(fields@.take(fields@.len() as int) =~= fields@);
    }

    fn put_ssh_key(&mut self, ssh_key: &SshKeySync, own: &Option<Keys>)
        ensures
            final(self).text() == old(self).text() + ssh_details(
                *ssh_key,
                storage::held_keys(*own),
                old(self).mask,
            ),
            final(self).mask == old(self).mask,
    {
        self.put_heading("SSH Key Details:");
        self.put_field("Private Key", decrypt_part(&ssh_key.private_key, own), true);
        self.put_field("Public Key", decrypt_part(&ssh_key.public_key, own), false);
        assert(self.text() =~= old(self).text() + ssh_details(
            *ssh_key,
            storage::held_keys(*own),
            old(self).mask,
        ));
    }

    fn put_found_key(&mut self, key: Option<&SshKeyItem>)
        ensures
            final(self).text() == old(self).text() + found_key_details(
                match key {
                    Some(key) => Some(key@),
                    None => None,
                },
                old(self).mask,
            ),
            final(self).mask == old(self).mask,
    {
        match key {
            Some(key) => {
                self.put_heading("SSH Private Key Detected:");
                self.put_field("Private Key Type", Some("PEM / OpenSSH format".to_owned()), false);
                self.put_field("Private Key Payload", Some(key.private_key.clone()), true);
            },
            None => {},
        }
        assert(self.text() =~= old(self).text() + found_key_details(
            match key {
                Some(key) => Some(key@),
                None => None,
            },
            old(self).mask,
        ));
    }
}

fn decrypt_part(stored: &Option<String>, own: &Option<Keys>) -> (r: Option<String>)
    ensures
        text::option_view(r) == readable_part(*stored, storage::held_keys(*own)),
{
    match stored {
        Some(stored) => Some(decrypt_to_string(stored, own)),
        None => None,
    }
}

fn find_key<'a>(keys: &'a [SshKeyItem], id: &str) -> (r: Option<&'a SshKeyItem>)
    ensures
        (match r {
            Some(key) => Some(key@),
            None => None,
        }) == key_of_item(storage::seq_view(keys@), id@),
{
    let ghost all = storage::seq_view(keys@);
    assert(all.skip(0) =~= all);
    for i in 0..keys.len()
        invariant
            all == storage::seq_view(keys@),
            key_of_item(all.skip(i as int), id@) == key_of_item(all, id@),
    {
        assert(all.skip(i as int)[0] == keys@[i as int]@);
        assert(all.skip(i as int).skip(1) =~= all.skip(i + 1));
        if text::same(&keys[i].id, id) {
            return Some(&keys[i]);
        }
    }
    None
}

/// Writes the details of an item.
pub fn detail_lines(
    cipher: &CipherSync,
    keys: &Option<Keys>,
    ssh_keys: &[SshKeyItem],
    mask: bool,
) -> (r: Vec<Detail>)
    ensures
        storage::seq_view(r@) == details(
            *cipher,
            storage::held_keys(*keys),
            storage::seq_view(ssh_keys@),
            mask,
        ),
{
    let own = decrypt_cipher_key(cipher, keys);
    let ghost held = storage::held_keys(own);
    let mut page = Page { lines: Vec::new(), mask };
    assert(page.text() =~= Seq::<DetailText>::empty());
    let title = match &cipher.name {
        Some(name) => decrypt_to_string(name, &own),
        None => "[No Name]".to_owned(),
    };
    page.put(Detail::Title(title));
    page.put(Detail::Kind(text::join2("Type: ", kind_text(cipher.kind))));
    page.put(Detail::Blank);
    let ghost head = page.text();
    assert(head =~= head_details(*cipher, held));
    if keys.is_none() {
        page.put(Detail::Warning("Locked (Master key missing)".to_owned()));
        assert(page.text() =~= head.push(DetailText::Warning("Locked (Master key missing)"@)));
        return page.lines;
    }
    if cipher.kind == 1 {
        if let Some(login) = &cipher.login {
            page.put_login(login, &own);
        }
    }
    let ghost one = page.text();
    assert(one =~= head + login_part(*cipher, held, mask));
    if let Some(fields) = &cipher.fields {
        if fields.len() > 0 {
            page.put_heading("Custom Fields:");
            page.put_fields(fields, &own);
        }
    }
    let ghost two = page.text();
    assert(two =~= one + fields_part(*cipher, held, mask));
    if let Some(notes) = &cipher.notes {
        page.put_heading("Notes:");
        page.put(Detail::Text(decrypt_to_string(notes, &own)));
    }
    let ghost three = page.text();
    assert(three =~= two + notes_part(*cipher, held));
    if let Some(ssh_key) = &cipher.ssh_key {
        page.put_ssh_key(ssh_key, &own);
    }
    let ghost four = page.text();
    assert(four =~= three + ssh_part(*cipher, held, mask));
    page.put_found_key(find_key(ssh_keys, &cipher.id));
    page.lines
}

// ---------------------------------------------------------------------------
// Screens
// ---------------------------------------------------------------------------
impl App {
    /// The lines of the left panel.
    pub fn left_labels(&self) -> (r: Vec<String>)
        ensures
            storage::seq_view(r@) == left_lines(self@.folders, storage::held_keys(self@.keys)),
    {
        let ghost keys = storage::held_keys(self@.keys);
        let mut lines: Vec<String> = vec![
            "  ★  All Items".to_owned(),
            "  ★  Favorites".to_owned(),
            "  ★  Logins".to_owned(),
            "  ★  Cards".to_owned(),
            "  ★  Identities".to_owned(),
            "  ★  Secure Notes".to_owned(),
            "  -- Folders --".to_owned(),
        ];
        assert(storage::seq_view(lines@) =~= left_lines(self@.folders.take(0), keys));
        for i in 0..self.folders.len()
            invariant
                keys == storage::held_keys(self@.keys),
                storage::seq_view(lines@) == left_lines(self@.folders.take(i as int), keys),
        {
            let ghost before = storage::seq_view(lines@);
            let line = folder_label(&self.folders[i], &self.keys);
            lines.push(line);
            assert(storage::seq_view(lines@) =~= before.push(line@));
            assert(left_lines(self@.folders.take(i + 1), keys) =~= left_lines(
                self@.folders.take(i as int),
                keys,
            ).push(line@));
        }
        assert(self@.folders.take(self.folders@.len() as int) =~= self@.folders);
        lines
    }

    /// The details of the selected item, where one is selected.
    pub fn selected_details(&self) -> (r: Option<Vec<Detail>>)
        ensures
            storage::list_view(r) == if super::chosen(self@.middle) < self@.items().len() {
                Some(
                    details(
                        self@.items()[super::chosen(self@.middle) as int],
                        storage::held_keys(self@.keys),
                        self@.ssh_keys,
                        self@.mask,
                    ),
                )
            } else {
                None
            },
    {
        let items = self.get_filtered_ciphers();
        let ghost seen = items@.map_values(|c: &CipherSync| *c);
        let line: usize = match self.middle_selected {
            Some(line) => line,
            None => 0,
        };
        if line >= items.len() {
            return None;
        }
        assert(seen[line as int] == *items@[line as int]);
        Some(detail_lines(items[line], &self.keys, &self.decrypted_keys, self.mask_secrets))
    }

    /// The password as it is shown: a star for each of its bytes.
    pub fn masked_password(&self) -> (r: String)
        ensures
            r@ == text::repeated('*', encode_utf8(self@.password).len()),
    {
        text::repeat('*', self.password_input.as_str().as_bytes().len())
    }

    /// The line on the user and the server.
    pub fn user_info(&self, server_url: &str) -> (r: String)
        ensures
            r@ == " User: "@ + self@.email + " | Server: "@ + server_url@,
    {
        text::join3(&text::join2(" User: ", &self.email_input), " | Server: ", server_url)
    }

    /// The status message, or that there is none.
    pub fn status_text(&self) -> (r: String)
        ensures
            r@ == match self@.status {
                Some((message, _)) => message,
                None => "Ready"@,
            },
    {
        match &self.status_message {
            Some((message, _)) => message.clone(),
            None => "Ready".to_owned(),
        }
    }

    /// The keys that the screen takes.
    pub fn shortcut_text(&self) -> (r: &'static str)
        ensures
            r@ == match self@.state {
                super::Screen::Dashboard =>
                    " [Tab] Switch Pane | [/] Search | [o] Toggle Mask | [s] Sync | [l] Lock | [L] Logout | [q] Quit "@,
                super::Screen::Login =>
                    " [Tab] Next Input | [Enter] Submit | [Esc] Cancel / Exit "@,
                super::Screen::Lock => " [Enter] Unlock Vault | [Esc] Logout & Wipe Cache "@,
                super::Screen::Error(_) => " bitter SSH Client "@,
            },
    {
        match &self.state {
            AppState::Dashboard =>
                " [Tab] Switch Pane | [/] Search | [o] Toggle Mask | [s] Sync | [l] Lock | [L] Logout | [q] Quit ",
            AppState::Login => " [Tab] Next Input | [Enter] Submit | [Esc] Cancel / Exit ",
            AppState::Lock => " [Enter] Unlock Vault | [Esc] Logout & Wipe Cache ",
            AppState::Error(_) => " bitter SSH Client ",
        }
    }
}

// ---------------------------------------------------------------------------
// Laws
// ---------------------------------------------------------------------------
/// Without keys nothing of an item is shown but its stored name and its kind.
pub proof fn a_locked_vault_shows_no_contents(
    cipher: CipherSync,
    ssh_keys: Seq<storage::KeyTexts>,
    mask: bool,
)
    ensures
        details(cipher, None, ssh_keys, mask) == seq![
            DetailText::Title(stored_name(cipher)),
            DetailText::Kind("Type: "@ + kind_name(cipher.kind)),
            DetailText::Blank,
            DetailText::Warning("Locked (Master key missing)"@),
        ],
{
    assert(details(cipher, None, ssh_keys, mask) =~= seq![
        DetailText::Title(stored_name(cipher)),
        DetailText::Kind("Type: "@ + kind_name(cipher.kind)),
        DetailText::Blank,
        DetailText::Warning("Locked (Master key missing)"@),
    ]);
}

/// While secrets are masked, the line of a password is the same for every password.
pub proof fn masked_passwords_look_alike(
    a: LoginSync,
    b: LoginSync,
    own: Option<(Seq<u8>, Seq<u8>)>,
)
    requires
        a.username == b.username,
        a.uri == b.uri,
        a.password is Some,
        b.password is Some,
    ensures
        login_details(a, own, true) == login_details(b, own, true),
{
}

/// While secrets are masked, an SSH key that was found looks the same for every private key.
pub proof fn masked_keys_look_alike(a: storage::KeyTexts, b: storage::KeyTexts)
    ensures
        found_key_details(Some(a), true) == found_key_details(Some(b), true),
{
}

} // verus!
