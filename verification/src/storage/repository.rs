//! What each operation of the vault repository asks of the database, and what it makes of the
//! rows that the database gives back.
use vstd::prelude::*;
use vstd::string::*;

use super::tables::{
    AttachmentRow, CipherRow, FieldRow, FolderRow, LinkRow, LoginRow, MetadataRow,
    OrganizationRow, SessionRow, SshKeyRow, Statement, UserRow,
};
use super::Keys;
use crate::api::{
    AttachmentSync, CipherSync, FieldSync, FolderSync, LoginSync, MasterPasswordUnlockSync,
    OrganizationSync, ProfileSync, SshKeySync, SyncResponse, UserDecryptionSync,
};
use crate::config::{Config, Session};
use crate::crypto;
use crate::json;
use crate::primitives;
use crate::text;

verus! {

// ---------------------------------------------------------------------------
// Rows of an item
// ---------------------------------------------------------------------------
/// A flag as the tables hold it.
pub open spec fn flag(b: bool) -> i32 {
    if b {
        1
    } else {
        0
    }
}

fn flag_of(b: bool) -> (r: i32)
    ensures
        r == flag(b),
{
    if b {
        1
    } else {
        0
    }
}

/// The core row of an item.
pub open spec fn cipher_row(cipher: CipherSync, user_id: String) -> CipherRow {
    CipherRow {
        id: cipher.id,
        user_id,
        organization_id: cipher.organization_id,
        kind: cipher.kind,
        name: cipher.name,
        notes: cipher.notes,
        favorite: flag(cipher.favorite),
        reprompt: cipher.reprompt,
        organization_use_totp: flag(cipher.organization_use_totp),
        edit: flag(cipher.edit),
        view_password: flag(cipher.view_password),
        creation_date: cipher.creation_date,
        revision_date: cipher.revision_date,
        deleted_date: cipher.deleted_date,
        archived_date: cipher.archived_date,
        key: cipher.key,
        object: cipher.object,
        extra: cipher.extra,
    }
}

/// The row of a login.
pub open spec fn login_row(cipher_id: String, login: LoginSync) -> LoginRow {
    LoginRow { cipher_id, username: login.username, password: login.password, uri: login.uri }
}

/// The row of an SSH key.
pub open spec fn ssh_key_row(cipher_id: String, key: SshKeySync) -> SshKeyRow {
    SshKeyRow { cipher_id, private_key: key.private_key, public_key: key.public_key }
}

/// The row of a field.
pub open spec fn field_row(cipher_id: String, field: FieldSync) -> FieldRow {
    FieldRow { cipher_id, name: field.name, value: field.value, kind: field.kind }
}

/// The row of an attachment.
pub open spec fn attachment_row(cipher_id: String, attachment: AttachmentSync) -> AttachmentRow {
    AttachmentRow {
        id: attachment.id,
        cipher_id,
        file_name: attachment.file_name,
        size: attachment.size,
    }
}

// ---------------------------------------------------------------------------
// Saving an item
// ---------------------------------------------------------------------------
/// Puts in the core row of an item and takes out what belonged to it before.
pub open spec fn core_plan(cipher: CipherSync, user_id: String) -> Seq<Statement> {
    seq![
        Statement::ReplaceCipher(cipher_row(cipher, user_id)),
        Statement::DeleteLogins(cipher.id),
        Statement::DeleteSshKeys(cipher.id),
        Statement::DeleteFields(cipher.id),
        Statement::DeleteAttachments(cipher.id),
        Statement::DeleteLinks(cipher.id),
    ]
}

/// Puts in the login of an item.
pub open spec fn login_plan(cipher: CipherSync) -> Seq<Statement> {
    match cipher.login {
        Some(login) => seq![Statement::InsertLogin(login_row(cipher.id, login))],
        None => Seq::empty(),
    }
}

/// Puts in the SSH key of an item.
pub open spec fn ssh_key_plan(cipher: CipherSync) -> Seq<Statement> {
    match cipher.ssh_key {
        Some(key) => seq![Statement::InsertSshKey(ssh_key_row(cipher.id, key))],
        None => Seq::empty(),
    }
}

/// The fields of an item.
pub open spec fn fields_of(cipher: CipherSync) -> Seq<FieldSync> {
    match cipher.fields {
        Some(fields) => fields@,
        None => Seq::empty(),
    }
}

/// The attachments of an item.
pub open spec fn attachments_of(cipher: CipherSync) -> Seq<AttachmentSync> {
    match cipher.attachments {
        Some(attachments) => attachments@,
        None => Seq::empty(),
    }
}

/// Puts in fields.
pub open spec fn fields_plan(id: String, fields: Seq<FieldSync>) -> Seq<Statement> {
    fields.map_values(|f: FieldSync| Statement::InsertField(field_row(id, f)))
}

/// Puts in attachments.
pub open spec fn attachments_plan(id: String, attachments: Seq<AttachmentSync>) -> Seq<Statement> {
    attachments.map_values(|a: AttachmentSync| Statement::InsertAttachment(attachment_row(id, a)))
}

/// Puts an item into its folder.
pub open spec fn link_plan(cipher: CipherSync) -> Seq<Statement> {
    match cipher.folder_id {
        Some(folder_id) => seq![
            Statement::ReplaceLink(LinkRow { cipher_id: cipher.id, folder_id }),
        ],
        None => Seq::empty(),
    }
}

/// Saves an item: its core row, and everything that belongs to it in place of what did before.
pub open spec fn cipher_plan(cipher: CipherSync, user_id: String) -> Seq<Statement> {
    core_plan(cipher, user_id) + login_plan(cipher) + ssh_key_plan(cipher) + fields_plan(
        cipher.id,
        fields_of(cipher),
    ) + attachments_plan(cipher.id, attachments_of(cipher)) + link_plan(cipher)
}

/// Saves items, one behind the other.
pub open spec fn ciphers_plan(ciphers: Seq<CipherSync>, user_id: String) -> Seq<Statement>
    decreases ciphers.len(),
{
    if ciphers.len() == 0 {
        Seq::empty()
    } else {
        ciphers_plan(ciphers.drop_last(), user_id) + cipher_plan(ciphers.last(), user_id)
    }
}

fn make_cipher_row(cipher: &CipherSync, user_id: &String) -> (r: CipherRow)
    ensures
        r == cipher_row(*cipher, *user_id),
{
    CipherRow {
        id: cipher.id.clone(),
        user_id: user_id.clone(),
        organization_id: text::copy_option(&cipher.organization_id),
        kind: cipher.kind,
        name: text::copy_option(&cipher.name),
        notes: text::copy_option(&cipher.notes),
        favorite: flag_of(cipher.favorite),
        reprompt: cipher.reprompt,
        organization_use_totp: flag_of(cipher.organization_use_totp),
        edit: flag_of(cipher.edit),
        view_password: flag_of(cipher.view_password),
        creation_date: cipher.creation_date.clone(),
        revision_date: cipher.revision_date.clone(),
        deleted_date: text::copy_option(&cipher.deleted_date),
        archived_date: text::copy_option(&cipher.archived_date),
        key: text::copy_option(&cipher.key),
        object: cipher.object.clone(),
        extra: cipher.extra.clone(),
    }
}

fn push_core(cipher: &CipherSync, user_id: &String, plan: &mut Vec<Statement>)
    ensures
        final(plan)@ == old(plan)@ + core_plan(*cipher, *user_id),
{
    plan.push(Statement::ReplaceCipher(make_cipher_row(cipher, user_id)));
    plan.push(Statement::DeleteLogins(cipher.id.clone()));
    plan.push(Statement::DeleteSshKeys(cipher.id.clone()));
    plan.push(Statement::DeleteFields(cipher.id.clone()));
    plan.push(Statement::DeleteAttachments(cipher.id.clone()));
    plan.push(Statement::DeleteLinks(cipher.id.clone()));
    assert(plan@ =~= old(plan)@ + core_plan(*cipher, *user_id));
}

fn push_parts(cipher: &CipherSync, plan: &mut Vec<Statement>)
    ensures
        final(plan)@ == old(plan)@ + login_plan(*cipher) + ssh_key_plan(*cipher),
{
    match &cipher.login {
        Some(login) => {
            plan.push(
                Statement::InsertLogin(
                    LoginRow {
                        cipher_id: cipher.id.clone(),
                        username: text::copy_option(&login.username),
                        password: text::copy_option(&login.password),
                        uri: text::copy_option(&login.uri),
                    },
                ),
            );
        },
        None => {},
    }
    assert(plan@ =~= old(plan)@ + login_plan(*cipher));
    let ghost before = plan@;
    match &cipher.ssh_key {
        Some(key) => {
            plan.push(
                Statement::InsertSshKey(
                    SshKeyRow {
                        cipher_id: cipher.id.clone(),
                        private_key: text::copy_option(&key.private_key),
                        public_key: text::copy_option(&key.public_key),
                    },
                ),
            );
        },
        None => {},
    }
    assert(plan@ =~= before + ssh_key_plan(*cipher));
}

fn push_fields(id: &String, fields: &Vec<FieldSync>, plan: &mut Vec<Statement>)
    ensures
        final(plan)@ == old(plan)@ + fields_plan(*id, fields@),
{
    let ghost whole = fields_plan(*id, fields@);
    assert(plan@ =~= old(plan)@ + whole.take(0));
    for i in 0..fields.len()
        invariant
            whole == fields_plan(*id, fields@),
            plan@ == old(plan)@ + whole.take(i as int),
    {
        let field = &fields[i];
        plan.push(
            Statement::InsertField(
                FieldRow {
                    cipher_id: id.clone(),
                    name: field.name.clone(),
                    value: text::copy_option(&field.value),
                    kind: field.kind,
                },
            ),
        );
        assert(plan@ =~= old(plan)@ + whole.take(i + 1));
    }
    assert(whole.take(fields@.len() as int) =~= whole);
}

fn push_attachments(id: &String, attachments: &Vec<AttachmentSync>, plan: &mut Vec<Statement>)
    ensures
        final(plan)@ == old(plan)@ + attachments_plan(*id, attachments@),
{
    let ghost whole = attachments_plan(*id, attachments@);
    assert(plan@ =~= old(plan)@ + whole.take(0));
    for i in 0..attachments.len()
        invariant
            whole == attachments_plan(*id, attachments@),
            plan@ == old(plan)@ + whole.take(i as int),
    {
        let attachment = &attachments[i];
        plan.push(
            Statement::InsertAttachment(
                AttachmentRow {
                    id: attachment.id.clone(),
                    cipher_id: id.clone(),
                    file_name: text::copy_option(&attachment.file_name),
                    size: attachment.size,
                },
            ),
        );
        assert(plan@ =~= old(plan)@ + whole.take(i + 1));
    }
    assert(whole.take(attachments@.len() as int) =~= whole);
}

#[verifier::rlimit(50)]
#[verifier::spinoff_prover]
fn push_cipher(cipher: &CipherSync, user_id: &String, plan: &mut Vec<Statement>)
    ensures
        final(plan)@ == old(plan)@ + cipher_plan(*cipher, *user_id),
{
    push_core(cipher, user_id, plan);
    push_parts(cipher, plan);
    let ghost with_parts = plan@;
    match &cipher.fields {
        Some(fields) => {
            push_fields(&cipher.id, fields, plan);
        },
        None => {},
    }
    assert(plan@ =~= with_parts + fields_plan(cipher.id, fields_of(*cipher)));
    let ghost with_fields = plan@;
    match &cipher.attachments {
        Some(attachments) => {
            push_attachments(&cipher.id, attachments, plan);
        },
        None => {},
    }
    assert(plan@ =~= with_fields + attachments_plan(cipher.id, attachments_of(*cipher)));
    let ghost with_attachments = plan@;
    match &cipher.folder_id {
        Some(folder_id) => {
            plan.push(
                Statement::ReplaceLink(
                    LinkRow { cipher_id: cipher.id.clone(), folder_id: folder_id.clone() },
                ),
            );
        },
        None => {},
    }
    assert(plan@ =~= with_attachments + link_plan(*cipher));
    assert(plan@ =~= old(plan)@ + cipher_plan(*cipher, *user_id));
}

// ---------------------------------------------------------------------------
// Saving the whole vault
// ---------------------------------------------------------------------------
/// Empties the vault tables.
pub open spec fn wipe_plan() -> Seq<Statement> {
    seq![
        Statement::ClearUsers,
        Statement::ClearOrganizations,
        Statement::ClearFolders,
        Statement::ClearCiphers,
        Statement::ClearMetadata,
    ]
}

/// The row of the user.
pub open spec fn user_row(profile: ProfileSync) -> UserRow {
    UserRow {
        id: profile.id,
        email: profile.email,
        email_verified: flag(profile.email_verified),
        name: profile.name,
        premium: flag(profile.premium),
        premium_from_organization: flag(profile.premium_from_organization),
        private_key: profile.private_key,
        public_key: profile.public_key,
        security_stamp: profile.security_stamp,
        two_factor_enabled: flag(profile.two_factor_enabled),
        uses_key_connector: flag(profile.uses_key_connector),
        culture: profile.culture,
        creation_date: profile.creation_date,
        avatar_color: profile.avatar_color,
        force_password_reset: flag(profile.force_password_reset),
        key: profile.key,
        status: profile._status,
        extra: profile.extra,
    }
}

/// The row of an organization.
pub open spec fn organization_row(org: OrganizationSync) -> OrganizationRow {
    OrganizationRow { id: org.id, name: org.name, key: org.key, object: org.object }
}

/// The row of a folder.
pub open spec fn folder_row(folder: FolderSync, user_id: String) -> FolderRow {
    FolderRow {
        id: folder.id,
        user_id,
        name: folder.name,
        object: folder.object,
        revision_date: folder.revision_date,
    }
}

/// The organizations of a vault.
pub open spec fn organizations_of(sync: SyncResponse) -> Seq<OrganizationSync> {
    match sync.profile.organizations {
        Some(orgs) => orgs@,
        None => Seq::empty(),
    }
}

/// The folders of a vault.
pub open spec fn folders_of(sync: SyncResponse) -> Seq<FolderSync> {
    match sync.folders {
        Some(folders) => folders@,
        None => Seq::empty(),
    }
}

/// Puts in organizations.
pub open spec fn organizations_plan(orgs: Seq<OrganizationSync>) -> Seq<Statement> {
    orgs.map_values(|o: OrganizationSync| Statement::InsertOrganization(organization_row(o)))
}

/// Puts in folders.
pub open spec fn folders_plan(folders: Seq<FolderSync>, user_id: String) -> Seq<Statement> {
    folders.map_values(|f: FolderSync| Statement::InsertFolder(folder_row(f, user_id)))
}

/// What the vault says of itself as a whole.
pub open spec fn metadata_row(sync: SyncResponse) -> MetadataRow {
    MetadataRow {
        domains: sync.domains,
        policies: sync.policies,
        sends: sync.sends,
        object: sync.object,
        unlock: match sync.user_decryption {
            Some(options) => Some(options.master_password_unlock),
            None => None,
        },
        extra: sync.extra,
    }
}

/// Saves a whole vault in place of whatever the tables held.
pub open spec fn sync_plan(sync: SyncResponse) -> Seq<Statement> {
    wipe_plan() + seq![Statement::InsertUser(user_row(sync.profile))] + organizations_plan(
        organizations_of(sync),
    ) + folders_plan(folders_of(sync), sync.profile.id) + seq![
        Statement::ReplaceMetadata(metadata_row(sync)),
    ] + ciphers_plan(sync.ciphers@, sync.profile.id)
}

fn push_wipe(plan: &mut Vec<Statement>)
    ensures
        final(plan)@ == old(plan)@ + wipe_plan(),
{
    plan.push(Statement::ClearUsers);
    plan.push(Statement::ClearOrganizations);
    plan.push(Statement::ClearFolders);
    plan.push(Statement::ClearCiphers);
    plan.push(Statement::ClearMetadata);
    assert(plan@ =~= old(plan)@ + wipe_plan());
}

fn make_user_row(profile: &ProfileSync) -> (r: UserRow)
    ensures
        r == user_row(*profile),
{
    UserRow {
        id: profile.id.clone(),
        email: profile.email.clone(),
        email_verified: flag_of(profile.email_verified),
        name: text::copy_option(&profile.name),
        premium: flag_of(profile.premium),
        premium_from_organization: flag_of(profile.premium_from_organization),
        private_key: text::copy_option(&profile.private_key),
        public_key: text::copy_option(&profile.public_key),
        security_stamp: text::copy_option(&profile.security_stamp),
        two_factor_enabled: flag_of(profile.two_factor_enabled),
        uses_key_connector: flag_of(profile.uses_key_connector),
        culture: profile.culture.clone(),
        creation_date: profile.creation_date.clone(),
        avatar_color: text::copy_option(&profile.avatar_color),
        force_password_reset: flag_of(profile.force_password_reset),
        key: profile.key.clone(),
        status: profile._status,
        extra: profile.extra.clone(),
    }
}

fn make_organization_row(org: &OrganizationSync) -> (r: OrganizationRow)
    ensures
        r == organization_row(*org),
{
    OrganizationRow {
        id: org.id.clone(),
        name: org.name.clone(),
        key: org.key.clone(),
        object: org.object.clone(),
    }
}

fn make_folder_row(folder: &FolderSync, user_id: &String) -> (r: FolderRow)
    ensures
        r == folder_row(*folder, *user_id),
{
    FolderRow {
        id: folder.id.clone(),
        user_id: user_id.clone(),
        name: folder.name.clone(),
        object: folder.object.clone(),
        revision_date: folder.revision_date.clone(),
    }
}

fn push_organizations(orgs: &Vec<OrganizationSync>, plan: &mut Vec<Statement>)
    ensures
        final(plan)@ == old(plan)@ + organizations_plan(orgs@),
{
    let ghost whole = organizations_plan(orgs@);
    assert(plan@ =~= old(plan)@ + whole.take(0));
    for i in 0..orgs.len()
        invariant
            whole == organizations_plan(orgs@),
            plan@ == old(plan)@ + whole.take(i as int),
    {
        plan.push(Statement::InsertOrganization(make_organization_row(&orgs[i])));
        assert(plan@ =~= old(plan)@ + whole.take(i + 1));
    }
    assert(whole.take(orgs@.len() as int) =~= whole);
}

fn push_folders(folders: &Vec<FolderSync>, user_id: &String, plan: &mut Vec<Statement>)
    ensures
        final(plan)@ == old(plan)@ + folders_plan(folders@, *user_id),
{
    let ghost whole = folders_plan(folders@, *user_id);
    assert(plan@ =~= old(plan)@ + whole.take(0));
    for i in 0..folders.len()
        invariant
            whole == folders_plan(folders@, *user_id),
            plan@ == old(plan)@ + whole.take(i as int),
    {
        plan.push(Statement::InsertFolder(make_folder_row(&folders[i], user_id)));
        assert(plan@ =~= old(plan)@ + whole.take(i + 1));
    }
    assert(whole.take(folders@.len() as int) =~= whole);
}

fn push_ciphers(ciphers: &Vec<CipherSync>, user_id: &String, plan: &mut Vec<Statement>)
    ensures
        final(plan)@ == old(plan)@ + ciphers_plan(ciphers@, *user_id),
{
    assert(ciphers@.take(0) =~= Seq::<CipherSync>::empty());
    assert(plan@ =~= old(plan)@ + ciphers_plan(ciphers@.take(0), *user_id));
    for i in 0..ciphers.len()
        invariant
            plan@ == old(plan)@ + ciphers_plan(ciphers@.take(i as int), *user_id),
    {
        let ghost before = plan@;
        push_cipher(&ciphers[i], user_id, plan);
        assert(ciphers@.take(i + 1).drop_last() =~= ciphers@.take(i as int));
        assert(plan@ =~= old(plan)@ + ciphers_plan(ciphers@.take(i + 1), *user_id));
    }
    assert(ciphers@.take(ciphers@.len() as int) =~= ciphers@);
}

fn make_metadata_row(sync: &SyncResponse) -> (r: MetadataRow)
    ensures
        r == metadata_row(*sync),
{
    MetadataRow {
        domains: text::copy_option(&sync.domains),
        policies: text::copy_option(&sync.policies),
        sends: text::copy_option(&sync.sends),
        object: sync.object.clone(),
        unlock: match &sync.user_decryption {
            Some(options) => match &options.master_password_unlock {
                Some(unlock) => Some(Some(unlock.clone())),
                None => Some(None),
            },
            None => None,
        },
        extra: sync.extra.clone(),
    }
}

// ---------------------------------------------------------------------------
// The rows that belong to an item
// ---------------------------------------------------------------------------
/// A row that belongs to an item.
pub trait Owned: Sized {
    /// The id of the item.
    spec fn owner(self) -> Seq<char>;

    /// Whether the row belongs to the item `id`.
    fn is_owned(&self, id: &str) -> (r: bool)
        ensures
            r == (self.owner() == id@),
    ;
}

impl Owned for LoginRow {
    open spec fn owner(self) -> Seq<char> {
        self.cipher_id@
    }

    fn is_owned(&self, id: &str) -> bool {
        text::same(&self.cipher_id, id)
    }
}

impl Owned for SshKeyRow {
    open spec fn owner(self) -> Seq<char> {
        self.cipher_id@
    }

    fn is_owned(&self, id: &str) -> bool {
        text::same(&self.cipher_id, id)
    }
}

impl Owned for FieldRow {
    open spec fn owner(self) -> Seq<char> {
        self.cipher_id@
    }

    fn is_owned(&self, id: &str) -> bool {
        text::same(&self.cipher_id, id)
    }
}

impl Owned for AttachmentRow {
    open spec fn owner(self) -> Seq<char> {
        self.cipher_id@
    }

    fn is_owned(&self, id: &str) -> bool {
        text::same(&self.cipher_id, id)
    }
}

impl Owned for LinkRow {
    open spec fn owner(self) -> Seq<char> {
        self.cipher_id@
    }

    fn is_owned(&self, id: &str) -> bool {
        text::same(&self.cipher_id, id)
    }
}

/// The last of the rows that belong to the item `id`.
pub open spec fn last_owned<R: Owned>(rows: Seq<R>, id: Seq<char>) -> Option<R>
    decreases rows.len(),
{
    if rows.len() == 0 {
        None
    } else if rows.last().owner() == id {
        Some(rows.last())
    } else {
        last_owned(rows.drop_last(), id)
    }
}

/// The rows that belong to the item `id`, in order.
pub open spec fn all_owned<R: Owned>(rows: Seq<R>, id: Seq<char>) -> Seq<R>
    decreases rows.len(),
{
    if rows.len() == 0 {
        Seq::empty()
    } else if rows.last().owner() == id {
        all_owned(rows.drop_last(), id).push(rows.last())
    } else {
        all_owned(rows.drop_last(), id)
    }
}

/// Finds the last of the rows that belong to the item `id`.
fn find_last_owned<'a, R: Owned>(rows: &'a Vec<R>, id: &str) -> (r: Option<&'a R>)
    ensures
        last_owned(rows@, id@) == match r {
            Some(row) => Some(*row),
            None => None,
        },
{
    let mut i: usize = rows.len();
    assert(rows@.take(i as int) =~= rows@);
    while i > 0
        invariant
            i <= rows@.len(),
            last_owned(rows@, id@) == last_owned(rows@.take(i as int), id@),
        decreases i,
    {
        let row = &rows[i - 1];
        assert(rows@.take(i as int).drop_last() =~= rows@.take(i - 1));
        if row.is_owned(id) {
            return Some(row);
        }
        i = i - 1;
    }
    None
}

/// A field as its row holds it.
pub open spec fn field_of(row: FieldRow) -> FieldSync {
    FieldSync { name: row.name, value: row.value, kind: row.kind }
}

/// An attachment as its row holds it.
pub open spec fn attachment_of(row: AttachmentRow) -> AttachmentSync {
    AttachmentSync { id: row.id, file_name: row.file_name, size: row.size }
}

/// The fields of rows.
pub open spec fn fields_of_rows(rows: Seq<FieldRow>) -> Seq<FieldSync> {
    rows.map_values(|row: FieldRow| field_of(row))
}

/// The attachments of rows.
pub open spec fn attachments_of_rows(rows: Seq<AttachmentRow>) -> Seq<AttachmentSync> {
    rows.map_values(|row: AttachmentRow| attachment_of(row))
}

fn collect_fields(rows: &Vec<FieldRow>, id: &str) -> (r: Vec<FieldSync>)
    ensures
        r@ == fields_of_rows(all_owned(rows@, id@)),
{
    let mut out: Vec<FieldSync> = Vec::new();
    assert(rows@.take(0) =~= Seq::<FieldRow>::empty());
    assert(out@ =~= fields_of_rows(all_owned(rows@.take(0), id@)));
    for i in 0..rows.len()
        invariant
            out@ == fields_of_rows(all_owned(rows@.take(i as int), id@)),
    {
        let row = &rows[i];
        assert(rows@.take(i + 1).drop_last() =~= rows@.take(i as int));
        if row.is_owned(id) {
            out.push(
                FieldSync {
                    name: row.name.clone(),
                    value: text::copy_option(&row.value),
                    kind: row.kind,
                },
            );
        }
        assert(out@ =~= fields_of_rows(all_owned(rows@.take(i + 1), id@)));
    }
    assert(rows@.take(rows@.len() as int) =~= rows@);
    out
}

fn collect_attachments(rows: &Vec<AttachmentRow>, id: &str) -> (r: Vec<AttachmentSync>)
    ensures
        r@ == attachments_of_rows(all_owned(rows@, id@)),
{
    let mut out: Vec<AttachmentSync> = Vec::new();
    assert(rows@.take(0) =~= Seq::<AttachmentRow>::empty());
    assert(out@ =~= attachments_of_rows(all_owned(rows@.take(0), id@)));
    for i in 0..rows.len()
        invariant
            out@ == attachments_of_rows(all_owned(rows@.take(i as int), id@)),
    {
        let row = &rows[i];
        assert(rows@.take(i + 1).drop_last() =~= rows@.take(i as int));
        if row.is_owned(id) {
            out.push(
                AttachmentSync {
                    id: row.id.clone(),
                    file_name: text::copy_option(&row.file_name),
                    size: row.size,
                },
            );
        }
        assert(out@ =~= attachments_of_rows(all_owned(rows@.take(i + 1), id@)));
    }
    assert(rows@.take(rows@.len() as int) =~= rows@);
    out
}

// ---------------------------------------------------------------------------
// Assembling items
// ---------------------------------------------------------------------------
/// The rows from which items are assembled.
#[derive(Debug)]
pub struct CipherRows {
    pub ciphers: Vec<CipherRow>,
    pub logins: Vec<LoginRow>,
    pub ssh_keys: Vec<SshKeyRow>,
    pub fields: Vec<FieldRow>,
    pub attachments: Vec<AttachmentRow>,
    pub links: Vec<LinkRow>,
}

/// A stored JSON object; what is none counts as empty.
pub open spec fn object_text(s: Seq<char>) -> Seq<char> {
    if json::json_object_ok(s) {
        s
    } else {
        "{}"@
    }
}

/// Reads a stored JSON object.
fn read_object(s: &String) -> (r: String)
    ensures
        r@ == object_text(s@),
{
    if json::is_json_object(s) {
        s.clone()
    } else {
        "{}".to_owned()
    }
}

/// A list of which an empty one is not kept.
pub open spec fn is_list<T>(list: Option<Vec<T>>, items: Seq<T>) -> bool {
    match list {
        Some(list) => items.len() > 0 && list@ == items,
        None => items.len() == 0,
    }
}

fn nonempty<T>(items: Vec<T>) -> (r: Option<Vec<T>>)
    ensures
        is_list(r, items@),
{
    if items.len() == 0 {
        None
    } else {
        Some(items)
    }
}

/// A login as its row holds it.
pub open spec fn login_of(row: Option<LoginRow>) -> Option<LoginSync> {
    match row {
        Some(row) => Some(
            LoginSync { username: row.username, password: row.password, uri: row.uri },
        ),
        None => None,
    }
}

/// An SSH key as its row holds it.
pub open spec fn ssh_key_of(row: Option<SshKeyRow>) -> Option<SshKeySync> {
    match row {
        Some(row) => Some(
            SshKeySync { private_key: row.private_key, public_key: row.public_key },
        ),
        None => None,
    }
}

/// A folder as its link holds it.
pub open spec fn folder_of(row: Option<LinkRow>) -> Option<String> {
    match row {
        Some(row) => Some(row.folder_id),
        None => None,
    }
}

/// `cipher` is the item that its rows make. What the tables do not hold is missing.
pub open spec fn is_assembled(
    cipher: CipherSync,
    row: CipherRow,
    login: Option<LoginRow>,
    ssh_key: Option<SshKeyRow>,
    fields: Seq<FieldRow>,
    attachments: Seq<AttachmentRow>,
    link: Option<LinkRow>,
) -> bool {
    &&& cipher.id == row.id
    &&& cipher.organization_id == row.organization_id
    &&& cipher.folder_id == folder_of(link)
    &&& cipher.kind == row.kind
    &&& cipher.name == row.name
    &&& cipher.notes == row.notes
    &&& cipher.favorite == (row.favorite != 0)
    &&& cipher.reprompt == row.reprompt
    &&& cipher.organization_use_totp == (row.organization_use_totp != 0)
    &&& cipher.edit == (row.edit != 0)
    &&& cipher.view_password == (row.view_password != 0)
    &&& cipher.creation_date == row.creation_date
    &&& cipher.revision_date == row.revision_date
    &&& cipher.deleted_date == row.deleted_date
    &&& cipher.archived_date == row.archived_date
    &&& cipher.key == row.key
    &&& cipher.login == login_of(login)
    &&& cipher.ssh_key == ssh_key_of(ssh_key)
    &&& is_list(cipher.fields, fields_of_rows(fields))
    &&& is_list(cipher.attachments, attachments_of_rows(attachments))
    &&& cipher.object == row.object
    &&& cipher.extra@ == object_text(row.extra@)
    &&& cipher.card is None
    &&& cipher.identity is None
    &&& cipher.secure_note is None
    &&& cipher.collection_ids is None
    &&& cipher.password_history is None
    &&& cipher.permissions is None
}

/// `cipher` is the item that `row` and the rows that belong to it make.
pub open spec fn is_assembled_from(cipher: CipherSync, row: CipherRow, rows: CipherRows) -> bool {
    is_assembled(
        cipher,
        row,
        last_owned(rows.logins@, row.id@),
        last_owned(rows.ssh_keys@, row.id@),
        all_owned(rows.fields@, row.id@),
        all_owned(rows.attachments@, row.id@),
        last_owned(rows.links@, row.id@),
    )
}

/// Makes an item of its row and the rows that belong to it.
fn assemble(row: &CipherRow, rows: &CipherRows) -> (r: CipherSync)
    ensures
        is_assembled_from(r, *row, *rows),
{
    let login = match find_last_owned(&rows.logins, &row.id) {
        Some(login) => Some(
            LoginSync {
                username: text::copy_option(&login.username),
                password: text::copy_option(&login.password),
                uri: text::copy_option(&login.uri),
            },
        ),
        None => None,
    };
    let ssh_key = match find_last_owned(&rows.ssh_keys, &row.id) {
        Some(key) => Some(
            SshKeySync {
                private_key: text::copy_option(&key.private_key),
                public_key: text::copy_option(&key.public_key),
            },
        ),
        None => None,
    };
    let folder_id = match find_last_owned(&rows.links, &row.id) {
        Some(link) => Some(link.folder_id.clone()),
        None => None,
    };
    CipherSync {
        id: row.id.clone(),
        organization_id: text::copy_option(&row.organization_id),
        folder_id,
        kind: row.kind,
        name: text::copy_option(&row.name),
        notes: text::copy_option(&row.notes),
        favorite: row.favorite != 0,
        reprompt: row.reprompt,
        organization_use_totp: row.organization_use_totp != 0,
        edit: row.edit != 0,
        view_password: row.view_password != 0,
        creation_date: row.creation_date.clone(),
        revision_date: row.revision_date.clone(),
        deleted_date: text::copy_option(&row.deleted_date),
        archived_date: text::copy_option(&row.archived_date),
        key: text::copy_option(&row.key),
        login,
        card: None,
        identity: None,
        secure_note: None,
        ssh_key,
        fields: nonempty(collect_fields(&rows.fields, &row.id)),
        attachments: nonempty(collect_attachments(&rows.attachments, &row.id)),
        collection_ids: None,
        password_history: None,
        permissions: None,
        object: row.object.clone(),
        extra: read_object(&row.extra),
    }
}

/// The first row of the item `id`.
pub open spec fn first_row(rows: Seq<CipherRow>, id: Seq<char>) -> Option<CipherRow>
    decreases rows.len(),
{
    if rows.len() == 0 {
        None
    } else if rows[0].id@ == id {
        Some(rows[0])
    } else {
        first_row(rows.drop_first(), id)
    }
}

/// The number of items of a user that were not deleted.
pub open spec fn live_count(rows: Seq<CipherRow>, user_id: Seq<char>) -> nat
    decreases rows.len(),
{
    if rows.len() == 0 {
        0
    } else {
        live_count(rows.drop_last(), user_id) + if rows.last().user_id@ == user_id
            && rows.last().deleted_date is None {
            1nat
        } else {
            0nat
        }
    }
}

// ---------------------------------------------------------------------------
// Assembling the vault
// ---------------------------------------------------------------------------
/// The rows from which the vault is assembled; the row of the user, or why there is none.
#[derive(Debug)]
pub struct VaultRows {
    pub user: Result<UserRow, String>,
    pub organizations: Vec<OrganizationRow>,
    pub folders: Vec<FolderRow>,
    pub items: CipherRows,
    pub metadata: Option<MetadataRow>,
}

/// An organization as its row holds it; the other members are not kept.
pub open spec fn is_organization(org: OrganizationSync, row: OrganizationRow) -> bool {
    &&& org.id == row.id
    &&& org.name == row.name
    &&& org.key == row.key
    &&& org.object == row.object
    &&& org.extra@ == "{}"@
}

/// The organizations as their rows hold them; none where there are no rows.
pub open spec fn are_organizations(
    orgs: Option<Vec<OrganizationSync>>,
    rows: Seq<OrganizationRow>,
) -> bool {
    match orgs {
        None => rows.len() == 0,
        Some(orgs) => {
            &&& rows.len() > 0
            &&& orgs@.len() == rows.len()
            &&& forall|i: int| 0 <= i < rows.len() ==> is_organization(#[trigger] orgs@[i], rows[i])
        },
    }
}

/// A folder as its row holds it.
pub open spec fn folder_of_row(row: FolderRow) -> FolderSync {
    FolderSync {
        id: row.id,
        name: row.name,
        object: row.object,
        revision_date: row.revision_date,
    }
}

/// The folders as their rows hold them.
pub open spec fn folders_of_rows(rows: Seq<FolderRow>) -> Seq<FolderSync> {
    rows.map_values(|row: FolderRow| folder_of_row(row))
}

/// `profile` is what the row of the user and those of the organizations make.
pub open spec fn is_profile(
    profile: ProfileSync,
    row: UserRow,
    orgs: Seq<OrganizationRow>,
) -> bool {
    &&& profile.id == row.id
    &&& profile.email == row.email
    &&& profile.email_verified == (row.email_verified != 0)
    &&& profile.name == row.name
    &&& profile.premium == (row.premium != 0)
    &&& profile.premium_from_organization == (row.premium_from_organization != 0)
    &&& profile.private_key == row.private_key
    &&& profile.public_key == row.public_key
    &&& profile.security_stamp == row.security_stamp
    &&& profile.two_factor_enabled == (row.two_factor_enabled != 0)
    &&& profile.uses_key_connector == (row.uses_key_connector != 0)
    &&& profile.culture == row.culture
    &&& profile.creation_date == row.creation_date
    &&& profile.avatar_color == row.avatar_color
    &&& profile.force_password_reset == (row.force_password_reset != 0)
    &&& profile.key == row.key
    &&& are_organizations(profile.organizations, orgs)
    &&& profile.provider_organizations is None
    &&& profile.providers is None
    &&& profile._status == row.status
    &&& profile.object@ == "profile"@
    &&& profile.extra@ == object_text(row.extra@)
}

/// A stored JSON value, where there is one.
pub open spec fn value_of(s: Option<String>) -> Option<Seq<char>> {
    match s {
        Some(s) => if json::json_value_ok(s@) {
            Some(s@)
        } else {
            None
        },
        None => None,
    }
}

/// A stored JSON array, where there is one.
pub open spec fn array_of(s: Option<String>) -> Option<Seq<char>> {
    match s {
        Some(s) => if json::json_array_ok(s@) {
            Some(s@)
        } else {
            None
        },
        None => None,
    }
}

/// The unlock data of the row, under the options that hold it.
pub open spec fn unlock_of(unlock: Option<Option<MasterPasswordUnlockSync>>) -> Option<
    UserDecryptionSync,
> {
    match unlock {
        Some(Some(unlock)) => Some(UserDecryptionSync { master_password_unlock: Some(unlock) }),
        _ => None,
    }
}

/// `sync` says of itself as a whole what the row of `sync_metadata` holds.
pub open spec fn has_metadata(sync: SyncResponse, row: Option<MetadataRow>) -> bool {
    match row {
        Some(row) => {
            &&& text::option_view(sync.domains) == value_of(row.domains)
            &&& text::option_view(sync.policies) == array_of(row.policies)
            &&& text::option_view(sync.sends) == array_of(row.sends)
            &&& sync.object == row.object
            &&& sync.user_decryption == unlock_of(row.unlock)
            &&& sync.extra@ == object_text(row.extra@)
        },
        None => {
            &&& sync.domains is None
            &&& sync.policies is None
            &&& sync.sends is None
            &&& sync.object@ == "sync"@
            &&& sync.user_decryption is None
            &&& sync.extra@ == "{}"@
        },
    }
}

/// `ciphers` are the items that rows make, one for each core row.
pub open spec fn are_ciphers(ciphers: Seq<CipherSync>, rows: CipherRows) -> bool {
    &&& ciphers.len() == rows.ciphers@.len()
    &&& forall|i: int|
        0 <= i < ciphers.len() ==> is_assembled_from(#[trigger] ciphers[i], rows.ciphers@[i], rows)
}

/// `sync` is the vault that rows make.
pub open spec fn is_vault(sync: SyncResponse, user: UserRow, rows: VaultRows) -> bool {
    &&& is_profile(sync.profile, user, rows.organizations@)
    &&& are_ciphers(sync.ciphers@, rows.items)
    &&& is_list(sync.folders, folders_of_rows(rows.folders@))
    &&& has_metadata(sync, rows.metadata)
}

fn read_organizations(rows: &Vec<OrganizationRow>) -> (r: Option<Vec<OrganizationSync>>)
    ensures
        are_organizations(r, rows@),
{
    if rows.len() == 0 {
        return None;
    }
    let mut out: Vec<OrganizationSync> = Vec::new();
    for i in 0..rows.len()
        invariant
            out@.len() == i,
            forall|j: int| 0 <= j < i ==> is_organization(#[trigger] out@[j], rows@[j]),
    {
        let row = &rows[i];
        out.push(
            OrganizationSync {
                id: row.id.clone(),
                name: row.name.clone(),
                key: row.key.clone(),
                object: row.object.clone(),
                extra: "{}".to_owned(),
            },
        );
    }
    Some(out)
}

fn read_profile(row: &UserRow, orgs: &Vec<OrganizationRow>) -> (r: ProfileSync)
    ensures
        is_profile(r, *row, orgs@),
{
    ProfileSync {
        id: row.id.clone(),
        email: row.email.clone(),
        email_verified: row.email_verified != 0,
        name: text::copy_option(&row.name),
        premium: row.premium != 0,
        premium_from_organization: row.premium_from_organization != 0,
        private_key: text::copy_option(&row.private_key),
        public_key: text::copy_option(&row.public_key),
        security_stamp: text::copy_option(&row.security_stamp),
        two_factor_enabled: row.two_factor_enabled != 0,
        uses_key_connector: row.uses_key_connector != 0,
        culture: row.culture.clone(),
        creation_date: row.creation_date.clone(),
        avatar_color: text::copy_option(&row.avatar_color),
        force_password_reset: row.force_password_reset != 0,
        key: row.key.clone(),
        organizations: read_organizations(orgs),
        provider_organizations: None,
        providers: None,
        _status: row.status,
        object: "profile".to_owned(),
        extra: read_object(&row.extra),
    }
}

fn read_value(s: &Option<String>) -> (r: Option<String>)
    ensures
        text::option_view(r) == value_of(*s),
{
    match s {
        Some(s) => if json::is_json_value(s) {
            Some(s.clone())
        } else {
            None
        },
        None => None,
    }
}

fn read_array(s: &Option<String>) -> (r: Option<String>)
    ensures
        text::option_view(r) == array_of(*s),
{
    match s {
        Some(s) => if json::is_json_array(s) {
            Some(s.clone())
        } else {
            None
        },
        None => None,
    }
}

fn read_unlock(unlock: &Option<Option<MasterPasswordUnlockSync>>) -> (r: Option<
    UserDecryptionSync,
>)
    ensures
        r == unlock_of(*unlock),
{
    match unlock {
        Some(Some(unlock)) => Some(
            UserDecryptionSync { master_password_unlock: Some(unlock.clone()) },
        ),
        _ => None,
    }
}

// ---------------------------------------------------------------------------
// The session
// ---------------------------------------------------------------------------
/// The row of a session. It holds no keys.
pub open spec fn session_row(session: Session) -> SessionRow {
    SessionRow {
        email: session.email,
        device_id: session.device_id,
        access_token: session.access_token,
        refresh_token: session.refresh_token,
        last_sync_time: session.last_sync_time,
        server_url: session.server_url,
        enc_key: None,
        mac_key: None,
    }
}

/// The session that a row holds, for the user in the vault and with the timeout of the
/// settings.
pub open spec fn session_of(row: SessionRow, user_id: Option<String>, config: Config) -> Session {
    Session {
        user_id,
        email: row.email,
        device_id: row.device_id,
        access_token: row.access_token,
        refresh_token: row.refresh_token,
        last_sync_time: row.last_sync_time,
        server_url: row.server_url,
        timeout: config.timeout,
        timeout_action: config.timeout_action,
    }
}

/// The keys that the session row holds in hexadecimal.
pub open spec fn saved_keys(enc: Option<Seq<char>>, mac: Option<Seq<char>>) -> Result<
    Option<(Seq<u8>, Seq<u8>)>,
    Seq<char>,
> {
    match (enc, mac) {
        (Some(enc), Some(mac)) => {
            if !primitives::is_hex(enc) {
                Err(primitives::hex_fault(enc))
            } else if !primitives::is_hex(mac) {
                Err(primitives::hex_fault(mac))
            } else {
                Ok(
                    key_pair(primitives::hex_decoded(enc), primitives::hex_decoded(mac)),
                )
            }
        },
        _ => Ok(None),
    }
}

/// A pair of keys, where both have 32 bytes.
pub open spec fn key_pair(enc: Seq<u8>, mac: Seq<u8>) -> Option<(Seq<u8>, Seq<u8>)> {
    if enc.len() == 32 && mac.len() == 32 {
        Some((enc, mac))
    } else {
        None
    }
}

/// Makes a pair of keys, where both have 32 bytes.
pub fn pair_keys(enc: &[u8], mac: &[u8]) -> (r: Option<Keys>)
    ensures
        (match r {
            Some(keys) => Some(crypto::keys_view(keys)),
            None => None,
        }) == key_pair(enc@, mac@),
{
    if enc.len() == 32 && mac.len() == 32 {
        let enc_key = crypto::array_at(enc, 0);
        let mac_key = crypto::array_at(mac, 0);
        assert(enc_key@ =~= enc@);
        assert(mac_key@ =~= mac@);
        Some((enc_key, mac_key))
    } else {
        None
    }
}

// ---------------------------------------------------------------------------
// The repository
// ---------------------------------------------------------------------------
/// The vault repository over the cache database. An operation that writes hands out the
/// statements to carry out in order; one that reads takes the rows that the queries gave.
#[derive(Debug)]
pub struct VaultRepository {}

impl VaultRepository {
    /// Gives a new database a session without a login, on a device with this id; a session that
    /// is there stays.
    pub fn init_session(device_id: String) -> (r: Statement)
        ensures
            r == Statement::InitSession(device_id),
    {
        Statement::InitSession(device_id)
    }

    /// Empties the vault and forgets the session, but not the device and the server.
    pub fn clear() -> (r: Vec<Statement>)
        ensures
            r@ == wipe_plan().push(Statement::ForgetSession),
    {
        let mut plan: Vec<Statement> = Vec::new();
        push_wipe(&mut plan);
        plan.push(Statement::ForgetSession);
        assert(plan@ =~= wipe_plan().push(Statement::ForgetSession));
        plan
    }

    /// Saves the session.
    pub fn save_session(session: &Session) -> (r: Statement)
        ensures
            r == Statement::ReplaceSession(session_row(*session)),
    {
        Statement::ReplaceSession(
            SessionRow {
                email: text::copy_option(&session.email),
                device_id: session.device_id.clone(),
                access_token: text::copy_option(&session.access_token),
                refresh_token: text::copy_option(&session.refresh_token),
                last_sync_time: text::copy_option(&session.last_sync_time),
                server_url: text::copy_option(&session.server_url),
                enc_key: None,
                mac_key: None,
            },
        )
    }

    /// The session that the row holds, where there is one.
    pub fn load_session(
        row: &Option<SessionRow>,
        user_id: &Option<String>,
        config: &Config,
    ) -> (r: Option<Session>)
        ensures
            r == match *row {
                Some(row) => Some(session_of(row, *user_id, *config)),
                None => None,
            },
    {
        match row {
            Some(row) => Some(
                Session {
                    user_id: text::copy_option(user_id),
                    email: text::copy_option(&row.email),
                    device_id: row.device_id.clone(),
                    access_token: text::copy_option(&row.access_token),
                    refresh_token: text::copy_option(&row.refresh_token),
                    last_sync_time: text::copy_option(&row.last_sync_time),
                    server_url: text::copy_option(&row.server_url),
                    timeout: config.timeout.clone(),
                    timeout_action: config.timeout_action,
                },
            ),
            None => None,
        }
    }

    /// Saves the user's keys, in hexadecimal.
    pub fn save_saved_keys(enc: &[u8; 32], mac: &[u8; 32]) -> (r: Statement)
        ensures
            r matches Statement::SaveKeys(e, m) && e@ == primitives::hex_encoded(enc@) && m@
                == primitives::hex_encoded(mac@),
    {
        Statement::SaveKeys(primitives::hex_encode(enc), primitives::hex_encode(mac))
    }

    /// The keys that the session row holds; none where one is missing or has not 32 bytes.
    pub fn load_saved_keys(row: &Option<SessionRow>) -> (r: Result<Option<Keys>, String>)
        ensures
            (match r {
                Ok(Some(keys)) => Ok(Some(crypto::keys_view(keys))),
                Ok(None) => Ok(None),
                Err(e) => Err(e@),
            }) == match *row {
                Some(row) => saved_keys(
                    text::option_view(row.enc_key),
                    text::option_view(row.mac_key),
                ),
                None => Ok(None),
            },
    {
        let row = match row {
            Some(row) => row,
            None => {
                return Ok(None);
            },
        };
        match (&row.enc_key, &row.mac_key) {
            (Some(enc), Some(mac)) => {
                let enc = match primitives::hex_decode(enc) {
                    Ok(enc) => enc,
                    Err(e) => {
                        return Err(e);
                    },
                };
                match primitives::hex_decode(mac) {
                    Ok(mac) => Ok(pair_keys(&enc, &mac)),
                    Err(e) => Err(e),
                }
            },
            _ => Ok(None),
        }
    }

    /// Forgets the saved keys.
    pub fn clear_saved_keys() -> (r: Statement)
        ensures
            r == Statement::ClearKeys,
    {
        Statement::ClearKeys
    }

    /// Saves an item.
    pub fn save_cipher(cipher: &CipherSync, user_id: &String) -> (r: Vec<Statement>)
        ensures
            r@ == cipher_plan(*cipher, *user_id),
    {
        let mut plan: Vec<Statement> = Vec::new();
        push_cipher(cipher, user_id, &mut plan);
        assert(plan@ =~= cipher_plan(*cipher, *user_id));
        plan
    }

    /// Deletes an item.
    pub fn delete_cipher(id: &String) -> (r: Statement)
        ensures
            r == Statement::DeleteCipher(*id),
    {
        Statement::DeleteCipher(id.clone())
    }

    /// Saves a folder.
    pub fn save_folder(folder: &FolderSync, user_id: &String) -> (r: Statement)
        ensures
            r == Statement::ReplaceFolder(folder_row(*folder, *user_id)),
    {
        Statement::ReplaceFolder(make_folder_row(folder, user_id))
    }

    /// Deletes a folder.
    pub fn delete_folder(id: &String) -> (r: Statement)
        ensures
            r == Statement::DeleteFolder(*id),
    {
        Statement::DeleteFolder(id.clone())
    }

    /// Saves an organization.
    pub fn save_organization(org: &OrganizationSync) -> (r: Statement)
        ensures
            r == Statement::ReplaceOrganization(organization_row(*org)),
    {
        Statement::ReplaceOrganization(make_organization_row(org))
    }

    /// The item `id`, where the rows hold it.
    pub fn get_cipher(rows: &CipherRows, id: &str) -> (r: Option<CipherSync>)
        ensures
            match first_row(rows.ciphers@, id@) {
                Some(row) => r matches Some(cipher) && is_assembled_from(cipher, row, *rows),
                None => r is None,
            },
    {
        assert(rows.ciphers@.skip(0) =~= rows.ciphers@);
        for i in 0..rows.ciphers.len()
            invariant
                first_row(rows.ciphers@, id@) == first_row(rows.ciphers@.skip(i as int), id@),
        {
            let row = &rows.ciphers[i];
            assert(rows.ciphers@.skip(i as int).drop_first() =~= rows.ciphers@.skip(i + 1));
            if text::same(&row.id, id) {
                return Some(assemble(row, rows));
            }
        }
        None
    }

    /// The items that the rows hold.
    pub fn list_ciphers(rows: &CipherRows) -> (r: Vec<CipherSync>)
        ensures
            are_ciphers(r@, *rows),
    {
        let mut out: Vec<CipherSync> = Vec::new();
        for i in 0..rows.ciphers.len()
            invariant
                out@.len() == i,
                forall|j: int|
                    0 <= j < i ==> is_assembled_from(#[trigger] out@[j], rows.ciphers@[j], *rows),
        {
            out.push(assemble(&rows.ciphers[i], rows));
        }
        out
    }

    /// The folders that the rows hold.
    pub fn list_folders(rows: &Vec<FolderRow>) -> (r: Vec<FolderSync>)
        ensures
            r@ == folders_of_rows(rows@),
    {
        let mut out: Vec<FolderSync> = Vec::new();
        let ghost whole = folders_of_rows(rows@);
        assert(out@ =~= whole.take(0));
        for i in 0..rows.len()
            invariant
                whole == folders_of_rows(rows@),
                out@ == whole.take(i as int),
        {
            let row = &rows[i];
            out.push(
                FolderSync {
                    id: row.id.clone(),
                    name: row.name.clone(),
                    object: row.object.clone(),
                    revision_date: row.revision_date.clone(),
                },
            );
            assert(out@ =~= whole.take(i + 1));
        }
        assert(whole.take(rows@.len() as int) =~= whole);
        out
    }

    /// The number of items of a user that were not deleted.
    pub fn count_non_deleted_ciphers(rows: &Vec<CipherRow>, user_id: &str) -> (r: usize)
        ensures
            r == live_count(rows@, user_id@),
    {
        let mut count: usize = 0;
        assert(rows@.take(0) =~= Seq::<CipherRow>::empty());
        for i in 0..rows.len()
            invariant
                count == live_count(rows@.take(i as int), user_id@),
                count <= i,
        {
            let row = &rows[i];
            assert(rows@.take(i + 1).drop_last() =~= rows@.take(i as int));
            if text::same(&row.user_id, user_id) && row.deleted_date.is_none() {
                count = count + 1;
            }
        }
        assert(rows@.take(rows@.len() as int) =~= rows@);
        count
    }

    /// Saves a whole vault in place of whatever the tables held.
    pub fn save_sync_response(sync: &SyncResponse) -> (r: Vec<Statement>)
        ensures
            r@ == sync_plan(*sync),
    {
        let mut plan: Vec<Statement> = Vec::new();
        push_wipe(&mut plan);
        plan.push(Statement::InsertUser(make_user_row(&sync.profile)));
        let ghost with_user = plan@;
        assert(with_user =~= wipe_plan() + seq![Statement::InsertUser(user_row(sync.profile))]);
        match &sync.profile.organizations {
            Some(orgs) => {
                push_organizations(orgs, &mut plan);
            },
            None => {},
        }
        let ghost with_orgs = plan@;
        assert(with_orgs =~= with_user + organizations_plan(organizations_of(*sync)));
        match &sync.folders {
            Some(folders) => {
                push_folders(folders, &sync.profile.id, &mut plan);
            },
            None => {},
        }
        let ghost with_folders = plan@;
        assert(with_folders =~= with_orgs + folders_plan(folders_of(*sync), sync.profile.id));
        plan.push(Statement::ReplaceMetadata(make_metadata_row(sync)));
        assert(plan@ =~= with_folders + seq![Statement::ReplaceMetadata(metadata_row(*sync))]);
        push_ciphers(&sync.ciphers, &sync.profile.id, &mut plan);
        plan
    }

    /// The vault that the rows hold, or why there is none.
    pub fn load_sync_response(rows: &VaultRows) -> (r: Result<SyncResponse, String>)
        ensures
            match rows.user {
                Ok(user) => r matches Ok(sync) && is_vault(sync, user, *rows),
                Err(e) => r matches Err(f) && f@ == "Failed to load user profile: "@ + e@,
            },
    {
        let user = match &rows.user {
            Ok(user) => user,
            Err(e) => {
                return Err(text::join2("Failed to load user profile: ", e));
            },
        };
        let profile = read_profile(user, &rows.organizations);
        let ciphers = Self::list_ciphers(&rows.items);
        let folders = nonempty(Self::list_folders(&rows.folders));
        match &rows.metadata {
            Some(row) => Ok(
                SyncResponse {
                    profile,
                    ciphers,
                    folders,
                    domains: read_value(&row.domains),
                    policies: read_array(&row.policies),
                    sends: read_array(&row.sends),
                    object: row.object.clone(),
                    user_decryption: read_unlock(&row.unlock),
                    extra: read_object(&row.extra),
                },
            ),
            None => Ok(
                SyncResponse {
                    profile,
                    ciphers,
                    folders,
                    domains: None,
                    policies: None,
                    sends: None,
                    object: "sync".to_owned(),
                    user_decryption: None,
                    extra: "{}".to_owned(),
                },
            ),
        }
    }
}

} // verus!
