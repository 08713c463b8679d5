//! The SQL of the cache database: its schema, the text of each statement with the values that
//! are bound to it, and the queries that read the tables.
use vstd::prelude::*;
use vstd::string::*;

use super::tables::Statement;
use crate::api::MasterPasswordUnlockSync;
use crate::text;

verus! {

// ---------------------------------------------------------------------------
// The schema
// ---------------------------------------------------------------------------
/// The tables.
pub const SCHEMA: &'static str = "
CREATE TABLE IF NOT EXISTS users (
    id TEXT PRIMARY KEY,
    email TEXT NOT NULL,
    email_verified INTEGER NOT NULL,
    name TEXT,
    premium INTEGER NOT NULL,
    premium_from_organization INTEGER NOT NULL,
    private_key TEXT,
    public_key TEXT,
    security_stamp TEXT,
    two_factor_enabled INTEGER NOT NULL,
    uses_key_connector INTEGER NOT NULL,
    culture TEXT,
    creation_date TEXT,
    avatar_color TEXT,
    force_password_reset INTEGER NOT NULL,
    key TEXT NOT NULL,
    _status INTEGER,
    extra TEXT
);

CREATE TABLE IF NOT EXISTS organizations (
    id TEXT PRIMARY KEY,
    name TEXT NOT NULL,
    key TEXT NOT NULL,
    object TEXT NOT NULL
);

CREATE TABLE IF NOT EXISTS folders (
    id TEXT PRIMARY KEY,
    user_id TEXT NOT NULL,
    name TEXT NOT NULL,
    object TEXT NOT NULL,
    revision_date TEXT NOT NULL,
    FOREIGN KEY(user_id) REFERENCES users(id) ON DELETE CASCADE
);

CREATE TABLE IF NOT EXISTS ciphers (
    id TEXT PRIMARY KEY,
    user_id TEXT NOT NULL,
    organization_id TEXT,
    type INTEGER NOT NULL,
    name TEXT,
    notes TEXT,
    favorite INTEGER NOT NULL,
    reprompt INTEGER NOT NULL,
    organization_use_totp INTEGER NOT NULL,
    edit INTEGER NOT NULL,
    view_password INTEGER NOT NULL,
    creation_date TEXT NOT NULL,
    revision_date TEXT NOT NULL,
    deleted_date TEXT,
    archived_date TEXT,
    key TEXT,
    object TEXT NOT NULL,
    extra TEXT,
    FOREIGN KEY(user_id) REFERENCES users(id) ON DELETE CASCADE,
    FOREIGN KEY(organization_id) REFERENCES organizations(id) ON DELETE SET NULL
);

CREATE TABLE IF NOT EXISTS cipher_logins (
    cipher_id TEXT PRIMARY KEY,
    username TEXT,
    password TEXT,
    uri TEXT,
    FOREIGN KEY(cipher_id) REFERENCES ciphers(id) ON DELETE CASCADE
);

CREATE TABLE IF NOT EXISTS cipher_ssh_keys (
    cipher_id TEXT PRIMARY KEY,
    private_key TEXT,
    public_key TEXT,
    FOREIGN KEY(cipher_id) REFERENCES ciphers(id) ON DELETE CASCADE
);

CREATE TABLE IF NOT EXISTS cipher_fields (
    id INTEGER PRIMARY KEY AUTOINCREMENT,
    cipher_id TEXT NOT NULL,
    name TEXT NOT NULL,
    value TEXT,
    type INTEGER NOT NULL,
    FOREIGN KEY(cipher_id) REFERENCES ciphers(id) ON DELETE CASCADE
);

CREATE TABLE IF NOT EXISTS attachments (
    id TEXT PRIMARY KEY,
    cipher_id TEXT NOT NULL,
    file_name TEXT,
    size INTEGER,
    FOREIGN KEY(cipher_id) REFERENCES ciphers(id) ON DELETE CASCADE
);

CREATE TABLE IF NOT EXISTS folders_ciphers (
    cipher_id TEXT,
    folder_id TEXT,
    PRIMARY KEY(cipher_id, folder_id),
    FOREIGN KEY(cipher_id) REFERENCES ciphers(id) ON DELETE CASCADE,
    FOREIGN KEY(folder_id) REFERENCES folders(id) ON DELETE CASCADE
);

CREATE TABLE IF NOT EXISTS sync_metadata (
    id INTEGER PRIMARY KEY CHECK (id = 1),
    domains TEXT,
    policies TEXT,
    sends TEXT,
    object TEXT NOT NULL,
    masterPasswordUnlock TEXT,
    extra TEXT
);

CREATE TABLE IF NOT EXISTS session_metadata (
    id INTEGER PRIMARY KEY CHECK (id = 1),
    email TEXT,
    device_id TEXT NOT NULL,
    access_token TEXT,
    refresh_token TEXT,
    last_sync_time TEXT,
    server_url TEXT,
    enc_key TEXT,
    mac_key TEXT
);
";

/// Has the database follow the references between tables.
pub const FOREIGN_KEYS: &'static str = "PRAGMA foreign_keys = ON;";

// ---------------------------------------------------------------------------
// The queries
// ---------------------------------------------------------------------------

pub const SELECT_USER: &'static str = "SELECT id, email, email_verified, name, premium, premium_from_organization, private_key, public_key, security_stamp, two_factor_enabled, uses_key_connector, culture, creation_date, avatar_color, force_password_reset, key, _status, extra FROM users LIMIT 1";

pub const SELECT_ORGANIZATIONS: &'static str = "SELECT id, name, key, object FROM organizations";

pub const SELECT_FOLDERS: &'static str = "SELECT id, user_id, name, object, revision_date FROM folders";

pub const SELECT_CIPHERS: &'static str = "SELECT id, user_id, organization_id, type, name, notes, favorite, reprompt, organization_use_totp, edit, view_password, creation_date, revision_date, deleted_date, archived_date, key, object, extra FROM ciphers";

pub const SELECT_LOGINS: &'static str = "SELECT cipher_id, username, password, uri FROM cipher_logins";

pub const SELECT_SSH_KEYS: &'static str = "SELECT cipher_id, private_key, public_key FROM cipher_ssh_keys";

pub const SELECT_FIELDS: &'static str = "SELECT cipher_id, name, value, type FROM cipher_fields ORDER BY id";

pub const SELECT_ATTACHMENTS: &'static str = "SELECT id, cipher_id, file_name, size FROM attachments";

pub const SELECT_LINKS: &'static str = "SELECT cipher_id, folder_id FROM folders_ciphers";

pub const SELECT_METADATA: &'static str = "SELECT domains, policies, sends, object, masterPasswordUnlock, extra FROM sync_metadata LIMIT 1";

pub const SELECT_SESSION: &'static str = "SELECT email, device_id, access_token, refresh_token, last_sync_time, server_url, enc_key, mac_key FROM session_metadata WHERE id = 1";

// ---------------------------------------------------------------------------
// The statements
// ---------------------------------------------------------------------------
pub const CLEAR_USERS: &'static str = "DELETE FROM users";

pub const CLEAR_ORGANIZATIONS: &'static str = "DELETE FROM organizations";

pub const CLEAR_FOLDERS: &'static str = "DELETE FROM folders";

pub const CLEAR_CIPHERS: &'static str = "DELETE FROM ciphers";

pub const CLEAR_METADATA: &'static str = "DELETE FROM sync_metadata";

pub const FORGET_SESSION: &'static str = "UPDATE session_metadata SET email = NULL, access_token = NULL, refresh_token = NULL, last_sync_time = NULL, enc_key = NULL, mac_key = NULL WHERE id = 1";

pub const INSERT_USER: &'static str = "INSERT INTO users (id, email, email_verified, name, premium, premium_from_organization, private_key, public_key, security_stamp, two_factor_enabled, uses_key_connector, culture, creation_date, avatar_color, force_password_reset, key, _status, extra) VALUES (?1, ?2, ?3, ?4, ?5, ?6, ?7, ?8, ?9, ?10, ?11, ?12, ?13, ?14, ?15, ?16, ?17, ?18)";

pub const INSERT_ORGANIZATION: &'static str = "INSERT INTO organizations (id, name, key, object) VALUES (?1, ?2, ?3, ?4)";

pub const REPLACE_ORGANIZATION: &'static str = "INSERT OR REPLACE INTO organizations (id, name, key, object) VALUES (?1, ?2, ?3, ?4)";

pub const INSERT_FOLDER: &'static str = "INSERT INTO folders (id, user_id, name, object, revision_date) VALUES (?1, ?2, ?3, ?4, ?5)";

pub const REPLACE_FOLDER: &'static str = "INSERT OR REPLACE INTO folders (id, user_id, name, object, revision_date) VALUES (?1, ?2, ?3, ?4, ?5)";

pub const DELETE_FOLDER: &'static str = "DELETE FROM folders WHERE id = ?1";

pub const REPLACE_CIPHER: &'static str = "INSERT OR REPLACE INTO ciphers (id, user_id, organization_id, type, name, notes, favorite, reprompt, organization_use_totp, edit, view_password, creation_date, revision_date, deleted_date, archived_date, key, object, extra) VALUES (?1, ?2, ?3, ?4, ?5, ?6, ?7, ?8, ?9, ?10, ?11, ?12, ?13, ?14, ?15, ?16, ?17, ?18)";

pub const DELETE_CIPHER: &'static str = "DELETE FROM ciphers WHERE id = ?1";

pub const DELETE_LOGINS: &'static str = "DELETE FROM cipher_logins WHERE cipher_id = ?1";

pub const DELETE_SSH_KEYS: &'static str = "DELETE FROM cipher_ssh_keys WHERE cipher_id = ?1";

pub const DELETE_FIELDS: &'static str = "DELETE FROM cipher_fields WHERE cipher_id = ?1";

pub const DELETE_ATTACHMENTS: &'static str = "DELETE FROM attachments WHERE cipher_id = ?1";

pub const DELETE_LINKS: &'static str = "DELETE FROM folders_ciphers WHERE cipher_id = ?1";

pub const INSERT_LOGIN: &'static str = "INSERT INTO cipher_logins (cipher_id, username, password, uri) VALUES (?1, ?2, ?3, ?4)";

pub const INSERT_SSH_KEY: &'static str = "INSERT INTO cipher_ssh_keys (cipher_id, private_key, public_key) VALUES (?1, ?2, ?3)";

pub const INSERT_FIELD: &'static str = "INSERT INTO cipher_fields (cipher_id, name, value, type) VALUES (?1, ?2, ?3, ?4)";

pub const INSERT_ATTACHMENT: &'static str = "INSERT INTO attachments (id, cipher_id, file_name, size) VALUES (?1, ?2, ?3, ?4)";

pub const REPLACE_LINK: &'static str = "INSERT OR REPLACE INTO folders_ciphers (cipher_id, folder_id) VALUES (?1, ?2)";

pub const REPLACE_METADATA: &'static str = "INSERT OR REPLACE INTO sync_metadata (id, domains, policies, sends, object, masterPasswordUnlock, extra) VALUES (1, ?1, ?2, ?3, ?4, ?5, ?6)";

pub const INIT_SESSION: &'static str = "INSERT OR IGNORE INTO session_metadata (id, device_id) VALUES (1, ?1)";

pub const REPLACE_SESSION: &'static str = "INSERT OR REPLACE INTO session_metadata (id, email, device_id, access_token, refresh_token, last_sync_time, server_url) VALUES (1, ?1, ?2, ?3, ?4, ?5, ?6)";

pub const SAVE_KEYS: &'static str = "UPDATE session_metadata SET enc_key = ?1, mac_key = ?2 WHERE id = 1";

pub const CLEAR_KEYS: &'static str = "UPDATE session_metadata SET enc_key = NULL, mac_key = NULL WHERE id = 1";

/// A value that is bound to a statement. A JSON text that is missing is bound as `null`;
/// unlock data is bound as its JSON text, or as an empty text where there is none.
#[derive(Debug)]
pub enum Cell {
    Null,
    Integer(i64),
    Text(String),
    Json(Option<String>),
    Unlock(Option<Option<MasterPasswordUnlockSync>>),
}

/// The text of a statement.
pub open spec fn statement_sql(statement: Statement) -> Seq<char> {
    match statement {
        Statement::ClearUsers => CLEAR_USERS@,
        Statement::ClearOrganizations => CLEAR_ORGANIZATIONS@,
        Statement::ClearFolders => CLEAR_FOLDERS@,
        Statement::ClearCiphers => CLEAR_CIPHERS@,
        Statement::ClearMetadata => CLEAR_METADATA@,
        Statement::ForgetSession => FORGET_SESSION@,
        Statement::InsertUser(_) => INSERT_USER@,
        Statement::InsertOrganization(_) => INSERT_ORGANIZATION@,
        Statement::ReplaceOrganization(_) => REPLACE_ORGANIZATION@,
        Statement::InsertFolder(_) => INSERT_FOLDER@,
        Statement::ReplaceFolder(_) => REPLACE_FOLDER@,
        Statement::DeleteFolder(_) => DELETE_FOLDER@,
        Statement::ReplaceCipher(_) => REPLACE_CIPHER@,
        Statement::DeleteCipher(_) => DELETE_CIPHER@,
        Statement::DeleteLogins(_) => DELETE_LOGINS@,
        Statement::DeleteSshKeys(_) => DELETE_SSH_KEYS@,
        Statement::DeleteFields(_) => DELETE_FIELDS@,
        Statement::DeleteAttachments(_) => DELETE_ATTACHMENTS@,
        Statement::DeleteLinks(_) => DELETE_LINKS@,
        Statement::InsertLogin(_) => INSERT_LOGIN@,
        Statement::InsertSshKey(_) => INSERT_SSH_KEY@,
        Statement::InsertField(_) => INSERT_FIELD@,
        Statement::InsertAttachment(_) => INSERT_ATTACHMENT@,
        Statement::ReplaceLink(_) => REPLACE_LINK@,
        Statement::ReplaceMetadata(_) => REPLACE_METADATA@,
        Statement::InitSession(_) => INIT_SESSION@,
        Statement::ReplaceSession(_) => REPLACE_SESSION@,
        Statement::SaveKeys(_, _) => SAVE_KEYS@,
        Statement::ClearKeys => CLEAR_KEYS@,
    }
}

/// An optional text as a bound value.
pub open spec fn optional_text(s: Option<String>) -> Cell {
    match s {
        Some(s) => Cell::Text(s),
        None => Cell::Null,
    }
}

/// An optional number as a bound value.
pub open spec fn optional_int(n: Option<i32>) -> Cell {
    match n {
        Some(n) => Cell::Integer(n as i64),
        None => Cell::Null,
    }
}

/// An optional number as a bound value.
pub open spec fn optional_long(n: Option<i64>) -> Cell {
    match n {
        Some(n) => Cell::Integer(n),
        None => Cell::Null,
    }
}

/// The values that are bound to a statement, in order.
pub open spec fn statement_cells(statement: Statement) -> Seq<Cell> {
    match statement {
        Statement::ClearUsers => Seq::empty(),
        Statement::ClearOrganizations => Seq::empty(),
        Statement::ClearFolders => Seq::empty(),
        Statement::ClearCiphers => Seq::empty(),
        Statement::ClearMetadata => Seq::empty(),
        Statement::ForgetSession => Seq::empty(),
        Statement::InsertUser(row) => seq![
            Cell::Text(row.id),
            Cell::Text(row.email),
            Cell::Integer(row.email_verified as i64),
            optional_text(row.name),
            Cell::Integer(row.premium as i64),
            Cell::Integer(row.premium_from_organization as i64),
            optional_text(row.private_key),
            optional_text(row.public_key),
            optional_text(row.security_stamp),
            Cell::Integer(row.two_factor_enabled as i64),
            Cell::Integer(row.uses_key_connector as i64),
            Cell::Text(row.culture),
            Cell::Text(row.creation_date),
            optional_text(row.avatar_color),
            Cell::Integer(row.force_password_reset as i64),
            Cell::Text(row.key),
            optional_int(row.status),
            Cell::Text(row.extra),
        ],
        Statement::InsertOrganization(row) => seq![
            Cell::Text(row.id),
            Cell::Text(row.name),
            Cell::Text(row.key),
            Cell::Text(row.object),
        ],
        Statement::ReplaceOrganization(row) => seq![
            Cell::Text(row.id),
            Cell::Text(row.name),
            Cell::Text(row.key),
            Cell::Text(row.object),
        ],
        Statement::InsertFolder(row) => seq![
            Cell::Text(row.id),
            Cell::Text(row.user_id),
            Cell::Text(row.name),
            Cell::Text(row.object),
            Cell::Text(row.revision_date),
        ],
        Statement::ReplaceFolder(row) => seq![
            Cell::Text(row.id),
            Cell::Text(row.user_id),
            Cell::Text(row.name),
            Cell::Text(row.object),
            Cell::Text(row.revision_date),
        ],
        Statement::DeleteFolder(id) => seq![Cell::Text(id)],
        Statement::ReplaceCipher(row) => seq![
            Cell::Text(row.id),
            Cell::Text(row.user_id),
            optional_text(row.organization_id),
            Cell::Integer(row.kind as i64),
            optional_text(row.name),
            optional_text(row.notes),
            Cell::Integer(row.favorite as i64),
            Cell::Integer(row.reprompt as i64),
            Cell::Integer(row.organization_use_totp as i64),
            Cell::Integer(row.edit as i64),
            Cell::Integer(row.view_password as i64),
            Cell::Text(row.creation_date),
            Cell::Text(row.revision_date),
            optional_text(row.deleted_date),
            optional_text(row.archived_date),
            optional_text(row.key),
            Cell::Text(row.object),
            Cell::Text(row.extra),
        ],
        Statement::DeleteCipher(id) => seq![Cell::Text(id)],
        Statement::DeleteLogins(id) => seq![Cell::Text(id)],
        Statement::DeleteSshKeys(id) => seq![Cell::Text(id)],
        Statement::DeleteFields(id) => seq![Cell::Text(id)],
        Statement::DeleteAttachments(id) => seq![Cell::Text(id)],
        Statement::DeleteLinks(id) => seq![Cell::Text(id)],
        Statement::InsertLogin(row) => seq![
            Cell::Text(row.cipher_id),
            optional_text(row.username),
            optional_text(row.password),
            optional_text(row.uri),
        ],
        Statement::InsertSshKey(row) => seq![
            Cell::Text(row.cipher_id),
            optional_text(row.private_key),
            optional_text(row.public_key),
        ],
        Statement::InsertField(row) => seq![
            Cell::Text(row.cipher_id),
            Cell::Text(row.name),
            optional_text(row.value),
            Cell::Integer(row.kind as i64),
        ],
        Statement::InsertAttachment(row) => seq![
            Cell::Text(row.id),
            Cell::Text(row.cipher_id),
            optional_text(row.file_name),
            optional_long(row.size),
        ],
        Statement::ReplaceLink(row) => seq![
            Cell::Text(row.cipher_id),
            Cell::Text(row.folder_id),
        ],
        Statement::ReplaceMetadata(row) => seq![
            Cell::Json(row.domains),
            Cell::Json(row.policies),
            Cell::Json(row.sends),
            Cell::Text(row.object),
            Cell::Unlock(row.unlock),
            Cell::Text(row.extra),
        ],
        Statement::InitSession(id) => seq![Cell::Text(id)],
        Statement::ReplaceSession(row) => seq![
            optional_text(row.email),
            Cell::Text(row.device_id),
            optional_text(row.access_token),
            optional_text(row.refresh_token),
            optional_text(row.last_sync_time),
            optional_text(row.server_url),
        ],
        Statement::SaveKeys(enc, mac) => seq![Cell::Text(enc), Cell::Text(mac)],
        Statement::ClearKeys => Seq::empty(),
    }
}

fn text_cell(s: &Option<String>) -> (r: Cell)
    ensures
        r == optional_text(*s),
{
    match s {
        Some(s) => Cell::Text(s.clone()),
        None => Cell::Null,
    }
}

fn int_cell(n: Option<i32>) -> (r: Cell)
    ensures
        r == optional_int(n),
{
    match n {
        Some(n) => Cell::Integer(n as i64),
        None => Cell::Null,
    }
}

fn long_cell(n: Option<i64>) -> (r: Cell)
    ensures
        r == optional_long(n),
{
    match n {
        Some(n) => Cell::Integer(n),
        None => Cell::Null,
    }
}

fn unlock_cell(unlock: &Option<Option<MasterPasswordUnlockSync>>) -> (r: Cell)
    ensures
        r == Cell::Unlock(*unlock),
{
    match unlock {
        None => Cell::Unlock(None),
        Some(None) => Cell::Unlock(Some(None)),
        Some(Some(unlock)) => Cell::Unlock(Some(Some(unlock.clone()))),
    }
}

impl Statement {
    /// The text of the statement.
    pub fn sql(&self) -> (r: &'static str)
        ensures
            r@ == statement_sql(*self),
    {
        match self {
            Statement::ClearUsers => CLEAR_USERS,
            Statement::ClearOrganizations => CLEAR_ORGANIZATIONS,
            Statement::ClearFolders => CLEAR_FOLDERS,
            Statement::ClearCiphers => CLEAR_CIPHERS,
            Statement::ClearMetadata => CLEAR_METADATA,
            Statement::ForgetSession => FORGET_SESSION,
            Statement::InsertUser(_) => INSERT_USER,
            Statement::InsertOrganization(_) => INSERT_ORGANIZATION,
            Statement::ReplaceOrganization(_) => REPLACE_ORGANIZATION,
            Statement::InsertFolder(_) => INSERT_FOLDER,
            Statement::ReplaceFolder(_) => REPLACE_FOLDER,
            Statement::DeleteFolder(_) => DELETE_FOLDER,
            Statement::ReplaceCipher(_) => REPLACE_CIPHER,
            Statement::DeleteCipher(_) => DELETE_CIPHER,
            Statement::DeleteLogins(_) => DELETE_LOGINS,
            Statement::DeleteSshKeys(_) => DELETE_SSH_KEYS,
            Statement::DeleteFields(_) => DELETE_FIELDS,
            Statement::DeleteAttachments(_) => DELETE_ATTACHMENTS,
            Statement::DeleteLinks(_) => DELETE_LINKS,
            Statement::InsertLogin(_) => INSERT_LOGIN,
            Statement::InsertSshKey(_) => INSERT_SSH_KEY,
            Statement::InsertField(_) => INSERT_FIELD,
            Statement::InsertAttachment(_) => INSERT_ATTACHMENT,
            Statement::ReplaceLink(_) => REPLACE_LINK,
            Statement::ReplaceMetadata(_) => REPLACE_METADATA,
            Statement::InitSession(_) => INIT_SESSION,
            Statement::ReplaceSession(_) => REPLACE_SESSION,
            Statement::SaveKeys(_, _) => SAVE_KEYS,
            Statement::ClearKeys => CLEAR_KEYS,
        }
    }

    /// The values that are bound to the statement, in order.
    pub fn cells(&self) -> (r: Vec<Cell>)
        ensures
            r@ == statement_cells(*self),
    {
        match self {
            Statement::ClearUsers => Vec::new(),
            Statement::ClearOrganizations => Vec::new(),
            Statement::ClearFolders => Vec::new(),
            Statement::ClearCiphers => Vec::new(),
            Statement::ClearMetadata => Vec::new(),
            Statement::ForgetSession => Vec::new(),
            Statement::InsertUser(row) => vec![
                Cell::Text(row.id.clone()),
                Cell::Text(row.email.clone()),
                Cell::Integer(row.email_verified as i64),
                text_cell(&row.name),
                Cell::Integer(row.premium as i64),
                Cell::Integer(row.premium_from_organization as i64),
                text_cell(&row.private_key),
                text_cell(&row.public_key),
                text_cell(&row.security_stamp),
                Cell::Integer(row.two_factor_enabled as i64),
                Cell::Integer(row.uses_key_connector as i64),
                Cell::Text(row.culture.clone()),
                Cell::Text(row.creation_date.clone()),
                text_cell(&row.avatar_color),
                Cell::Integer(row.force_password_reset as i64),
                Cell::Text(row.key.clone()),
                int_cell(row.status),
                Cell::Text(row.extra.clone()),
            ],
            Statement::InsertOrganization(row) => vec![
                Cell::Text(row.id.clone()),
                Cell::Text(row.name.clone()),
                Cell::Text(row.key.clone()),
                Cell::Text(row.object.clone()),
            ],
            Statement::ReplaceOrganization(row) => vec![
                Cell::Text(row.id.clone()),
                Cell::Text(row.name.clone()),
                Cell::Text(row.key.clone()),
                Cell::Text(row.object.clone()),
            ],
            Statement::InsertFolder(row) => vec![
                Cell::Text(row.id.clone()),
                Cell::Text(row.user_id.clone()),
                Cell::Text(row.name.clone()),
                Cell::Text(row.object.clone()),
                Cell::Text(row.revision_date.clone()),
            ],
            Statement::ReplaceFolder(row) => vec![
                Cell::Text(row.id.clone()),
                Cell::Text(row.user_id.clone()),
                Cell::Text(row.name.clone()),
                Cell::Text(row.object.clone()),
                Cell::Text(row.revision_date.clone()),
            ],
            Statement::DeleteFolder(id) => vec![Cell::Text(id.clone())],
            Statement::ReplaceCipher(row) => vec![
                Cell::Text(row.id.clone()),
                Cell::Text(row.user_id.clone()),
                text_cell(&row.organization_id),
                Cell::Integer(row.kind as i64),
                text_cell(&row.name),
                text_cell(&row.notes),
                Cell::Integer(row.favorite as i64),
                Cell::Integer(row.reprompt as i64),
                Cell::Integer(row.organization_use_totp as i64),
                Cell::Integer(row.edit as i64),
                Cell::Integer(row.view_password as i64),
                Cell::Text(row.creation_date.clone()),
                Cell::Text(row.revision_date.clone()),
                text_cell(&row.deleted_date),
                text_cell(&row.archived_date),
                text_cell(&row.key),
                Cell::Text(row.object.clone()),
                Cell::Text(row.extra.clone()),
            ],
            Statement::DeleteCipher(id) => vec![Cell::Text(id.clone())],
            Statement::DeleteLogins(id) => vec![Cell::Text(id.clone())],
            Statement::DeleteSshKeys(id) => vec![Cell::Text(id.clone())],
            Statement::DeleteFields(id) => vec![Cell::Text(id.clone())],
            Statement::DeleteAttachments(id) => vec![Cell::Text(id.clone())],
            Statement::DeleteLinks(id) => vec![Cell::Text(id.clone())],
            Statement::InsertLogin(row) => vec![
                Cell::Text(row.cipher_id.clone()),
                text_cell(&row.username),
                text_cell(&row.password),
                text_cell(&row.uri),
            ],
            Statement::InsertSshKey(row) => vec![
                Cell::Text(row.cipher_id.clone()),
                text_cell(&row.private_key),
                text_cell(&row.public_key),
            ],
            Statement::InsertField(row) => vec![
                Cell::Text(row.cipher_id.clone()),
                Cell::Text(row.name.clone()),
                text_cell(&row.value),
                Cell::Integer(row.kind as i64),
            ],
            Statement::InsertAttachment(row) => vec![
                Cell::Text(row.id.clone()),
                Cell::Text(row.cipher_id.clone()),
                text_cell(&row.file_name),
                long_cell(row.size),
            ],
            Statement::ReplaceLink(row) => vec![
                Cell::Text(row.cipher_id.clone()),
                Cell::Text(row.folder_id.clone()),
            ],
            Statement::ReplaceMetadata(row) => vec![
                Cell::Json(text::copy_option(&row.domains)),
                Cell::Json(text::copy_option(&row.policies)),
                Cell::Json(text::copy_option(&row.sends)),
                Cell::Text(row.object.clone()),
                unlock_cell(&row.unlock),
                Cell::Text(row.extra.clone()),
            ],
            Statement::InitSession(id) => vec![Cell::Text(id.clone())],
            Statement::ReplaceSession(row) => vec![
                text_cell(&row.email),
                Cell::Text(row.device_id.clone()),
                text_cell(&row.access_token),
                text_cell(&row.refresh_token),
                text_cell(&row.last_sync_time),
                text_cell(&row.server_url),
            ],
            Statement::SaveKeys(enc, mac) => vec![Cell::Text(enc.clone()), Cell::Text(mac.clone())],
            Statement::ClearKeys => Vec::new(),
        }
    }
}

} // verus!
