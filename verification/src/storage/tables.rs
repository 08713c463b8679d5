//! The tables of the cache database: their rows, the statements that change them, and what
//! each statement does to the tables.
//!
//! A statement is plain data; the database carries it out. [`apply`] says what that means:
//! the effect on every table, deletions passed on along foreign keys, and the statements that
//! a constraint refuses.
use vstd::prelude::*;
use vstd::string::*;

use crate::api::MasterPasswordUnlockSync;
use crate::text;

verus! {

// ---------------------------------------------------------------------------
// Rows
// ---------------------------------------------------------------------------
/// A row of `users`.
#[derive(Debug)]
pub struct UserRow {
    pub id: String,
    pub email: String,
    pub email_verified: i32,
    pub name: Option<String>,
    pub premium: i32,
    pub premium_from_organization: i32,
    pub private_key: Option<String>,
    pub public_key: Option<String>,
    pub security_stamp: Option<String>,
    pub two_factor_enabled: i32,
    pub uses_key_connector: i32,
    pub culture: String,
    pub creation_date: String,
    pub avatar_color: Option<String>,
    pub force_password_reset: i32,
    pub key: String,
    pub status: Option<i32>,
    pub extra: String,
}

/// A row of `organizations`.
#[derive(Debug)]
pub struct OrganizationRow {
    pub id: String,
    pub name: String,
    pub key: String,
    pub object: String,
}

/// A row of `folders`.
#[derive(Debug)]
pub struct FolderRow {
    pub id: String,
    pub user_id: String,
    pub name: String,
    pub object: String,
    pub revision_date: String,
}

/// A row of `ciphers`.
#[derive(Debug)]
pub struct CipherRow {
    pub id: String,
    pub user_id: String,
    pub organization_id: Option<String>,
    pub kind: i32,
    pub name: Option<String>,
    pub notes: Option<String>,
    pub favorite: i32,
    pub reprompt: i32,
    pub organization_use_totp: i32,
    pub edit: i32,
    pub view_password: i32,
    pub creation_date: String,
    pub revision_date: String,
    pub deleted_date: Option<String>,
    pub archived_date: Option<String>,
    pub key: Option<String>,
    pub object: String,
    pub extra: String,
}

/// A row of `cipher_logins`.
#[derive(Debug)]
pub struct LoginRow {
    pub cipher_id: String,
    pub username: Option<String>,
    pub password: Option<String>,
    pub uri: Option<String>,
}

/// A row of `cipher_ssh_keys`.
#[derive(Debug)]
pub struct SshKeyRow {
    pub cipher_id: String,
    pub private_key: Option<String>,
    pub public_key: Option<String>,
}

/// A row of `cipher_fields`.
#[derive(Debug)]
pub struct FieldRow {
    pub cipher_id: String,
    pub name: String,
    pub value: Option<String>,
    pub kind: i32,
}

/// A row of `attachments`.
#[derive(Debug)]
pub struct AttachmentRow {
    pub id: String,
    pub cipher_id: String,
    pub file_name: Option<String>,
    pub size: Option<i64>,
}

/// A row of `folders_ciphers`.
#[derive(Debug)]
pub struct LinkRow {
    pub cipher_id: String,
    pub folder_id: String,
}

/// The row of `sync_metadata`. Domains, policies and sends are JSON texts, `null` where there
/// are none; so is the unlock data in the table, where it may also be missing. `extra` is the
/// text of a JSON object.
#[derive(Debug)]
pub struct MetadataRow {
    pub domains: Option<String>,
    pub policies: Option<String>,
    pub sends: Option<String>,
    pub object: String,
    pub unlock: Option<Option<MasterPasswordUnlockSync>>,
    pub extra: String,
}

/// The row of `session_metadata`; the keys are in hexadecimal.
#[derive(Debug)]
pub struct SessionRow {
    pub email: Option<String>,
    pub device_id: String,
    pub access_token: Option<String>,
    pub refresh_token: Option<String>,
    pub last_sync_time: Option<String>,
    pub server_url: Option<String>,
    pub enc_key: Option<String>,
    pub mac_key: Option<String>,
}

// ---------------------------------------------------------------------------
// Statements
// ---------------------------------------------------------------------------
/// A statement that changes the tables. `Insert` refuses a key that is taken, `Replace` first
/// deletes the row that has it.
#[derive(Debug)]
pub enum Statement {
    ClearUsers,
    ClearOrganizations,
    ClearFolders,
    ClearCiphers,
    ClearMetadata,
    ForgetSession,
    InsertUser(UserRow),
    InsertOrganization(OrganizationRow),
    ReplaceOrganization(OrganizationRow),
    InsertFolder(FolderRow),
    ReplaceFolder(FolderRow),
    DeleteFolder(String),
    ReplaceCipher(CipherRow),
    DeleteCipher(String),
    DeleteLogins(String),
    DeleteSshKeys(String),
    DeleteFields(String),
    DeleteAttachments(String),
    DeleteLinks(String),
    InsertLogin(LoginRow),
    InsertSshKey(SshKeyRow),
    InsertField(FieldRow),
    InsertAttachment(AttachmentRow),
    ReplaceLink(LinkRow),
    ReplaceMetadata(MetadataRow),
    InitSession(String),
    ReplaceSession(SessionRow),
    SaveKeys(String, String),
    ClearKeys,
}

/// What stands before the database's own error text when the statement fails.
pub open spec fn failure_prefix(statement: Statement) -> Seq<char> {
    match statement {
        Statement::InsertUser(_) => "Failed to save user profile: "@,
        Statement::InsertOrganization(_) => "Failed to save organization: "@,
        Statement::ReplaceOrganization(_) => "Failed to save organization: "@,
        Statement::InsertFolder(_) => "Failed to save folder: "@,
        Statement::ReplaceFolder(_) => "Failed to save folder: "@,
        Statement::DeleteFolder(_) => "Failed to delete folder: "@,
        Statement::ReplaceCipher(_) => "Failed to save core cipher: "@,
        Statement::DeleteCipher(_) => "Failed to delete cipher: "@,
        Statement::InsertLogin(_) => "Failed to save cipher login: "@,
        Statement::InsertSshKey(_) => "Failed to save cipher SSH key: "@,
        Statement::InsertField(_) => "Failed to save cipher field: "@,
        Statement::InsertAttachment(_) => "Failed to save cipher attachment: "@,
        Statement::ReplaceLink(_) => "Failed to save folder cipher relationship: "@,
        Statement::ReplaceMetadata(_) => "Failed to save sync metadata: "@,
        Statement::InitSession(_) => "Failed to initialize session_metadata default row: "@,
        Statement::ReplaceSession(_) => "Failed to save session: "@,
        Statement::SaveKeys(_, _) => "Failed to save keys: "@,
        Statement::ClearKeys => "Failed to clear keys: "@,
        _ => Seq::empty(),
    }
}

impl Statement {
    /// What to report when the statement fails with the database's error text `e`.
    pub fn failure(&self, e: &str) -> (r: String)
        ensures
            r@ == failure_prefix(*self) + e@,
    {
        let prefix: &str = match self {
            Statement::InsertUser(_) => "Failed to save user profile: ",
            Statement::InsertOrganization(_) => "Failed to save organization: ",
            Statement::ReplaceOrganization(_) => "Failed to save organization: ",
            Statement::InsertFolder(_) => "Failed to save folder: ",
            Statement::ReplaceFolder(_) => "Failed to save folder: ",
            Statement::DeleteFolder(_) => "Failed to delete folder: ",
            Statement::ReplaceCipher(_) => "Failed to save core cipher: ",
            Statement::DeleteCipher(_) => "Failed to delete cipher: ",
            Statement::InsertLogin(_) => "Failed to save cipher login: ",
            Statement::InsertSshKey(_) => "Failed to save cipher SSH key: ",
            Statement::InsertField(_) => "Failed to save cipher field: ",
            Statement::InsertAttachment(_) => "Failed to save cipher attachment: ",
            Statement::ReplaceLink(_) => "Failed to save folder cipher relationship: ",
            Statement::ReplaceMetadata(_) => "Failed to save sync metadata: ",
            Statement::InitSession(_) => "Failed to initialize session_metadata default row: ",
            Statement::ReplaceSession(_) => "Failed to save session: ",
            Statement::SaveKeys(_, _) => "Failed to save keys: ",
            Statement::ClearKeys => "Failed to clear keys: ",
            _ => {
                assert(Seq::<char>::empty() + e@ =~= e@);
                return e.to_owned();
            },
        };
        text::join2(prefix, e)
    }
}

// ---------------------------------------------------------------------------
// What the statements do
// ---------------------------------------------------------------------------
/// The contents of the tables. A table with one row for each key is a map; fields and
/// attachments are kept for each cipher in the order in which they were put in.
#[verifier::ext_equal]
pub struct Database {
    pub users: Map<Seq<char>, UserRow>,
    pub organizations: Map<Seq<char>, OrganizationRow>,
    pub folders: Map<Seq<char>, FolderRow>,
    pub ciphers: Map<Seq<char>, CipherRow>,
    pub logins: Map<Seq<char>, LoginRow>,
    pub ssh_keys: Map<Seq<char>, SshKeyRow>,
    pub fields: Map<Seq<char>, Seq<FieldRow>>,
    pub attachments: Map<Seq<char>, Seq<AttachmentRow>>,
    pub links: Set<(Seq<char>, Seq<char>)>,
    pub metadata: Option<MetadataRow>,
    pub session: Option<SessionRow>,
}

/// The rows that a cipher has in a table with any number of them.
pub open spec fn rows_of<R>(table: Map<Seq<char>, Seq<R>>, id: Seq<char>) -> Seq<R> {
    if table.dom().contains(id) {
        table[id]
    } else {
        Seq::empty()
    }
}

/// Whether some cipher has an attachment with this id.
pub open spec fn attachment_taken(db: Database, id: Seq<char>) -> bool {
    exists|cipher: Seq<char>, i: int|
        #![trigger db.attachments[cipher][i]]
        {
            &&& db.attachments.dom().contains(cipher)
            &&& 0 <= i < db.attachments[cipher].len()
            &&& db.attachments[cipher][i].id@ == id
        }
}

/// The links without those that `gone` picks.
pub open spec fn links_without(
    links: Set<(Seq<char>, Seq<char>)>,
    gone: spec_fn((Seq<char>, Seq<char>)) -> bool,
) -> Set<(Seq<char>, Seq<char>)> {
    Set::new(|l: (Seq<char>, Seq<char>)| links.contains(l) && !gone(l))
}

/// The tables without the ciphers that `gone` picks, and without all that belongs to them.
pub open spec fn without_ciphers(db: Database, gone: spec_fn(Seq<char>) -> bool) -> Database {
    Database {
        ciphers: db.ciphers.remove_keys(Set::new(gone)),
        logins: db.logins.remove_keys(Set::new(gone)),
        ssh_keys: db.ssh_keys.remove_keys(Set::new(gone)),
        fields: db.fields.remove_keys(Set::new(gone)),
        attachments: db.attachments.remove_keys(Set::new(gone)),
        links: links_without(db.links, |l: (Seq<char>, Seq<char>)| gone(l.0)),
        ..db
    }
}

/// The tables without the folders that `gone` picks, and without the links to them.
pub open spec fn without_folders(db: Database, gone: spec_fn(Seq<char>) -> bool) -> Database {
    Database {
        folders: db.folders.remove_keys(Set::new(gone)),
        links: links_without(db.links, |l: (Seq<char>, Seq<char>)| gone(l.1)),
        ..db
    }
}

/// A cipher row whose organization is gone.
pub open spec fn without_organization(row: CipherRow) -> CipherRow {
    CipherRow { organization_id: None, ..row }
}

/// The tables without the organizations that `gone` picks; their ciphers stay, with no
/// organization.
pub open spec fn without_organizations(db: Database, gone: spec_fn(Seq<char>) -> bool) -> Database {
    Database {
        organizations: db.organizations.remove_keys(Set::new(gone)),
        ciphers: db.ciphers.map_values(
            |row: CipherRow|
                match row.organization_id {
                    Some(id) => if gone(id@) {
                        without_organization(row)
                    } else {
                        row
                    },
                    None => row,
                },
        ),
        ..db
    }
}

/// The tables after a statement, or nothing where a constraint refuses it.
pub open spec fn apply(db: Database, statement: Statement) -> Option<Database> {
    match statement {
        Statement::ClearUsers => {
            let folders = db.folders;
            let ciphers = db.ciphers;
            let users = db.users;
            let no_folders = without_folders(
                db,
                |id: Seq<char>|
                    folders.dom().contains(id) && users.dom().contains(folders[id].user_id@),
            );
            let no_ciphers = without_ciphers(
                no_folders,
                |id: Seq<char>|
                    ciphers.dom().contains(id) && users.dom().contains(ciphers[id].user_id@),
            );
            Some(Database { users: Map::empty(), ..no_ciphers })
        },
        Statement::ClearOrganizations => Some(without_organizations(db, |id: Seq<char>| true)),
        Statement::ClearFolders => Some(without_folders(db, |id: Seq<char>| true)),
        Statement::ClearCiphers => {
            let ciphers = db.ciphers;
            Some(without_ciphers(db, |id: Seq<char>| ciphers.dom().contains(id)))
        },
        Statement::ClearMetadata => Some(Database { metadata: None, ..db }),
        Statement::ForgetSession => Some(
            Database {
                session: match db.session {
                    Some(row) => Some(
                        SessionRow {
                            email: None,
                            access_token: None,
                            refresh_token: None,
                            last_sync_time: None,
                            enc_key: None,
                            mac_key: None,
                            ..row
                        },
                    ),
                    None => None,
                },
                ..db
            },
        ),
        Statement::InsertUser(row) => if db.users.dom().contains(row.id@) {
            None
        } else {
            Some(Database { users: db.users.insert(row.id@, row), ..db })
        },
        Statement::InsertOrganization(row) => if db.organizations.dom().contains(row.id@) {
            None
        } else {
            Some(Database { organizations: db.organizations.insert(row.id@, row), ..db })
        },
        Statement::ReplaceOrganization(row) => {
            let cleared = without_organizations(db, |id: Seq<char>| id == row.id@);
            Some(Database { organizations: cleared.organizations.insert(row.id@, row), ..cleared })
        },
        Statement::InsertFolder(row) => if db.folders.dom().contains(row.id@)
            || !db.users.dom().contains(row.user_id@) {
            None
        } else {
            Some(Database { folders: db.folders.insert(row.id@, row), ..db })
        },
        Statement::ReplaceFolder(row) => if !db.users.dom().contains(row.user_id@) {
            None
        } else {
            let cleared = without_folders(db, |id: Seq<char>| id == row.id@);
            Some(Database { folders: cleared.folders.insert(row.id@, row), ..cleared })
        },
        Statement::DeleteFolder(id) => Some(without_folders(db, |f: Seq<char>| f == id@)),
        Statement::ReplaceCipher(row) => if !db.users.dom().contains(row.user_id@) || (
        row.organization_id matches Some(org) && !db.organizations.dom().contains(org@)) {
            None
        } else {
            let cleared = without_ciphers(db, |id: Seq<char>| id == row.id@);
            Some(Database { ciphers: cleared.ciphers.insert(row.id@, row), ..cleared })
        },
        Statement::DeleteCipher(id) => Some(without_ciphers(db, |c: Seq<char>| c == id@)),
        Statement::DeleteLogins(id) => Some(Database { logins: db.logins.remove(id@), ..db }),
        Statement::DeleteSshKeys(id) => Some(Database { ssh_keys: db.ssh_keys.remove(id@), ..db }),
        Statement::DeleteFields(id) => Some(Database { fields: db.fields.remove(id@), ..db }),
        Statement::DeleteAttachments(id) => Some(
            Database { attachments: db.attachments.remove(id@), ..db },
        ),
        Statement::DeleteLinks(id) => Some(
            Database {
                links: links_without(db.links, |l: (Seq<char>, Seq<char>)| l.0 == id@),
                ..db
            },
        ),
        Statement::InsertLogin(row) => if db.logins.dom().contains(row.cipher_id@)
            || !db.ciphers.dom().contains(row.cipher_id@) {
            None
        } else {
            Some(Database { logins: db.logins.insert(row.cipher_id@, row), ..db })
        },
        Statement::InsertSshKey(row) => if db.ssh_keys.dom().contains(row.cipher_id@)
            || !db.ciphers.dom().contains(row.cipher_id@) {
            None
        } else {
            Some(Database { ssh_keys: db.ssh_keys.insert(row.cipher_id@, row), ..db })
        },
        Statement::InsertField(row) => if !db.ciphers.dom().contains(row.cipher_id@) {
            None
        } else {
            Some(
                Database {
                    fields: db.fields.insert(
                        row.cipher_id@,
                        rows_of(db.fields, row.cipher_id@).push(row),
                    ),
                    ..db
                },
            )
        },
        Statement::InsertAttachment(row) => if attachment_taken(db, row.id@)
            || !db.ciphers.dom().contains(row.cipher_id@) {
            None
        } else {
            Some(
                Database {
                    attachments: db.attachments.insert(
                        row.cipher_id@,
                        rows_of(db.attachments, row.cipher_id@).push(row),
                    ),
                    ..db
                },
            )
        },
        Statement::ReplaceLink(row) => if !db.ciphers.dom().contains(row.cipher_id@)
            || !db.folders.dom().contains(row.folder_id@) {
            None
        } else {
            Some(Database { links: db.links.insert((row.cipher_id@, row.folder_id@)), ..db })
        },
        Statement::ReplaceMetadata(row) => Some(Database { metadata: Some(row), ..db }),
        Statement::InitSession(device_id) => Some(
            Database {
                session: match db.session {
                    Some(row) => Some(row),
                    None => Some(
                        SessionRow {
                            email: None,
                            device_id,
                            access_token: None,
                            refresh_token: None,
                            last_sync_time: None,
                            server_url: None,
                            enc_key: None,
                            mac_key: None,
                        },
                    ),
                },
                ..db
            },
        ),
        Statement::ReplaceSession(row) => Some(
            Database { session: Some(SessionRow { enc_key: None, mac_key: None, ..row }), ..db },
        ),
        Statement::SaveKeys(enc, mac) => Some(
            Database {
                session: match db.session {
                    Some(row) => Some(
                        SessionRow { enc_key: Some(enc), mac_key: Some(mac), ..row },
                    ),
                    None => None,
                },
                ..db
            },
        ),
        Statement::ClearKeys => Some(
            Database {
                session: match db.session {
                    Some(row) => Some(SessionRow { enc_key: None, mac_key: None, ..row }),
                    None => None,
                },
                ..db
            },
        ),
    }
}

/// The tables after a list of statements, or nothing where one of them is refused.
pub open spec fn apply_all(db: Database, statements: Seq<Statement>) -> Option<Database>
    decreases statements.len(),
{
    if statements.len() == 0 {
        Some(db)
    } else {
        match apply_all(db, statements.drop_last()) {
            None => None,
            Some(after) => apply(after, statements.last()),
        }
    }
}

// ---------------------------------------------------------------------------
// Referential integrity
// ---------------------------------------------------------------------------
/// Each row stands under its own key, and each row that belongs to another one has it there.
pub open spec fn sound(db: Database) -> bool {
    &&& forall|id: Seq<char>| #[trigger]
        db.users.dom().contains(id) ==> db.users[id].id@ == id
    &&& forall|id: Seq<char>| #[trigger]
        db.organizations.dom().contains(id) ==> db.organizations[id].id@ == id
    &&& forall|id: Seq<char>| #[trigger]
        db.folders.dom().contains(id) ==> db.folders[id].id@ == id && db.users.dom().contains(
            db.folders[id].user_id@,
        )
    &&& forall|id: Seq<char>| #[trigger]
        db.ciphers.dom().contains(id) ==> {
            &&& db.ciphers[id].id@ == id
            &&& db.users.dom().contains(db.ciphers[id].user_id@)
            &&& db.ciphers[id].organization_id matches Some(org)
                ==> db.organizations.dom().contains(org@)
        }
    &&& forall|id: Seq<char>| #[trigger]
        db.logins.dom().contains(id) ==> db.ciphers.dom().contains(id) && db.logins[id].cipher_id@
            == id
    &&& forall|id: Seq<char>| #[trigger]
        db.ssh_keys.dom().contains(id) ==> db.ciphers.dom().contains(id)
            && db.ssh_keys[id].cipher_id@ == id
    &&& forall|id: Seq<char>| #[trigger]
        db.fields.dom().contains(id) ==> db.ciphers.dom().contains(id)
    &&& forall|id: Seq<char>, i: int|
        #![trigger db.fields[id][i]]
        db.fields.dom().contains(id) && 0 <= i < db.fields[id].len()
            ==> db.fields[id][i].cipher_id@ == id
    &&& forall|id: Seq<char>| #[trigger]
        db.attachments.dom().contains(id) ==> db.ciphers.dom().contains(id)
    &&& forall|id: Seq<char>, i: int|
        #![trigger db.attachments[id][i]]
        db.attachments.dom().contains(id) && 0 <= i < db.attachments[id].len()
            ==> db.attachments[id][i].cipher_id@ == id
    &&& forall|l: (Seq<char>, Seq<char>)| #[trigger]
        db.links.contains(l) ==> db.ciphers.dom().contains(l.0) && db.folders.dom().contains(l.1)
}

/// Every statement that is carried out leaves the tables sound.
pub proof fn statements_keep_references(db: Database, statement: Statement)
    requires
        sound(db),
        apply(db, statement) is Some,
    ensures
        sound(apply(db, statement).unwrap()),
{
}

/// Every list of statements that is carried out leaves the tables sound.
pub proof fn plans_keep_references(db: Database, statements: Seq<Statement>)
    requires
        sound(db),
        apply_all(db, statements) is Some,
    ensures
        sound(apply_all(db, statements).unwrap()),
    decreases statements.len(),
{
    if statements.len() > 0 {
        plans_keep_references(db, statements.drop_last());
        statements_keep_references(
            apply_all(db, statements.drop_last()).unwrap(),
            statements.last(),
        );
    }
}

/// Carrying out two lists, one behind the other, is carrying out the first and then the second.
pub proof fn plans_compose(db: Database, first: Seq<Statement>, second: Seq<Statement>)
    ensures
        apply_all(db, first + second) == match apply_all(db, first) {
            Some(middle) => apply_all(middle, second),
            None => None,
        },
    decreases second.len(),
{
    if second.len() == 0 {
        assert(first + second =~= first);
    } else {
        assert((first + second).drop_last() =~= first + second.drop_last());
        plans_compose(db, first, second.drop_last());
    }
}

} // verus!
