use bitter::api::{
    AttachmentSync, CipherSync, FieldSync, FolderSync, KdfSync, LoginSync,
    MasterPasswordUnlockSync, OrganizationSync, ProfileSync, SshKeySync, SyncResponse,
    UserDecryptionSync,
};
use bitter::config::{Config, Session, TimeoutAction};
use bitter::storage::repository::{CipherRows, VaultRepository, VaultRows};
use bitter::storage::sql::{
    Cell, FOREIGN_KEYS, SCHEMA, SELECT_ATTACHMENTS, SELECT_CIPHERS, SELECT_FIELDS, SELECT_FOLDERS,
    SELECT_LINKS, SELECT_LOGINS, SELECT_METADATA, SELECT_ORGANIZATIONS, SELECT_SESSION,
    SELECT_SSH_KEYS, SELECT_USER,
};
use bitter::storage::tables::{
    AttachmentRow, CipherRow, FieldRow, FolderRow, LinkRow, LoginRow, MetadataRow,
    OrganizationRow, SessionRow, SshKeyRow, Statement, UserRow,
};
use bitter::storage::transaction::{Action, Transaction};
use rusqlite::types::Value;
use rusqlite::{Connection, Row};

fn some(s: &str) -> Option<String> {
    Some(s.to_string())
}

fn user_keys() -> ([u8; 32], [u8; 32]) {
    let all: Vec<u8> = (0u8..64).collect();
    (all[..32].try_into().unwrap(), all[32..].try_into().unwrap())
}

fn item(id: &str, kind: i32, name: Option<String>) -> CipherSync {
    CipherSync {
        id: id.to_string(),
        organization_id: None,
        folder_id: None,
        kind,
        name,
        notes: None,
        favorite: false,
        reprompt: 0,
        organization_use_totp: false,
        edit: true,
        view_password: true,
        creation_date: "2026-01-01".to_string(),
        revision_date: "2026-01-02".to_string(),
        deleted_date: None,
        archived_date: None,
        key: None,
        login: None,
        card: None,
        identity: None,
        secure_note: None,
        ssh_key: None,
        fields: None,
        attachments: None,
        collection_ids: None,
        password_history: None,
        permissions: None,
        object: "cipherDetails".to_string(),
        extra: "{}".to_string(),
    }
}

fn vault(ciphers: Vec<CipherSync>) -> SyncResponse {
    SyncResponse {
        profile: ProfileSync {
            id: "user-123".to_string(),
            email: "test@example.com".to_string(),
            email_verified: false,
            name: some("Test User"),
            premium: false,
            premium_from_organization: false,
            private_key: None,
            public_key: None,
            security_stamp: None,
            two_factor_enabled: false,
            uses_key_connector: false,
            culture: "en-US".to_string(),
            creation_date: String::new(),
            avatar_color: None,
            force_password_reset: false,
            key: "wrapped-key".to_string(),
            organizations: None,
            provider_organizations: None,
            providers: None,
            _status: None,
            object: "profile".to_string(),
            extra: "{\"customField\":\"Custom Value\"}".to_string(),
        },
        ciphers,
        folders: None,
        domains: None,
        policies: None,
        sends: None,
        object: "sync".to_string(),
        user_decryption: None,
        extra: "{\"customSyncField\":\"Custom Sync Value\"}".to_string(),
    }
}

fn open() -> Connection {
    let conn = Connection::open_in_memory().unwrap();
    conn.execute_batch(FOREIGN_KEYS).unwrap();
    conn.execute_batch(SCHEMA).unwrap();
    conn
}

fn unlock_json(unlock: &MasterPasswordUnlockSync) -> String {
    format!(
        "{{\"kdf\":[{},{},{},{}],\"key\":\"{}\",\"salt\":\"{}\"}}",
        unlock.kdf.kdf_type,
        unlock.kdf.iterations,
        unlock.kdf.memory.map_or(-1, |n| n as i64),
        unlock.kdf.parallelism.map_or(-1, |n| n as i64),
        unlock.master_key_wrapped_user_key,
        unlock.salt
    )
}

fn read_unlock(text: String) -> Option<Option<MasterPasswordUnlockSync>> {
    if text.is_empty() {
        return None;
    }
    let value: serde_json::Value = serde_json::from_str(&text).unwrap();
    if value.is_null() {
        return Some(None);
    }
    let number = |i: usize| value["kdf"][i].as_i64().unwrap();
    let optional = |i: usize| u32::try_from(number(i)).ok();
    Some(Some(MasterPasswordUnlockSync {
        kdf: KdfSync {
            kdf_type: number(0) as u32,
            iterations: number(1) as u32,
            memory: optional(2),
            parallelism: optional(3),
        },
        master_key_wrapped_user_key: value["key"].as_str().unwrap().to_string(),
        salt: value["salt"].as_str().unwrap().to_string(),
    }))
}

fn bound(cell: Cell) -> Value {
    match cell {
        Cell::Null => Value::Null,
        Cell::Integer(n) => Value::Integer(n),
        Cell::Text(s) => Value::Text(s),
        Cell::Json(None) => Value::Text("null".to_string()),
        Cell::Json(Some(s)) => Value::Text(s),
        Cell::Unlock(None) => Value::Text(String::new()),
        Cell::Unlock(Some(None)) => Value::Text("null".to_string()),
        Cell::Unlock(Some(Some(unlock))) => Value::Text(unlock_json(&unlock)),
    }
}

fn run(conn: &Connection, statement: &Statement) -> Result<(), String> {
    let cells: Vec<Value> = statement.cells().into_iter().map(bound).collect();
    conn.execute(statement.sql(), rusqlite::params_from_iter(cells))
        .map(|_| ())
        .map_err(|e| statement.failure(&e.to_string()))
}

fn run_all(conn: &Connection, plan: &[Statement]) {
    for statement in plan {
        run(conn, statement).unwrap();
    }
}

fn rows<T>(conn: &Connection, sql: &str, read: fn(&Row) -> rusqlite::Result<T>) -> Vec<T> {
    let mut statement = conn.prepare(sql).unwrap();
    let found = statement.query_map((), |row| read(row)).unwrap();
    found.map(|row| row.unwrap()).collect()
}

fn user_row(row: &Row) -> rusqlite::Result<UserRow> {
    Ok(UserRow {
        id: row.get(0)?,
        email: row.get(1)?,
        email_verified: row.get(2)?,
        name: row.get(3)?,
        premium: row.get(4)?,
        premium_from_organization: row.get(5)?,
        private_key: row.get(6)?,
        public_key: row.get(7)?,
        security_stamp: row.get(8)?,
        two_factor_enabled: row.get(9)?,
        uses_key_connector: row.get(10)?,
        culture: row.get(11)?,
        creation_date: row.get(12)?,
        avatar_color: row.get(13)?,
        force_password_reset: row.get(14)?,
        key: row.get(15)?,
        status: row.get(16)?,
        extra: row.get(17)?,
    })
}

fn cipher_row(row: &Row) -> rusqlite::Result<CipherRow> {
    Ok(CipherRow {
        id: row.get(0)?,
        user_id: row.get(1)?,
        organization_id: row.get(2)?,
        kind: row.get(3)?,
        name: row.get(4)?,
        notes: row.get(5)?,
        favorite: row.get(6)?,
        reprompt: row.get(7)?,
        organization_use_totp: row.get(8)?,
        edit: row.get(9)?,
        view_password: row.get(10)?,
        creation_date: row.get(11)?,
        revision_date: row.get(12)?,
        deleted_date: row.get(13)?,
        archived_date: row.get(14)?,
        key: row.get(15)?,
        object: row.get(16)?,
        extra: row.get(17)?,
    })
}

fn json(text: String) -> Option<String> {
    if text == "null" {
        None
    } else {
        Some(text)
    }
}

fn items(conn: &Connection) -> CipherRows {
    CipherRows {
        ciphers: rows(conn, SELECT_CIPHERS, cipher_row),
        logins: rows(conn, SELECT_LOGINS, |row| {
            Ok(LoginRow {
                cipher_id: row.get(0)?,
                username: row.get(1)?,
                password: row.get(2)?,
                uri: row.get(3)?,
            })
        }),
        ssh_keys: rows(conn, SELECT_SSH_KEYS, |row| {
            Ok(SshKeyRow {
                cipher_id: row.get(0)?,
                private_key: row.get(1)?,
                public_key: row.get(2)?,
            })
        }),
        fields: rows(conn, SELECT_FIELDS, |row| {
            Ok(FieldRow {
                cipher_id: row.get(0)?,
                name: row.get(1)?,
                value: row.get(2)?,
                kind: row.get(3)?,
            })
        }),
        attachments: rows(conn, SELECT_ATTACHMENTS, |row| {
            Ok(AttachmentRow {
                id: row.get(0)?,
                cipher_id: row.get(1)?,
                file_name: row.get(2)?,
                size: row.get(3)?,
            })
        }),
        links: rows(conn, SELECT_LINKS, |row| {
            Ok(LinkRow { cipher_id: row.get(0)?, folder_id: row.get(1)? })
        }),
    }
}

fn folder_rows(conn: &Connection) -> Vec<FolderRow> {
    rows(conn, SELECT_FOLDERS, |row| {
        Ok(FolderRow {
            id: row.get(0)?,
            user_id: row.get(1)?,
            name: row.get(2)?,
            object: row.get(3)?,
            revision_date: row.get(4)?,
        })
    })
}

fn everything(conn: &Connection) -> VaultRows {
    VaultRows {
        user: rows(conn, SELECT_USER, user_row)
            .pop()
            .ok_or_else(|| "Query returned no rows".to_string()),
        organizations: rows(conn, SELECT_ORGANIZATIONS, |row| {
            Ok(OrganizationRow {
                id: row.get(0)?,
                name: row.get(1)?,
                key: row.get(2)?,
                object: row.get(3)?,
            })
        }),
        folders: folder_rows(conn),
        items: items(conn),
        metadata: rows(conn, SELECT_METADATA, |row| {
            Ok(MetadataRow {
                domains: json(row.get(0)?),
                policies: json(row.get(1)?),
                sends: json(row.get(2)?),
                object: row.get(3)?,
                unlock: read_unlock(row.get(4)?),
                extra: row.get(5)?,
            })
        })
        .pop(),
    }
}

fn session_row(conn: &Connection) -> Option<SessionRow> {
    rows(conn, SELECT_SESSION, |row| {
        Ok(SessionRow {
            email: row.get(0)?,
            device_id: row.get(1)?,
            access_token: row.get(2)?,
            refresh_token: row.get(3)?,
            last_sync_time: row.get(4)?,
            server_url: row.get(5)?,
            enc_key: row.get(6)?,
            mac_key: row.get(7)?,
        })
    })
    .pop()
}

fn full_item(id: &str) -> CipherSync {
    let mut cipher = item(id, 1, some("name"));
    cipher.favorite = true;
    cipher.folder_id = some("folder");
    cipher.login = Some(LoginSync { username: some("u"), password: some("p"), uri: None });
    cipher.ssh_key = Some(SshKeySync { private_key: some("priv"), public_key: None });
    cipher.fields = Some(vec![
        FieldSync { name: "b".to_string(), value: some("1"), kind: 0 },
        FieldSync { name: "a".to_string(), value: None, kind: 1 },
    ]);
    cipher.attachments = Some(vec![AttachmentSync {
        id: format!("file-{}", id),
        file_name: some("a.txt"),
        size: Some(7),
    }]);
    cipher
}

fn folder() -> FolderSync {
    FolderSync {
        id: "folder".to_string(),
        name: "Work".to_string(),
        object: "folder".to_string(),
        revision_date: "2026".to_string(),
    }
}

fn full_vault() -> SyncResponse {
    let mut sync = vault(vec![full_item("1"), item("2", 2, None)]);
    sync.folders = Some(vec![folder()]);
    sync.profile.organizations = Some(vec![OrganizationSync {
        id: "org".to_string(),
        name: "Org".to_string(),
        key: "4.key".to_string(),
        object: "organization".to_string(),
        extra: "{}".to_string(),
    }]);
    sync.domains = some("{}");
    sync.user_decryption = Some(UserDecryptionSync {
        master_password_unlock: Some(MasterPasswordUnlockSync {
            kdf: KdfSync { kdf_type: 1, iterations: 2, memory: Some(32), parallelism: Some(2) },
            master_key_wrapped_user_key: "2.k".to_string(),
            salt: "test@example.com".to_string(),
        }),
    });
    sync
}

fn session() -> Session {
    Session {
        user_id: some("user-123"),
        email: some("test@example.com"),
        device_id: "device".to_string(),
        access_token: some("access"),
        refresh_token: some("refresh"),
        last_sync_time: some("now"),
        server_url: some("https://vault.example.com"),
        timeout: "15m".to_string(),
        timeout_action: TimeoutAction::Lock,
    }
}

#[test]
fn test_save_load_db_roundtrip() {
    let sync_resp = vault(Vec::new());
    let conn = open();
    run_all(&conn, &VaultRepository::save_sync_response(&sync_resp));

    let loaded = VaultRepository::load_sync_response(&everything(&conn))
        .expect("load_sync_response failed");

    assert_eq!(loaded.profile.id, "user-123");
    assert_eq!(loaded.profile.email, "test@example.com");
    assert_eq!(loaded.profile.key, "wrapped-key");
    assert_eq!(loaded.profile.name.as_deref(), Some("Test User"));
    let profile_extra: serde_json::Value = serde_json::from_str(&loaded.profile.extra).unwrap();
    assert_eq!(profile_extra.get("customField").unwrap(), "Custom Value");
    let extra: serde_json::Value = serde_json::from_str(&loaded.extra).unwrap();
    assert_eq!(extra.get("customSyncField").unwrap(), "Custom Sync Value");
}

#[test]
fn a_vault_is_read_back_with_all_its_parts() {
    let conn = open();
    run_all(&conn, &VaultRepository::save_sync_response(&full_vault()));
    let loaded = VaultRepository::load_sync_response(&everything(&conn)).unwrap();
    assert_eq!(loaded.ciphers.len(), 2);
    let first = loaded.ciphers.iter().find(|c| c.id == "1").unwrap();
    assert!(first.favorite);
    assert_eq!(first.folder_id.as_deref(), Some("folder"));
    assert_eq!(first.login.as_ref().unwrap().password.as_deref(), Some("p"));
    assert_eq!(first.ssh_key.as_ref().unwrap().private_key.as_deref(), Some("priv"));
    let fields = first.fields.as_ref().unwrap();
    assert_eq!((fields[0].name.as_str(), fields[1].name.as_str()), ("b", "a"));
    assert_eq!(first.attachments.as_ref().unwrap()[0].size, Some(7));
    let second = loaded.ciphers.iter().find(|c| c.id == "2").unwrap();
    assert_eq!(second.name, None);
    assert!(second.login.is_none());
    assert_eq!(loaded.folders.as_ref().unwrap()[0].name, "Work");
    assert_eq!(loaded.profile.organizations.as_ref().unwrap()[0].key, "4.key");
    assert_eq!(loaded.domains.as_deref(), Some("{}"));
    let unlock = loaded.user_decryption.unwrap().master_password_unlock.unwrap();
    assert_eq!((unlock.kdf.kdf_type, unlock.kdf.memory), (1, Some(32)));
}

#[test]
fn what_was_absent_stays_absent() {
    let conn = open();
    run_all(&conn, &VaultRepository::save_sync_response(&vault(Vec::new())));
    let loaded = VaultRepository::load_sync_response(&everything(&conn)).unwrap();
    assert_eq!((loaded.domains, loaded.policies, loaded.sends), (None, None, None));
}

/// Carries out a plan as a whole or not at all.
fn transact(conn: &Connection, plan: Vec<Statement>) -> Result<(), String> {
    let mut transaction = Transaction::new(plan);
    while let Some(action) = transaction.action {
        let outcome = match action {
            Action::Begin => conn.execute_batch("BEGIN").map_err(|e| e.to_string()),
            Action::Execute(i) => {
                let statement = &transaction.plan[i];
                let cells: Vec<Value> = statement.cells().into_iter().map(bound).collect();
                conn.execute(statement.sql(), rusqlite::params_from_iter(cells))
                    .map(|_| ())
                    .map_err(|e| e.to_string())
            }
            Action::Commit => conn.execute_batch("COMMIT").map_err(|e| e.to_string()),
            Action::RollBack => conn.execute_batch("ROLLBACK").map_err(|e| e.to_string()),
        };
        transaction.report(outcome);
    }
    transaction.finish()
}

#[test]
fn plans_run_step_by_step() {
    let delete = || VaultRepository::delete_cipher(&"1".to_string());
    let mut transaction = Transaction::new(vec![delete(), delete()]);
    assert_eq!(transaction.action, Some(Action::Begin));
    transaction.report(Ok(()));
    assert_eq!(transaction.action, Some(Action::Execute(0)));
    transaction.report(Ok(()));
    assert_eq!(transaction.action, Some(Action::Execute(1)));
    transaction.report(Ok(()));
    assert_eq!(transaction.action, Some(Action::Commit));
    transaction.report(Err("full".to_string()));
    assert_eq!(transaction.action, Some(Action::RollBack));
    transaction.report(Err("later".to_string()));
    assert_eq!(transaction.action, None);
    transaction.report(Ok(()));
    assert_eq!(transaction.action, None);
    assert_eq!(transaction.finish().unwrap_err(), "Failed to commit transaction: full");

    let mut transaction = Transaction::new(vec![delete()]);
    transaction.report(Err("busy".to_string()));
    assert_eq!(transaction.action, None);
    assert_eq!(transaction.finish().unwrap_err(), "busy");

    let mut transaction = Transaction::new(vec![delete()]);
    transaction.report(Ok(()));
    transaction.report(Err("no".to_string()));
    assert_eq!(transaction.action, Some(Action::RollBack));
    transaction.report(Ok(()));
    assert_eq!(transaction.finish().unwrap_err(), "Failed to delete cipher: no");

    let mut transaction = Transaction::new(vec![]);
    transaction.report(Ok(()));
    assert_eq!(transaction.action, Some(Action::Commit));
    transaction.report(Ok(()));
    assert_eq!(transaction.action, None);
    assert!(transaction.finish().is_ok());
}

#[test]
fn a_refused_save_leaves_the_tables() {
    let conn = open();
    let user = "user-123".to_string();
    transact(&conn, VaultRepository::save_sync_response(&full_vault())).unwrap();
    let before = format!("{:?}", everything(&conn));
    let mut thief = full_item("2");
    thief.attachments = full_item("1").attachments;
    let refused = transact(&conn, VaultRepository::save_cipher(&thief, &user));
    assert!(refused.unwrap_err().starts_with("Failed to save cipher attachment: "));
    assert_eq!(format!("{:?}", everything(&conn)), before);
}

#[test]
fn a_refused_sync_leaves_the_tables() {
    let conn = open();
    transact(&conn, VaultRepository::save_sync_response(&full_vault())).unwrap();
    run(&conn, &VaultRepository::save_session(&session())).unwrap();
    let before = format!("{:?}", (everything(&conn), session_row(&conn)));
    let mut lost = item("9", 1, None);
    lost.folder_id = some("nowhere");
    assert!(transact(&conn, VaultRepository::save_sync_response(&vault(vec![lost]))).is_err());
    assert_eq!(format!("{:?}", (everything(&conn), session_row(&conn))), before);
}

#[test]
fn the_list_changes_by_one_item() {
    let conn = open();
    let user = "user-123".to_string();
    let listed = |conn: &Connection| {
        let mut list: Vec<String> = VaultRepository::list_ciphers(&items(conn))
            .iter()
            .map(|c| format!("{:?}", c))
            .collect();
        list.sort();
        list
    };
    transact(&conn, VaultRepository::save_sync_response(&full_vault())).unwrap();
    let before = listed(&conn);
    transact(&conn, VaultRepository::save_cipher(&full_item("3"), &user)).unwrap();
    let after = listed(&conn);
    assert_eq!(after.len(), 3);
    assert!(before.iter().all(|c| after.contains(c)));
    run(&conn, &VaultRepository::delete_cipher(&"3".to_string())).unwrap();
    assert_eq!(listed(&conn), before);
    run(&conn, &VaultRepository::delete_cipher(&"3".to_string())).unwrap();
    assert_eq!(listed(&conn), before);
}

#[test]
fn a_sync_replaces_what_was_cached() {
    let conn = open();
    run_all(&conn, &VaultRepository::save_sync_response(&full_vault()));
    run_all(&conn, &VaultRepository::save_sync_response(&vault(vec![item("9", 1, None)])));
    let loaded = VaultRepository::load_sync_response(&everything(&conn)).unwrap();
    assert_eq!(loaded.ciphers.len(), 1);
    assert_eq!(loaded.ciphers[0].id, "9");
    assert!(items(&conn).logins.is_empty());
    assert!(items(&conn).links.is_empty());
}

#[test]
fn an_item_is_saved_replaced_and_deleted() {
    let conn = open();
    let user = "user-123".to_string();
    run_all(&conn, &VaultRepository::save_sync_response(&vault(vec![])));
    run(&conn, &VaultRepository::save_folder(&folder(), &user)).unwrap();
    run_all(&conn, &VaultRepository::save_cipher(&full_item("1"), &user));
    run_all(&conn, &VaultRepository::save_cipher(&full_item("1"), &user));
    let found = VaultRepository::get_cipher(&items(&conn), "1").unwrap();
    assert_eq!(found.fields.unwrap().len(), 2);
    assert_eq!(found.folder_id.as_deref(), Some("folder"));
    assert_eq!(VaultRepository::list_ciphers(&items(&conn)).len(), 1);
    assert!(VaultRepository::get_cipher(&items(&conn), "2").is_none());
    run(&conn, &VaultRepository::delete_cipher(&"1".to_string())).unwrap();
    assert!(VaultRepository::get_cipher(&items(&conn), "1").is_none());
    assert!(items(&conn).fields.is_empty());
    assert!(items(&conn).attachments.is_empty());
}

#[test]
fn deleting_a_folder_keeps_its_items_here() {
    let conn = open();
    run_all(&conn, &VaultRepository::save_sync_response(&full_vault()));
    run(&conn, &VaultRepository::delete_folder(&"folder".to_string())).unwrap();
    let found = VaultRepository::get_cipher(&items(&conn), "1").unwrap();
    assert_eq!(found.folder_id, None);
    assert!(VaultRepository::list_folders(&folder_rows(&conn)).is_empty());
}

#[test]
fn an_item_needs_its_user() {
    let conn = open();
    let plan = VaultRepository::save_cipher(&item("1", 1, None), &"nobody".to_string());
    let failed = plan.iter().map(|s| run(&conn, s)).find(|r| r.is_err());
    assert!(failed.is_some());
}

#[test]
fn organizations_are_saved() {
    let conn = open();
    let org = OrganizationSync {
        id: "org".to_string(),
        name: "Org".to_string(),
        key: "k".to_string(),
        object: "o".to_string(),
        extra: "{}".to_string(),
    };
    run(&conn, &VaultRepository::save_organization(&org)).unwrap();
    assert_eq!(everything(&conn).organizations[0].name, "Org");
}

#[test]
fn without_a_user_there_is_no_vault() {
    let conn = open();
    assert_eq!(
        VaultRepository::load_sync_response(&everything(&conn)).unwrap_err(),
        "Failed to load user profile: Query returned no rows"
    );
}

#[test]
fn deleted_items_are_not_counted() {
    let conn = open();
    let mut deleted = item("2", 1, None);
    deleted.deleted_date = some("2026");
    run_all(&conn, &VaultRepository::save_sync_response(&vault(vec![item("1", 1, None), deleted])));
    let found = items(&conn).ciphers;
    assert_eq!(VaultRepository::count_non_deleted_ciphers(&found, "user-123"), 1);
    assert_eq!(VaultRepository::count_non_deleted_ciphers(&found, "other"), 0);
}

#[test]
fn a_new_database_names_the_device_once() {
    let conn = open();
    run(&conn, &VaultRepository::init_session("one".to_string())).unwrap();
    run(&conn, &VaultRepository::init_session("two".to_string())).unwrap();
    assert_eq!(session_row(&conn).unwrap().device_id, "one");
}

#[test]
fn a_session_is_read_back() {
    let conn = open();
    assert!(VaultRepository::load_session(&session_row(&conn), &None, &Config::default()).is_none());
    run(&conn, &VaultRepository::save_session(&session())).unwrap();
    let loaded = VaultRepository::load_session(
        &session_row(&conn),
        &some("user-123"),
        &Config::default(),
    )
    .unwrap();
    assert_eq!(loaded.email.as_deref(), Some("test@example.com"));
    assert_eq!(loaded.device_id, "device");
    assert_eq!(loaded.access_token.as_deref(), Some("access"));
    assert_eq!(loaded.refresh_token.as_deref(), Some("refresh"));
    assert_eq!(loaded.last_sync_time.as_deref(), Some("now"));
    assert_eq!(loaded.server_url.as_deref(), Some("https://vault.example.com"));
    assert_eq!(loaded.user_id.as_deref(), Some("user-123"));
}

#[test]
fn keys_are_saved_loaded_and_cleared() {
    let conn = open();
    let (enc, mac) = user_keys();
    run(&conn, &VaultRepository::save_session(&session())).unwrap();
    assert_eq!(VaultRepository::load_saved_keys(&session_row(&conn)).unwrap(), None);
    run(&conn, &VaultRepository::save_saved_keys(&enc, &mac)).unwrap();
    assert_eq!(session_row(&conn).unwrap().enc_key.unwrap(), hex::encode(enc));
    assert_eq!(VaultRepository::load_saved_keys(&session_row(&conn)).unwrap(), Some((enc, mac)));
    run(&conn, &VaultRepository::clear_saved_keys()).unwrap();
    assert_eq!(VaultRepository::load_saved_keys(&session_row(&conn)).unwrap(), None);
}

#[test]
fn keys_that_are_no_hexadecimal_are_refused() {
    let row = SessionRow {
        email: None,
        device_id: String::new(),
        access_token: None,
        refresh_token: None,
        last_sync_time: None,
        server_url: None,
        enc_key: some("zz"),
        mac_key: some("00"),
    };
    assert!(VaultRepository::load_saved_keys(&Some(row)).is_err());
}

#[test]
fn clearing_forgets_the_user_but_not_the_device() {
    let conn = open();
    run_all(&conn, &VaultRepository::save_sync_response(&full_vault()));
    run(&conn, &VaultRepository::save_session(&session())).unwrap();
    run_all(&conn, &VaultRepository::clear());
    assert!(everything(&conn).user.is_err());
    assert!(items(&conn).ciphers.is_empty());
    let row = session_row(&conn).unwrap();
    assert_eq!(row.email, None);
    assert_eq!(row.access_token, None);
    assert_eq!(row.device_id, "device");
    assert_eq!(row.server_url.as_deref(), Some("https://vault.example.com"));
}
