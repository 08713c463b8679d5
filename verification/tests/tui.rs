use bitter::api::{
    CipherSync, FieldSync, FolderSync, LoginSync, PreloginResponse, ProfileSync, SshKeySync,
    SyncResponse, TokenResponse,
};
use bitter::config::{Config, Session, TimeoutAction};
use bitter::crypto::derive_login_hash;
use bitter::storage::SshKeyItem;
use bitter::tui::shown::{
    decrypt_cipher_key, decrypt_to_string, detail_lines, item_label, kind_text, Detail,
};
use bitter::tui::{
    accept_verification, begin_session, choose_unlock, session_to_unlock, ActivePanel, App,
    AppState, Key, UnlockStep, Wish,
};
use ssh_key::private::Ed25519Keypair;
use ssh_key::{LineEnding, PrivateKey};

const E_NAME: &str = "2.h6mmNDfonwOFKmQs/pRPIQ==|EipuHFL0puYl4cgOMhfzIQ==|F2k8VGbCRcnms9RDbf0W2vafXCfEk87zBcN1X046Z9U=";
const E_USERNAME: &str = "2.lzFyBweCIrnoZ75cI0HYFw==|Lk2JFDYmxE6wJft/orPU4g==|9o5e20VMAqnpYmP0gMf5xFqGQ5XHvmKx6CtP9ExFRZY=";
const E_PASSWORD: &str = "2.b1YGFdLYthilaCep0pYZXA==|LhsXhx7K7fp2DmyMBh2lRQ==|StFxuxiY8tTBXObSIOSjEPxmdWRK3yrqa9hnmYYwUEY=";
const E_FIELD_NAME: &str = "2.+fsuHbiLZqaThW137E+1ZQ==|cBUaEE7PjbQy9JK2BktWFQ==|c51vanq1dQ8p3/bQQ7ZODk0nYq22nSJfEPfW5K+74rU=";
const E_FIELD_VALUE: &str = "2.fU1CeFR5QcXL03ItnOQcrg==|07ouhvNCXjhceYtHfeU1Pw==|y3i1gfj0QEybM1Zg/QcAR5w70D6LNmdxVkgsxT+O1Gc=";
const E_FOLDER: &str = "2.8j/UnQg6QukSF52Q2+AFeQ==|GSFaegvGYtqjWbrXc24IYQ==|YmV+iLxr6KKb2YHqKsI0NSN9qKttqfyPc4JXCa2EHdw=";
const ITEM_KEY: &str = "2.Zm7jRXAla0GNSzp9O8l0tQ==|9zXN6CnwTxVKL99AXAcTANXSLrxdd5Jopk+hUdwV2jGLHax3tkYawVROQgEkmVuPKsamwjmRe0o5IIM8G0AXUn/R4VLxSRpwqlGbqeCyDAQ=|rLdgNBYqSa3t+/NCm/A9H5fcBooCIw4pb9p/sAcCaHo=";
const E_OWN_NAME: &str = "2.CTDRkyvEJO9FJeMDudiSrg==|2ZB20qC7Rg9Ty1mtXdhg3A==|mwL0mQdjsvd3n3CKDwxyhuAfKwhCF3q8QIEC7tjAXJE=";
const E_NOTES: &str = "2.j62iGF1s6MzTGyV75xwtrw==|IXps00Dood+gnwECN4AMzw==|528gG+dVdbdUKJNeoJ+42nOf46a/UMw/t6HdsQX314s=";
const E_SSH: &str = "2.9KRT5iL4wQt2vFYv2aIw6Q==|W4Q6hz2bQs8G2Ou/OAYFCHSE6WW0twNznevsTfmytXMEmVP9W9jAt4FGDJbV6ZTFp2+nMX+TcCeocSRbP8jdvIgtrjdZxOolcd72sI6GMNM9G5KTy46poCqTHkvE9ORAt0L0/JgHsHqgFk278Qcbs9QbAby8oklL1uOBtEITCAXhktTgv/7SoKnUOo0WSriEqSJ4dgBen1IeVtgGWqbS0PzJQc+RtxLBfnBoOCd5zHo9jXwAj3lfzC0vaF/fHLaPGYR83VWcld++mbPlrb2V6uLsPbGiw/J5OC9dL2V8rMUfD/slZUT7Ie8QUNRgwOPm4BkUT2VrZSWN4VcFbf4/1bWENHsppDIjvvljSwtQ7f/f0KtRzo+kuNYgytYbMABRYB5o6UyKMFfRjaAMs5DPQQcVsfGf4uzql3q5qDNZWfeGXetKnTom34IY1bqXw8vnGwTmW2lm/hK2K21gFUAn83ixk+en3JwI8fCxtTExaKOg75Cp0XBbf5/CUWxv0iafVy8CDjD72UFkFcsJY6lYaQ==|hnppkEyXY/+nr3irHuvBSNmJZ2qiJPSG82ZeL1zLhL8=";

/// An Ed25519 key made from a constant seed, as OpenSSH writes it.
fn ssh_pem() -> String {
    let key = PrivateKey::from(Ed25519Keypair::from_seed(&[7; 32]));
    key.to_openssh(LineEnding::LF).unwrap().to_string()
}

fn some(s: &str) -> Option<String> {
    Some(s.to_string())
}

fn user_keys() -> ([u8; 32], [u8; 32]) {
    let all: Vec<u8> = (0u8..64).collect();
    (all[..32].try_into().unwrap(), all[32..].try_into().unwrap())
}

fn item(id: &str, kind: i32, name: Option<String>) -> CipherSync {
    CipherSync {
        id: id.to_string(),
        organization_id: None,
        folder_id: None,
        kind,
        name,
        notes: None,
        favorite: false,
        reprompt: 0,
        organization_use_totp: false,
        edit: true,
        view_password: true,
        creation_date: "2026-01-01".to_string(),
        revision_date: "2026-01-02".to_string(),
        deleted_date: None,
        archived_date: None,
        key: None,
        login: None,
        card: None,
        identity: None,
        secure_note: None,
        ssh_key: None,
        fields: None,
        attachments: None,
        collection_ids: None,
        password_history: None,
        permissions: None,
        object: "cipherDetails".to_string(),
        extra: "{}".to_string(),
    }
}

fn vault(ciphers: Vec<CipherSync>) -> SyncResponse {
    SyncResponse {
        profile: ProfileSync {
            id: "user-123".to_string(),
            email: "test@example.com".to_string(),
            email_verified: false,
            name: some("Test User"),
            premium: false,
            premium_from_organization: false,
            private_key: None,
            public_key: None,
            security_stamp: None,
            two_factor_enabled: false,
            uses_key_connector: false,
            culture: "en-US".to_string(),
            creation_date: String::new(),
            avatar_color: None,
            force_password_reset: false,
            key: "wrapped-key".to_string(),
            organizations: None,
            provider_organizations: None,
            providers: None,
            _status: None,
            object: "profile".to_string(),
            extra: "{\"customField\":\"Custom Value\"}".to_string(),
        },
        ciphers,
        folders: None,
        domains: None,
        policies: None,
        sends: None,
        object: "sync".to_string(),
        user_decryption: None,
        extra: "{\"customSyncField\":\"Custom Sync Value\"}".to_string(),
    }
}

fn folder(id: &str) -> FolderSync {
    FolderSync {
        id: id.to_string(),
        name: E_FOLDER.to_string(),
        object: "folder".to_string(),
        revision_date: String::new(),
    }
}

fn session() -> Session {
    let mut session = Session::start(&Config::default());
    session.user_id = some("user-123");
    session.email = some("test@example.com");
    session
}

fn dashboard() -> App {
    let mut app = App::new("srv");
    app.try_load_saved_keys(Some(user_keys()), &Some(session()));
    let mut login = item("1", 1, some("GitHub"));
    login.favorite = true;
    login.login = Some(LoginSync { username: some("octocat"), password: None, uri: None });
    let mut note = item("2", 2, some("Note"));
    note.folder_id = some("f");
    let card = item("3", 3, None);
    app.load_vault_data(vec![folder("f")], vec![login, note, card], &Err("off".to_string()));
    app
}

fn ids(app: &App) -> Vec<&str> {
    app.get_filtered_ciphers().iter().map(|c| c.id.as_str()).collect()
}

fn press(app: &mut App, key: Key) -> Wish {
    app.handle_key_input(key, false, 7)
}

#[test]
fn the_first_screen_follows_what_is_saved() {
    let mut app = App::new("srv");
    assert!(matches!(app.state, AppState::Lock));
    assert!(!app.try_load_saved_keys(None, &None));
    assert!(matches!(app.state, AppState::Login));
    assert!(!app.try_load_saved_keys(None, &Some(session())));
    assert!(matches!(app.state, AppState::Lock));
    assert_eq!(app.email_input, "test@example.com");
    assert!(app.try_load_saved_keys(Some(user_keys()), &Some(session())));
    assert!(matches!(app.state, AppState::Dashboard));
    let mut nobody = session();
    nobody.email = None;
    assert!(!app.try_load_saved_keys(Some(user_keys()), &Some(nobody)));
    assert!(matches!(app.state, AppState::Login));
}

#[test]
fn an_unlock_asks_the_server_or_the_cache() {
    assert_eq!(
        session_to_unlock(None).unwrap_err(),
        "No session found. Please log in first."
    );
    assert_eq!(
        session_to_unlock(Some(session())).unwrap().email.as_deref(),
        Some("test@example.com")
    );
    assert!(matches!(
        choose_unlock(&Err("off".to_string()), "p", "e"),
        Ok(UnlockStep::ReadCache)
    ));
    let kdf = |kind| PreloginResponse {
        kdf: kind,
        kdf_iterations: 5000,
        kdf_memory: None,
        kdf_parallelism: None,
    };
    assert_eq!(
        choose_unlock(&Ok(kdf(9)), "p", "e").unwrap_err(),
        "Unsupported KDF type: 9"
    );
    let step = choose_unlock(&Ok(kdf(0)), "masterpassword123", "test@example.com").unwrap();
    let UnlockStep::Verify { master_key, hash } = step else {
        panic!("no verification");
    };
    assert_eq!(hash, derive_login_hash(&master_key, "masterpassword123"));
    assert_eq!(
        accept_verification(&master_key, &Err("no".to_string())).unwrap_err(),
        "Password verification failed: no"
    );
}

#[test]
fn the_left_selection_moves_line_by_line() {
    let mut app = dashboard();
    for key in [Key::Down, Key::Char('j')] {
        app.left_selected = Some(0);
        app.middle_selected = Some(2);
        press(&mut app, key);
        assert_eq!((app.left_selected, app.middle_selected), (Some(1), Some(0)));
        app.left_selected = Some(6);
        app.middle_selected = Some(2);
        press(&mut app, key);
        assert_eq!((app.left_selected, app.middle_selected), (Some(6), Some(2)));
    }
    for key in [Key::Up, Key::Char('k')] {
        app.left_selected = Some(6);
        press(&mut app, key);
        assert_eq!((app.left_selected, app.middle_selected), (Some(5), Some(0)));
        app.left_selected = Some(0);
        app.middle_selected = Some(2);
        press(&mut app, key);
        assert_eq!((app.left_selected, app.middle_selected), (Some(0), Some(2)));
    }
}

#[test]
fn the_login_form_takes_text() {
    let mut app = App::new("");
    app.try_load_saved_keys(None, &None);
    assert_eq!(
        app.check_login_inputs().unwrap_err(),
        "Email and Password cannot be empty"
    );
    press(&mut app, Key::Char('e'));
    press(&mut app, Key::Tab);
    press(&mut app, Key::Char('p'));
    press(&mut app, Key::Char('ä'));
    assert_eq!(app.masked_password(), "***");
    press(&mut app, Key::Backspace);
    assert_eq!(press(&mut app, Key::Enter), Wish::Nothing);
    press(&mut app, Key::Char('s'));
    assert_eq!(
        (app.email_input.as_str(), app.password_input.as_str(), app.server_input.as_str()),
        ("e", "p", "s")
    );
    assert!(app.check_login_inputs().is_ok());
    assert_eq!(press(&mut app, Key::Enter), Wish::Login);
    press(&mut app, Key::BackTab);
    assert_eq!(app.auth_focus, 1);
    assert_eq!(press(&mut app, Key::Esc), Wish::Quit);
    assert_eq!(app.handle_key_input(Key::Char('q'), true, 0), Wish::Quit);
}

#[test]
fn the_lock_screen_takes_the_password() {
    let mut app = App::new("srv");
    app.try_load_saved_keys(None, &Some(session()));
    assert_eq!(app.check_unlock_input().unwrap_err(), "Password cannot be empty");
    press(&mut app, Key::Char('p'));
    assert_eq!(press(&mut app, Key::Enter), Wish::Unlock);
    app.handle_tui_unlock(user_keys());
    assert!(matches!(app.state, AppState::Dashboard));
    assert_eq!(app.password_input, "");
    assert_eq!(app.keys, Some(user_keys()));
    let mut app = App::new("srv");
    app.try_load_saved_keys(None, &Some(session()));
    assert_eq!(press(&mut app, Key::Esc), Wish::Logout);
    assert!(matches!(app.state, AppState::Login));
}

#[test]
fn items_are_filtered_by_category_folder_and_search() {
    let mut app = dashboard();
    assert_eq!(ids(&app), ["1", "2", "3"]);
    app.left_selected = Some(1);
    assert_eq!(ids(&app), ["1"]);
    app.left_selected = Some(3);
    assert_eq!(ids(&app), ["3"]);
    app.left_selected = Some(5);
    assert_eq!(ids(&app), ["2"]);
    app.left_selected = Some(6);
    assert_eq!(ids(&app), ["2"]);
    app.left_selected = Some(0);
    press(&mut app, Key::Char('/'));
    for c in "OCTO".chars() {
        press(&mut app, Key::Char(c));
    }
    assert_eq!(ids(&app), ["1"]);
    press(&mut app, Key::Backspace);
    assert_eq!(app.search_query, "OCT");
    press(&mut app, Key::Enter);
    assert_eq!(app.active_panel, ActivePanel::Middle);
}

#[test]
fn the_selection_moves_within_its_list() {
    let mut app = dashboard();
    press(&mut app, Key::Up);
    assert_eq!(app.left_selected, Some(0));
    for _ in 0..20 {
        press(&mut app, Key::Down);
    }
    assert_eq!(app.left_selected, Some(6));
    app.left_selected = Some(0);
    press(&mut app, Key::Tab);
    for _ in 0..20 {
        press(&mut app, Key::Char('j'));
    }
    assert_eq!(app.middle_selected, Some(2));
    press(&mut app, Key::Char('k'));
    assert_eq!(app.middle_selected, Some(1));
    press(&mut app, Key::Tab);
    press(&mut app, Key::Down);
    assert_eq!(app.active_panel, ActivePanel::Right);
    press(&mut app, Key::BackTab);
    assert_eq!(app.active_panel, ActivePanel::Middle);
}

#[test]
fn the_dashboard_locks_logs_out_and_syncs() {
    let mut app = dashboard();
    assert_eq!(press(&mut app, Key::Char('s')), Wish::Sync);
    assert_eq!(app.status_text(), "Syncing with Bitwarden server...");
    app.finish_sync(&Ok(()), 8);
    assert_eq!(app.status_text(), "Sync completed successfully.");
    press(&mut app, Key::Char('o'));
    assert!(!app.mask_secrets);
    press(&mut app, Key::Char('l'));
    assert!(app.keys.is_none());
    assert!(matches!(app.state, AppState::Lock));
    let mut app = dashboard();
    assert_eq!(press(&mut app, Key::Char('L')), Wish::Logout);
    assert!(app.ciphers.is_empty());
    assert!(app.user_id.is_none());
    let mut app = dashboard();
    app.finish_sync(&Err("x".to_string()), 8);
    assert!(matches!(&app.state, AppState::Error(e) if e == "Sync failed: x"));
    press(&mut app, Key::Other);
    assert!(matches!(app.state, AppState::Dashboard));
    app.fail("y".to_string());
    assert_eq!(press(&mut app, Key::Char('q')), Wish::Quit);
}

#[test]
fn messages_fade() {
    let mut app = dashboard();
    app.set_status("hello", 100);
    app.check_status_expiry(4_000_000_100);
    assert_eq!(app.status_text(), "hello");
    app.check_status_expiry(4_000_000_101);
    assert_eq!(app.status_text(), "Ready");
}

#[test]
fn texts_are_decrypted_where_they_can_be() {
    let keys = Some(user_keys());
    assert_eq!(decrypt_to_string(E_NAME, &keys), "GitHub");
    assert_eq!(decrypt_to_string(E_NAME, &None), E_NAME);
    assert_eq!(decrypt_to_string("plain", &keys), "plain");
    let mut own = item("1", 1, some(E_OWN_NAME));
    own.key = some(ITEM_KEY);
    assert_eq!(item_label(&own, &keys), "🔑 Own key");
    assert_eq!(item_label(&item("2", 9, None), &None), "📦 [No Name]");
    assert_eq!(decrypt_cipher_key(&item("2", 9, None), &keys), keys);
    assert_eq!(decrypt_cipher_key(&own, &None), None);
    assert_eq!(kind_text(100), "SSH Key");
    assert_eq!(dashboard().left_labels()[7], "  📁  Work");
    assert_eq!(dashboard().left_labels()[6], "  -- Folders --");
}

fn shown(lines: &[Detail]) -> Vec<String> {
    lines
        .iter()
        .map(|line| match line {
            Detail::Blank => String::new(),
            Detail::Title(s) | Detail::Kind(s) | Detail::Heading(s) | Detail::Text(s)
            | Detail::Warning(s) => s.clone(),
            Detail::Field { label, value, .. } => format!("{}{}", label, value),
        })
        .collect()
}

#[test]
fn details_are_shown_and_masked() {
    let keys = Some(user_keys());
    let mut login = item("1", 1, some(E_NAME));
    login.login = Some(LoginSync {
        username: some(E_USERNAME),
        password: some(E_PASSWORD),
        uri: None,
    });
    login.fields = Some(vec![FieldSync {
        name: E_FIELD_NAME.to_string(),
        value: some(E_FIELD_VALUE),
        kind: 1,
    }]);
    login.notes = some(E_NOTES);
    assert_eq!(
        shown(&detail_lines(&login, &keys, &[], true)),
        [
            "GitHub",
            "Type: Login",
            "",
            "Username: octocat",
            "Password: ••••••••",
            "",
            "Custom Fields:",
            "pin: ••••••••",
            "",
            "Notes:",
            "remember me",
        ]
    );
    let open = shown(&detail_lines(&login, &keys, &[], false));
    assert_eq!(open[4], "Password: hunter2");
    assert_eq!(open[7], "pin: 1234");
    assert_eq!(
        shown(&detail_lines(&login, &None, &[], false)),
        [E_NAME, "Type: Login", "", "Locked (Master key missing)"]
    );
}

#[test]
fn ssh_keys_are_shown() {
    let mut native = item("1", 5, some(E_NAME));
    native.ssh_key = Some(SshKeySync { private_key: some(E_SSH), public_key: some("pub") });
    let found = SshKeyItem {
        id: "1".to_string(),
        name: String::new(),
        private_key: ssh_pem(),
        public_key: None,
        note: None,
    };
    let lines = shown(&detail_lines(&native, &Some(user_keys()), &[found], false));
    assert_eq!(lines[1], "Type: SSH Key");
    assert_eq!(lines[4], "SSH Key Details:");
    assert_eq!(lines[5], format!("Private Key: {}", ssh_pem()));
    assert_eq!(lines[6], "Public Key: pub");
    assert_eq!(lines[8], "SSH Private Key Detected:");
    assert_eq!(lines[9], "Private Key Type: PEM / OpenSSH format");
}

#[test]
fn the_selected_item_is_detailed() {
    let mut app = dashboard();
    assert_eq!(shown(&app.selected_details().unwrap())[0], "GitHub");
    app.middle_selected = Some(9);
    assert!(app.selected_details().is_none());
    assert_eq!(app.user_info("srv"), " User:  | Server: srv");
    assert!(app.shortcut_text().contains("Toggle Mask"));
}

#[test]
fn the_vault_of_the_cache_brings_ssh_keys() {
    let mut native = item("1", 5, some(E_NAME));
    native.ssh_key = Some(SshKeySync { private_key: some(E_SSH), public_key: None });
    let sync = vault(vec![native]);
    let mut app = dashboard();
    app.load_vault_data(vec![], vec![], &Ok(sync));
    assert_eq!(app.decrypted_keys.len(), 1);
    assert_eq!(app.decrypted_keys[0].private_key, ssh_pem());
}

#[test]
fn a_session_begins_with_the_timeout_before() {
    let token = TokenResponse {
        access_token: "access".to_string(),
        expires_in: 1,
        token_type: "Bearer".to_string(),
        refresh_token: None,
        key: String::new(),
        kdf: 0,
        kdf_iterations: 1,
        kdf_memory: None,
        kdf_parallelism: None,
        user_decryption_options: None,
    };
    let begin = |existing: Option<Session>| {
        begin_session(&existing, &"e".to_string(), "d".to_string(), &token, &"s".to_string())
    };
    assert_eq!(begin(None).timeout, "15m");
    let mut before = session();
    before.timeout = "1m".to_string();
    before.timeout_action = TimeoutAction::Logout;
    let after = begin(Some(before));
    assert_eq!((after.timeout.as_str(), after.timeout_action), ("1m", TimeoutAction::Logout));
    assert_eq!(after.access_token.as_deref(), Some("access"));
    assert_eq!(after.user_id, None);
    let mut app = dashboard();
    app.handle_tui_login(user_keys(), some("u"));
    assert_eq!(app.user_id.as_deref(), Some("u"));
}
