use bitter::api::{
    CipherSync, KdfJson, KdfSync, MasterPasswordUnlockJson, MasterPasswordUnlockSync,
    PreloginResponse, ProfileSync, SyncResponse, TokenResponse, UserDecryptionOptionsJson,
    UserDecryptionSync,
};
use bitter::cli::{Commands, DaemonArgs, KeysCommands, LoginArgs, ResetArgs, Route, SettingsArgs};
use bitter::commands::login::{
    build_authorize_url, check_organization, choose_email, choose_method, choose_server,
    derive_and_verify_keys_from_response, find_unlock_data, finish_login, keep_api_key,
    parse_auth_code, password_credentials, record_login, sso_target, LoginMethod,
};
use bitter::commands::settings::{
    handle_settings, needs_password, read_flag, settings_lines, verify_cached, verify_online,
    KeysChore,
};
use bitter::commands::status::{lock_time_text, status_lines};
use bitter::commands::{
    check_agent_runs, check_response, config_reset_message, db_reset_message, derive_online,
    forget_api_key, idle_reset_message, keys_message, open_vault_keys, record_sync, saves_keys,
    session_email, ssh_agent_message, unlock_request, Removal,
};
use bitter::config::{Config, Session, TimeoutAction};
use bitter::daemon::{ControlRequest, ControlResponse};

const WRAPPED: &str = "2.chOY1e83gPUtqngc0hmuXA==|cNv3ZnXOsdjreayko4knSUEU5RKd+xHpCkhSkBBlf4+th744fAIaEulAJfEBf4gmmdH1Qdkg1+mLJarSnuyKDw/6a9DEvXpuQOvfyyHQJ7Q=|W3pAWa6CTi/GQyx5U9mxg21G69mtQ6mHWCk6fVOQfq8=";
const MASTER: &str = "ab1b77b43a92f9997067da13ecffd72e500744ddb6f9f5d8dbb84dfc08d24560";

fn some(s: &str) -> Option<String> {
    Some(s.to_string())
}

fn user_keys() -> ([u8; 32], [u8; 32]) {
    let all: Vec<u8> = (0u8..64).collect();
    (all[..32].try_into().unwrap(), all[32..].try_into().unwrap())
}

fn item(id: &str, kind: i32, name: Option<String>) -> CipherSync {
    CipherSync {
        id: id.to_string(),
        organization_id: None,
        folder_id: None,
        kind,
        name,
        notes: None,
        favorite: false,
        reprompt: 0,
        organization_use_totp: false,
        edit: true,
        view_password: true,
        creation_date: "2026-01-01".to_string(),
        revision_date: "2026-01-02".to_string(),
        deleted_date: None,
        archived_date: None,
        key: None,
        login: None,
        card: None,
        identity: None,
        secure_note: None,
        ssh_key: None,
        fields: None,
        attachments: None,
        collection_ids: None,
        password_history: None,
        permissions: None,
        object: "cipherDetails".to_string(),
        extra: "{}".to_string(),
    }
}

fn vault(ciphers: Vec<CipherSync>) -> SyncResponse {
    SyncResponse {
        profile: ProfileSync {
            id: "user-123".to_string(),
            email: "test@example.com".to_string(),
            email_verified: false,
            name: some("Test User"),
            premium: false,
            premium_from_organization: false,
            private_key: None,
            public_key: None,
            security_stamp: None,
            two_factor_enabled: false,
            uses_key_connector: false,
            culture: "en-US".to_string(),
            creation_date: String::new(),
            avatar_color: None,
            force_password_reset: false,
            key: "wrapped-key".to_string(),
            organizations: None,
            provider_organizations: None,
            providers: None,
            _status: None,
            object: "profile".to_string(),
            extra: "{\"customField\":\"Custom Value\"}".to_string(),
        },
        ciphers,
        folders: None,
        domains: None,
        policies: None,
        sends: None,
        object: "sync".to_string(),
        user_decryption: None,
        extra: "{\"customSyncField\":\"Custom Sync Value\"}".to_string(),
    }
}

fn session() -> Session {
    let mut session = Session::start(&Config::default());
    session.user_id = some("user-123");
    session.email = some("test@example.com");
    session
}

fn response(status: &str, error: Option<&str>) -> ControlResponse {
    ControlResponse {
        status: status.to_string(),
        error: error.map(|e| e.to_string()),
        unlocked: Some(true),
        key_count: Some(2),
        time_to_lock: Some(125),
        ssh_agent_active: None,
    }
}

fn login_args() -> LoginArgs {
    LoginArgs {
        email: None,
        password: None,
        client_id: None,
        client_secret: None,
        server: None,
        sso: false,
        org_id: None,
    }
}

fn no_settings() -> SettingsArgs {
    SettingsArgs {
        timeout: None,
        timeout_action: None,
        server_url: None,
        ssh_agent_auto_start: None,
    }
}

fn prelogin() -> PreloginResponse {
    PreloginResponse { kdf: 0, kdf_iterations: 5000, kdf_memory: None, kdf_parallelism: None }
}

fn token(options: Option<UserDecryptionOptionsJson>) -> TokenResponse {
    TokenResponse {
        access_token: "access".to_string(),
        expires_in: 3600,
        token_type: "Bearer".to_string(),
        refresh_token: some("refresh"),
        key: WRAPPED.to_string(),
        kdf: 0,
        kdf_iterations: 5000,
        kdf_memory: None,
        kdf_parallelism: None,
        user_decryption_options: options,
    }
}

fn full_token() -> TokenResponse {
    token(Some(UserDecryptionOptionsJson {
        has_master_password: true,
        master_password_unlock: Some(MasterPasswordUnlockJson {
            kdf: KdfJson { kdf_type: 0, iterations: 5000, memory: None, parallelism: None },
            master_key_wrapped_user_key: WRAPPED.to_string(),
            salt: "test@example.com".to_string(),
        }),
    }))
}

fn cached() -> SyncResponse {
    let mut sync = vault(vec![]);
    sync.profile.key = WRAPPED.to_string();
    sync.user_decryption = Some(UserDecryptionSync {
        master_password_unlock: Some(MasterPasswordUnlockSync {
            kdf: KdfSync { kdf_type: 0, iterations: 5000, memory: None, parallelism: None },
            master_key_wrapped_user_key: WRAPPED.to_string(),
            salt: "test@example.com".to_string(),
        }),
    });
    sync
}

#[test]
fn commands_are_routed() {
    let start = Commands::Start(DaemonArgs { background: true, socket: None });
    assert_eq!(start.route(), Route::Daemon);
    assert_eq!(Commands::StopSsh.route(), Route::Direct);
    assert_eq!(Commands::Logout.route(), Route::Session { saves: false });
    assert_eq!(Commands::Sync.route(), Route::Session { saves: true });
}

#[test]
fn a_sync_is_noted() {
    let mut s = Session::start(&Config::default());
    record_sync(&mut s, &vault(vec![]), "now".to_string());
    assert_eq!(s.user_id.as_deref(), Some("user-123"));
    assert_eq!(s.email.as_deref(), Some("test@example.com"));
    assert_eq!(s.last_sync_time.as_deref(), Some("now"));
}

#[test]
fn answers_of_the_agent_are_read() {
    assert_eq!(check_response(&response("ok", None), "p: "), Ok(()));
    assert_eq!(check_response(&response("error", Some("x")), "p: ").unwrap_err(), "p: x");
    assert_eq!(check_response(&response("error", None), "p: ").unwrap_err(), "p: ");
    assert_eq!(
        ssh_agent_message(true, &response("ok", None)).unwrap(),
        "SSH agent loop started successfully."
    );
    assert_eq!(
        ssh_agent_message(false, &response("error", Some("x"))).unwrap_err(),
        "Failed to stop SSH agent: x"
    );
    assert!(check_agent_runs(true, true).is_ok());
    assert_eq!(check_agent_runs(false, false).unwrap_err(), "Agent daemon is not running.");
}

#[test]
fn keys_are_sent_in_hexadecimal() {
    let keys = user_keys();
    match unlock_request(&session(), &keys) {
        ControlRequest::Unlock { user_id, enc_key, mac_key } => {
            assert_eq!(user_id, "user-123");
            assert_eq!(enc_key, hex::encode(keys.0));
            assert_eq!(mac_key, hex::encode(keys.1));
        }
        other => panic!("{:?}", other),
    }
}

#[test]
fn resets_are_reported() {
    assert_eq!(
        config_reset_message(&Removal::NoPath).unwrap_err(),
        "Could not determine config path"
    );
    assert_eq!(
        config_reset_message(&Removal::Missing).unwrap(),
        "Configuration file does not exist."
    );
    assert_eq!(
        config_reset_message(&Removal::Failed("x".to_string())).unwrap_err(),
        "Failed to remove config file: x"
    );
    assert!(config_reset_message(&Removal::Removed).is_ok());
    assert_eq!(
        db_reset_message(&Err("x".to_string())).unwrap_err(),
        "Failed to reset database file: x"
    );
    assert_eq!(db_reset_message(&Ok(())).unwrap(), "Database file reset successfully.");
    assert!(idle_reset_message(ResetArgs { config: false, db: false }).is_some());
    assert!(idle_reset_message(ResetArgs { config: true, db: false }).is_none());
}

#[test]
fn key_commands_are_answered() {
    assert_eq!(
        keys_message(&KeysCommands::Edit { id: "7".to_string() }),
        "Editing key 7... (Will be implemented in Phase 3)"
    );
    assert!(keys_message(&KeysCommands::List).starts_with("Listing keys..."));
}

#[test]
fn the_method_of_a_login_is_chosen() {
    let mut config = Config::default();
    let mut args = login_args();
    assert!(matches!(choose_method(&args, &config), LoginMethod::Password));
    config.client_id = some("id");
    args.client_secret = some("secret");
    assert!(matches!(
        choose_method(&args, &config),
        LoginMethod::ApiKey { client_id, client_secret }
            if client_id == "id" && client_secret == "secret"
    ));
    args.sso = true;
    assert!(matches!(choose_method(&args, &config), LoginMethod::Sso));
    assert_eq!(choose_server(&args, &config), config.server_url);
    args.server = some("s");
    assert_eq!(choose_server(&args, &config), "s");
    assert_eq!(choose_email(&args, &session()).as_deref(), Some("test@example.com"));
    assert!(check_organization("").is_err());
    assert!(check_organization("o").is_ok());
}

#[test]
fn the_sign_on_address_is_built() {
    assert_eq!(
        sso_target("https://v.example.com/", &None),
        ("cli".to_string(), "http://localhost:8081/sso-callback".to_string())
    );
    assert_eq!(
        build_authorize_url("https://v.example.com/", &None, "chal", "s t", "org"),
        "https://v.example.com/identity/connect/authorize?response_type=code&scope=api%20offline_access&client_id=cli&redirect_uri=http%3A%2F%2Flocalhost%3A8081%2Fsso-callback&code_challenge=chal&code_challenge_method=S256&state=s%20t&acr_values=idp:sso&organizationId=org"
    );
    assert_eq!(
        build_authorize_url("https://v.example.com", &some("t/k"), "chal", "st", "org"),
        "https://v.example.com/identity/connect/authorize?response_type=code&scope=api%20offline_access&client_id=web&redirect_uri=https%3A%2F%2Fv.example.com%2Fsso-connector.html&code_challenge=chal&code_challenge_method=S256&response_mode=query&state=st&_identifier=org&ssoToken=t%2Fk"
    );
}

#[test]
fn pasted_codes_are_read() {
    assert_eq!(parse_auth_code("raw").unwrap(), "raw");
    assert_eq!(parse_auth_code("http://l/cb?state=x&code=a%2Fb%").unwrap(), "a/b%");
    assert_eq!(parse_auth_code("code=abc").unwrap(), "abc");
    assert_eq!(
        parse_auth_code("http://l/cb?xcode=abc").unwrap_err(),
        "Authorization code not found in URL"
    );
    assert!(parse_auth_code("code=%ff").is_err());
}

#[test]
fn a_login_is_verified_with_the_user_key() {
    let (key, email) = derive_and_verify_keys_from_response(
        &full_token(),
        "masterpassword123",
        &None,
        &None,
        "SSO response",
    )
    .unwrap();
    assert_eq!(hex::encode(key), MASTER);
    assert_eq!(email, "test@example.com");
    assert!(derive_and_verify_keys_from_response(&full_token(), "x", &None, &None, "c").is_err());
    let named = derive_and_verify_keys_from_response(
        &full_token(),
        "masterpassword123",
        &None,
        &some("s@e.x"),
        "c",
    );
    assert_eq!(named.unwrap().1, "s@e.x");
    assert_eq!(
        find_unlock_data(&token(None), "SSO response").unwrap_err(),
        "UserDecryptionOptions missing from SSO response. Ensure your account is fully set up."
    );
    let empty = UserDecryptionOptionsJson { has_master_password: true, master_password_unlock: None };
    assert_eq!(
        find_unlock_data(&token(Some(empty)), "c").unwrap_err(),
        "MasterPasswordUnlock data missing from response."
    );
}

#[test]
fn the_password_is_hashed_for_the_server() {
    let (key, hash) =
        password_credentials("masterpassword123", "test@example.com", &prelogin()).unwrap();
    assert_eq!(hex::encode(key), MASTER);
    assert_eq!(hash, "zx241wHoY19qxQbsZK/5OflvUsamPdIJC2RFBeK3Q7M=");
}

#[test]
fn a_login_is_kept() {
    let mut config = Config::default();
    let mut s = Session::start(&config);
    keep_api_key(&mut config, "id".to_string(), "secret".to_string());
    record_login(&mut config, &mut s, &"srv".to_string(), &full_token(), "e".to_string());
    assert_eq!(config.server_url, "srv");
    assert_eq!(config.client_id.as_deref(), Some("id"));
    assert_eq!(s.access_token.as_deref(), Some("access"));
    assert_eq!(s.refresh_token.as_deref(), Some("refresh"));
    assert_eq!(s.email.as_deref(), Some("e"));
    assert_eq!(s.server_url.as_deref(), Some("srv"));
    let key: [u8; 32] = hex::decode(MASTER).unwrap().try_into().unwrap();
    let server = "other".to_string();
    let keys =
        finish_login(&mut config, &mut s, &server, &full_token(), &key, "f".to_string()).unwrap();
    assert_eq!(keys, user_keys());
    assert_eq!((config.server_url.as_str(), s.email.as_deref()), ("other", Some("f")));
    assert!(finish_login(&mut config, &mut s, &server, &full_token(), &[0; 32], String::new())
        .unwrap_err()
        .starts_with("Failed to decrypt symmetric keys: "));
    forget_api_key(&mut config);
    assert_eq!(config.client_id, None);
    assert_eq!(config.client_secret, None);
}

#[test]
fn vaults_are_unlocked_online_and_offline() {
    assert_eq!(session_email(&session()).unwrap(), "test@example.com");
    assert!(session_email(&Session::start(&Config::default())).is_err());
    let derived = derive_online(&Ok(prelogin()), "masterpassword123", "test@example.com");
    assert_eq!(hex::encode(derived.unwrap()), MASTER);
    assert_eq!(derive_online(&Err("off".to_string()), "p", "e"), None);
    let loaded = Ok(cached());
    assert_eq!(open_vault_keys(&derived, &loaded, "").unwrap(), user_keys());
    assert_eq!(open_vault_keys(&None, &loaded, "masterpassword123").unwrap(), user_keys());
    assert!(open_vault_keys(&Some([0; 32]), &loaded, "")
        .unwrap_err()
        .starts_with("Failed to decrypt symmetric keys: "));
    assert_eq!(open_vault_keys(&None, &Err("gone".to_string()), "").unwrap_err(), "gone");
    let mut s = session();
    assert!(!saves_keys(&s));
    s.timeout = "Unlocked".to_string();
    assert!(saves_keys(&s));
}

#[test]
fn settings_are_changed() {
    let args = SettingsArgs {
        timeout: some("1m"),
        timeout_action: some("logout"),
        server_url: some("srv"),
        ssh_agent_auto_start: some(" Yes "),
    };
    let change = handle_settings(&args, Config::default(), session(), &None);
    assert!(change.updated);
    assert!(change.error.is_none());
    assert!(matches!(change.chore, KeysChore::Clear));
    assert_eq!(change.session.timeout, "1m");
    assert_eq!(change.session.timeout_action, TimeoutAction::Logout);
    assert_eq!(change.config.server_url, "srv");
    assert!(change.config.ssh_agent_auto_start);
    assert_eq!(
        change.lines,
        [
            "Timeout updated to: 1m",
            "Timeout action updated to: Logout",
            "Server URL updated to: srv",
            "SSH Agent auto-start updated to: true",
        ]
    );
}

#[test]
fn staying_unlocked_needs_the_password() {
    let mut args = no_settings();
    args.timeout = some("unlocked");
    assert!(needs_password(&args, &session()));
    let refused = handle_settings(&args, Config::default(), session(), &None);
    assert_eq!(
        refused.error.as_deref(),
        Some("Incorrect Master Password. Timeout setting remains unchanged.")
    );
    assert_eq!(refused.session.timeout, "15m");
    let set = handle_settings(&args, Config::default(), session(), &Some(user_keys()));
    assert!(matches!(set.chore, KeysChore::Save(keys) if keys == user_keys()));
    assert_eq!(set.session.timeout, "unlocked");
    let stranger = Session::start(&Config::default());
    assert!(!needs_password(&args, &stranger));
    let set = handle_settings(&args, Config::default(), stranger, &None);
    assert!(matches!(set.chore, KeysChore::Leave));
    assert!(set.updated);
}

#[test]
fn wrong_settings_are_refused() {
    let mut args = no_settings();
    args.timeout_action = some("explode");
    args.server_url = some("srv");
    let change = handle_settings(&args, Config::default(), session(), &None);
    assert!(change.error.unwrap().starts_with("Invalid timeout action"));
    assert_eq!(change.config.server_url, Config::default().server_url);
    let mut args = no_settings();
    args.ssh_agent_auto_start = some("maybe");
    let change = handle_settings(&args, Config::default(), session(), &None);
    assert_eq!(
        change.error.as_deref(),
        Some("Invalid value for ssh_agent_auto_start. Use 'true' or 'false'.")
    );
    assert_eq!(read_flag("0"), Some(false));
    assert_eq!(read_flag("x"), None);
    let change = handle_settings(&no_settings(), Config::default(), session(), &None);
    assert!(!change.updated);
}

#[test]
fn passwords_are_verified() {
    let loaded = Ok(cached());
    assert_eq!(verify_cached(true, &loaded, "masterpassword123"), Some(user_keys()));
    assert_eq!(verify_cached(true, &loaded, "x"), None);
    assert_eq!(verify_cached(false, &loaded, "masterpassword123"), None);
    assert_eq!(verify_cached(true, &Err("gone".to_string()), "x"), None);
    let verify = |p: &str| verify_online(&prelogin(), &loaded, p, "test@example.com");
    assert_eq!(verify("masterpassword123"), Some(user_keys()));
    assert_eq!(verify("x"), None);
}

#[test]
fn settings_are_shown() {
    assert_eq!(
        settings_lines(&Config::default(), &session()),
        [
            "Current settings:",
            "  Server URL:     https://api.bitwarden.com",
            "  Email:          test@example.com",
            "  Session Timeout: 15m",
            "  Timeout Action:  Lock",
            "  SSH Agent Auto-Start: false",
        ]
    );
}

#[test]
fn the_status_is_shown() {
    assert_eq!(lock_time_text(59), "59s");
    assert_eq!(lock_time_text(60), "1m 0s");
    assert_eq!(
        status_lines(&Config::default(), &session(), &Some(Ok(response("ok", None)))),
        [
            "bitter Status:",
            "  Server URL:     https://api.bitwarden.com",
            "  Login Status:   Logged In",
            "  Logged in User: test@example.com",
            "  Login Method:   Master Password",
            "  Daemon Status:   Running",
            "  Daemon Vault:    Unlocked",
            "  Keys in vault: 2",
            "  Time to Auto-Lock: 2m 5s",
            "  Timeout Setting: 15m",
            "  Timeout Action:  Lock",
            "  SSH Agent Auto-Start: false",
            "  Last Synced:    Never",
        ]
    );
    let stranger = Session::start(&Config::default());
    let lines = status_lines(&Config::default(), &stranger, &None);
    assert_eq!(lines[2], "  Login Status:   Not Logged In");
    assert_eq!(lines[3], "  Daemon Status:   Not Running");
    let lines = status_lines(&Config::default(), &stranger, &Some(Err("x".to_string())));
    assert_eq!(lines[4], "  Agent Details:  Could not query (Error: x)");
}
