use base64::prelude::BASE64_STANDARD;
use base64::Engine;
use bitter::api::RefreshTokenResponse;
use bitter::config::{
    check_claims, check_token, effective_timeout, find_token_payload, generate_cache_salt,
    generate_device_id, keeps_keys, never_locks, parse_duration, plan_token, Config, Session,
    TimeoutAction, TokenStep,
};

fn some(s: &str) -> Option<String> {
    Some(s.to_string())
}

fn token(claims: &str) -> String {
    let body = base64::prelude::BASE64_URL_SAFE_NO_PAD.encode(claims);
    format!("head.{}.sig", body)
}

#[test]
fn the_settings_begin_with_defaults() {
    let config = Config::default();
    assert_eq!(config.server_url, "https://api.bitwarden.com");
    assert_eq!(config.timeout, "15m");
    assert_eq!(config.timeout_action, TimeoutAction::Lock);
    assert_eq!(config.email, None);
    assert_eq!(config.parse_timeout_duration().unwrap(), Some(900));
    assert_eq!(config.checked_timeout().unwrap().unwrap(), Some(900));
}

#[test]
fn timeouts_are_read() {
    assert_eq!(parse_duration("immediately").unwrap(), Some(0));
    assert_eq!(parse_duration("1m").unwrap(), Some(60));
    assert_eq!(parse_duration("4h").unwrap(), Some(14400));
    assert_eq!(parse_duration("never").unwrap(), None);
    assert_eq!(parse_duration("on logout").unwrap(), None);
    let mut config = Config::default();
    for setting in
        ["immediately", "1m", "5m", "15m", "30m", "1h", "4h", "On Logout", "never", "custom 7"]
    {
        config.timeout = setting.to_string();
        assert!(config.checked_timeout().unwrap().is_ok(), "{}", setting);
    }
    assert_eq!(parse_duration("custom 300").unwrap(), Some(300));
    assert!(parse_duration("soon").is_err());
    assert_eq!(effective_timeout(" 15M "), Some(Some(900)));
    assert_eq!(effective_timeout("soon"), Some(None));
}

#[test]
fn modes_are_recognized() {
    assert!(keeps_keys(" Unlocked"));
    assert!(!keeps_keys("never"));
    assert!(never_locks("NEVER "));
    assert!(!never_locks("unlocked"));
}

#[test]
fn the_settings_file_lies_in_its_directory() {
    assert_eq!(Config::config_path(&some("/etc/b")).as_deref(), Some("/etc/b/config.toml"));
    assert_eq!(Config::config_path(&None), None);
}

#[test]
fn tokens_run_out() {
    let now = 1_000_000;
    assert!(!check_token(&Some(token("{\"exp\":1000600}")), now));
    assert!(!check_token(&Some(token("{\"exp\":1000061}")), now));
    assert!(check_token(&Some(token("{\"exp\":1000060}")), now));
    assert!(check_token(&Some(token("{\"sub\":\"x\"}")), now));
    assert!(check_token(&some("no token"), now));
    assert!(check_token(&None, now));
    assert!(check_claims(&None, now));
}

#[test]
fn the_payload_is_the_middle_part() {
    assert_eq!(find_token_payload("a.b.c").as_deref(), Some("b==="));
    assert_eq!(find_token_payload("a.b-_d.c").as_deref(), Some("b+/d"));
    assert_eq!(find_token_payload("a"), None);
}

#[test]
fn a_token_is_ready_refreshed_or_refused() {
    assert!(matches!(plan_token(&some("t"), &None, false), TokenStep::Ready(t) if t == "t"));
    assert!(
        matches!(plan_token(&some("t"), &some("r"), true), TokenStep::Refresh(t) if t == "r")
    );
    assert!(matches!(plan_token(&some("t"), &None, true), TokenStep::Refused(_)));
    let mut session = Session::start(&Config::default());
    session.access_token = Some(token("{\"exp\":10}"));
    session.refresh_token = some("r");
    assert!(session.is_token_expired(20));
    assert!(matches!(session.get_valid_token(20), TokenStep::Refresh(_)));
}

#[test]
fn a_refresh_replaces_the_token() {
    let mut session = Session::start(&Config::default());
    session.refresh_token = some("old");
    let reply = RefreshTokenResponse {
        access_token: "new".to_string(),
        expires_in: 3600,
        token_type: "Bearer".to_string(),
        refresh_token: None,
    };
    assert_eq!(session.accept_refresh(Ok(reply)).unwrap(), "new");
    assert_eq!(session.access_token.as_deref(), Some("new"));
    assert_eq!(session.refresh_token.as_deref(), Some("old"));
    assert!(session.accept_refresh(Err("no".to_string())).is_err());
    assert_eq!(session.access_token.as_deref(), Some("new"));
}

#[test]
fn devices_and_salts_are_fresh() {
    let id = generate_device_id();
    assert_eq!(id.len(), 36);
    assert_eq!(id.matches('-').count(), 4);
    assert_ne!(id, generate_device_id());
    let salt = generate_cache_salt();
    assert_eq!(BASE64_STANDARD.decode(&salt).unwrap().len(), 16);
    let mut config = Config::default();
    assert_eq!(config.device_id.as_bytes()[14], b'4');
    assert_eq!(BASE64_STANDARD.decode(config.cache_salt.as_ref().unwrap()).unwrap().len(), 16);
    config.cache_salt = None;
    assert!(config.ensure_cache_salt());
    let kept = config.cache_salt.clone();
    assert_eq!(BASE64_STANDARD.decode(kept.as_ref().unwrap()).unwrap().len(), 16);
    assert!(!config.ensure_cache_salt());
    assert_eq!(config.cache_salt, kept);
}
