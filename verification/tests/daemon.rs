use bitter::api::{
    CipherSync, KdfSync, MasterPasswordUnlockSync, ProfileSync, SyncResponse, UserDecryptionSync,
};
use bitter::config::{Config, Session, TimeoutAction};
use bitter::daemon::hub::{
    binary_events, handle_surgical_cipher_update, handshake, hub_step, hub_url, may_update,
    next_pause, read_event, read_json_message, read_packed_message, read_varint, text_events,
    Frame, HubAction, HubEvent,
};
use bitter::daemon::unlock::{
    accept_password, check_foreground, check_unlock, pick_terminal, take_chunk, terminal_links,
    unlock_cached,
};
use bitter::daemon::{
    agent_paths, choose_username, count_active_user_sessions, finish_control, parse_pid,
    refuse_control, reload_from, start_state, time_left, AgentState, Chore, ControlRequest,
    KeysContext, WatchdogAction,
};
use bitter::tree::{get_map_val, Tree};

const WRAPPED: &str = "2.chOY1e83gPUtqngc0hmuXA==|cNv3ZnXOsdjreayko4knSUEU5RKd+xHpCkhSkBBlf4+th744fAIaEulAJfEBf4gmmdH1Qdkg1+mLJarSnuyKDw/6a9DEvXpuQOvfyyHQJ7Q=|W3pAWa6CTi/GQyx5U9mxg21G69mtQ6mHWCk6fVOQfq8=";

fn some(s: &str) -> Option<String> {
    Some(s.to_string())
}

fn user_keys() -> ([u8; 32], [u8; 32]) {
    let all: Vec<u8> = (0u8..64).collect();
    (all[..32].try_into().unwrap(), all[32..].try_into().unwrap())
}

fn item(id: &str, kind: i32, name: Option<String>) -> CipherSync {
    CipherSync {
        id: id.to_string(),
        organization_id: None,
        folder_id: None,
        kind,
        name,
        notes: None,
        favorite: false,
        reprompt: 0,
        organization_use_totp: false,
        edit: true,
        view_password: true,
        creation_date: "2026-01-01".to_string(),
        revision_date: "2026-01-02".to_string(),
        deleted_date: None,
        archived_date: None,
        key: None,
        login: None,
        card: None,
        identity: None,
        secure_note: None,
        ssh_key: None,
        fields: None,
        attachments: None,
        collection_ids: None,
        password_history: None,
        permissions: None,
        object: "cipherDetails".to_string(),
        extra: "{}".to_string(),
    }
}

fn vault(ciphers: Vec<CipherSync>) -> SyncResponse {
    SyncResponse {
        profile: ProfileSync {
            id: "user-123".to_string(),
            email: "test@example.com".to_string(),
            email_verified: false,
            name: some("Test User"),
            premium: false,
            premium_from_organization: false,
            private_key: None,
            public_key: None,
            security_stamp: None,
            two_factor_enabled: false,
            uses_key_connector: false,
            culture: "en-US".to_string(),
            creation_date: String::new(),
            avatar_color: None,
            force_password_reset: false,
            key: "wrapped-key".to_string(),
            organizations: None,
            provider_organizations: None,
            providers: None,
            _status: None,
            object: "profile".to_string(),
            extra: "{\"customField\":\"Custom Value\"}".to_string(),
        },
        ciphers,
        folders: None,
        domains: None,
        policies: None,
        sends: None,
        object: "sync".to_string(),
        user_decryption: None,
        extra: "{\"customSyncField\":\"Custom Sync Value\"}".to_string(),
    }
}

const SECOND: u128 = 1_000_000_000;

fn session(timeout: &str) -> Session {
    let mut session = Session::start(&Config::default());
    session.user_id = some("user-123");
    session.timeout = timeout.to_string();
    session
}

fn locked(timeout: Option<u64>, action: TimeoutAction) -> AgentState {
    AgentState { keys: None, timeout, timeout_action: action, ssh_agent_active: false }
}

fn unlocked(timeout: Option<u64>, action: TimeoutAction) -> AgentState {
    let (enc_key, mac_key) = user_keys();
    AgentState {
        keys: Some(KeysContext { user_id: "user-123".to_string(), enc_key, mac_key }),
        ..locked(timeout, action)
    }
}

fn unlock_request() -> ControlRequest {
    let (enc, mac) = user_keys();
    ControlRequest::Unlock {
        user_id: "user-123".to_string(),
        enc_key: hex::encode(enc),
        mac_key: hex::encode(mac),
    }
}

#[test]
fn unlocking_holds_the_keys_that_were_sent() {
    let mut agent = locked(None, TimeoutAction::Lock);
    assert!(!agent.syncs_at_start());
    let plan = agent.handle_control(unlock_request(), 0, None);
    assert!(plan.touch);
    assert!(matches!(plan.chore, Chore::SyncVault));
    assert!(agent.syncs_at_start());
    let reply = finish_control(plan, Ok(0));
    assert_eq!(reply.status, "ok");
    assert_eq!(reply.unlocked, Some(true));
    let held = agent.keys.unwrap();
    assert_eq!((held.enc_key, held.mac_key), user_keys());
    assert_eq!(held.user_id, "user-123");
}

#[test]
fn broken_keys_are_refused() {
    let mut agent = locked(None, TimeoutAction::Lock);
    for (enc, mac) in [("zz", "00"), ("00", "00")] {
        let plan = agent.handle_control(
            ControlRequest::Unlock {
                user_id: "u".to_string(),
                enc_key: enc.to_string(),
                mac_key: mac.to_string(),
            },
            0,
            None,
        );
        let reply = finish_control(plan, Ok(0));
        assert_eq!(reply.status, "error");
        assert!(reply.error.is_some());
        assert!(agent.keys.is_none());
    }
}

#[test]
fn locking_drops_the_keys_here() {
    let mut agent = unlocked(None, TimeoutAction::Lock);
    let plan = agent.handle_control(ControlRequest::Lock, 0, None);
    let reply = finish_control(plan, Ok(0));
    assert_eq!(reply.status, "ok");
    assert_eq!(reply.unlocked, Some(false));
    assert!(agent.keys.is_none());
}

#[test]
fn the_status_speaks_of_the_asking_user() {
    let mut agent = unlocked(Some(900), TimeoutAction::Lock);
    let plan = agent.handle_control(
        ControlRequest::Status { user_id: some("user-123") },
        60 * SECOND,
        None,
    );
    assert_eq!(plan.count_for.as_deref(), Some("user-123"));
    assert!(!plan.touch);
    let reply = finish_control(plan, Ok(3));
    assert_eq!(reply.unlocked, Some(true));
    assert_eq!(reply.key_count, Some(3));
    assert_eq!(reply.time_to_lock, Some(840));
    let plan =
        agent.handle_control(ControlRequest::Status { user_id: some("other") }, 0, None);
    assert_eq!(finish_control(plan, Ok(0)).unlocked, Some(false));
}

#[test]
fn the_ssh_agent_is_started_and_stopped_once() {
    let mut agent = locked(None, TimeoutAction::Lock);
    let plan = agent.handle_control(ControlRequest::StopSshAgent, 0, None);
    assert!(plan.error.is_some());
    let plan = agent.handle_control(ControlRequest::StartSshAgent, 0, None);
    assert!(matches!(plan.chore, Chore::StartListener));
    assert!(agent.ssh_agent_active);
    let plan = agent.handle_control(ControlRequest::StartSshAgent, 0, None);
    assert!(plan.error.is_some());
    let plan = agent.handle_control(ControlRequest::StopSshAgent, 0, None);
    assert!(matches!(plan.chore, Chore::StopListener));
    assert!(!agent.ssh_agent_active);
}

#[test]
fn reloading_takes_the_settings_of_the_session() {
    let mut agent = unlocked(Some(900), TimeoutAction::Lock);
    let mut other = session("1m");
    other.user_id = some("someone-else");
    other.timeout_action = TimeoutAction::Logout;
    agent.handle_control(ControlRequest::Reload, 0, reload_from(&other));
    assert_eq!(agent.timeout, Some(60));
    assert_eq!(agent.timeout_action, TimeoutAction::Logout);
    assert!(agent.keys.is_none());
}

#[test]
fn a_request_that_cannot_be_read_is_refused() {
    let reply = refuse_control("bad");
    assert_eq!(reply.status, "error");
    assert!(reply.error.unwrap().contains("bad"));
}

#[test]
fn saved_keys_are_taken_up_at_the_start() {
    let loaded = reload_from(&session("unlocked")).unwrap();
    let agent = start_state(loaded, Some(user_keys()), true);
    assert!(agent.keys.is_some());
    assert!(agent.ssh_agent_active);
    let loaded = reload_from(&session("15m")).unwrap();
    let agent = start_state(loaded, Some(user_keys()), false);
    assert!(agent.keys.is_none());
    assert_eq!(agent.timeout, Some(900));
}

#[test]
fn the_watchdog_locks_after_the_timeout() {
    let mut agent = unlocked(Some(60), TimeoutAction::Lock);
    assert!(matches!(agent.watch(Some(1), 60 * SECOND - 1), WatchdogAction::Nothing));
    assert!(agent.keys.is_some());
    assert!(matches!(agent.watch(None, 60 * SECOND), WatchdogAction::Locked));
    assert!(agent.keys.is_none());
    let mut agent = unlocked(Some(60), TimeoutAction::Logout);
    assert!(matches!(agent.watch(Some(2), 61 * SECOND), WatchdogAction::LoggedOut));
    let mut agent = unlocked(None, TimeoutAction::Lock);
    assert!(matches!(agent.watch(Some(2), 61 * SECOND), WatchdogAction::Nothing));
    assert!(matches!(agent.watch(Some(0), 0), WatchdogAction::Exit));
}

#[test]
fn the_time_left_counts_down() {
    assert_eq!(time_left(60, 0), 60);
    assert_eq!(time_left(60, 59 * SECOND), 1);
    assert_eq!(time_left(60, 61 * SECOND), 0);
}

#[test]
fn agent_files_lie_together() {
    let paths = agent_paths("/cache", &None);
    assert_eq!(paths.pid, "/cache/agent.pid");
    assert_eq!(paths.socket, "/cache/ssh-agent.sock");
    assert_eq!(paths.control, "/cache/ssh-agent.sock.control");
    assert_eq!(agent_paths("/cache", &some("/run/s")).control, "/run/s.control");
}

#[test]
fn pids_are_read() {
    assert_eq!(parse_pid(" 42\n").unwrap(), 42);
    assert!(parse_pid("x").is_err());
    assert!(parse_pid("").is_err());
    assert!(parse_pid("99999999999").is_err());
}

#[test]
fn the_user_is_named() {
    assert_eq!(choose_username(&some("a"), &some("b"), &None), "a");
    assert_eq!(choose_username(&some(""), &some("b"), &None), "b");
    assert_eq!(choose_username(&None, &None, &some(" c\n")), "c");
    assert_eq!(choose_username(&None, &None, &None), "");
}

#[test]
fn sessions_are_counted_by_name() {
    let who = some("ann tty1 2026\nbob pts/0\n\nann   pts/1\nanna pts/2\n");
    assert_eq!(count_active_user_sessions(&who, "ann"), 2);
    assert_eq!(count_active_user_sessions(&who, "eve"), 0);
    assert_eq!(count_active_user_sessions(&None, "eve"), 1);
}

#[test]
fn the_hub_is_addressed() {
    assert_eq!(
        hub_url("https://n.example.com/", "tok"),
        "wss://n.example.com/notifications/hub?access_token=tok"
    );
    assert!(handshake().eq("{\"protocol\":\"json\",\"version\":1}\u{1e}"));
}

#[test]
fn lengths_are_read() {
    assert_eq!(read_varint(&[0x05, 9]), Some((5, &[9u8][..])));
    assert_eq!(read_varint(&[0xac, 0x02]), Some((300, &[][..])));
    assert_eq!(read_varint(&[0x80]), None);
    assert_eq!(read_varint(&[0x80, 0x80, 0x80, 0x80, 0x80, 1]), None);
    assert_eq!(read_varint(&[]), None);
}

#[test]
fn json_messages_are_read() {
    let frame = "{\"type\":1,\"target\":\"ReceiveMessage\",\"arguments\":[{\"Type\":1,\"Payload\":{\"Id\":\"abc\"}}]}\u{1e}{\"type\":6}\u{1e}";
    let events = text_events(frame);
    assert_eq!(events.len(), 1);
    assert!(matches!(&events[0], HubEvent::CipherChanged(id) if id == "abc"));
    assert!(text_events("no json").is_empty());
}

#[test]
fn arguments_are_read() {
    let text = |s: &str| Tree::Text(Some(s.to_string()));
    let pair = |k: &str, v: Tree| (text(k), v);
    let cipher = |members: Vec<(Tree, Tree)>| {
        let mut all = vec![pair("Type", Tree::Number(Some(1)))];
        all.extend(members);
        Tree::Pairs(all)
    };
    let id_of = |arg: &Tree, packed: bool| match read_event(arg, packed) {
        Some(HubEvent::CipherChanged(id)) => Some(id),
        _ => None,
    };
    let inner = cipher(vec![pair("Payload", Tree::Pairs(vec![pair("id", text("x"))]))]);
    assert_eq!(id_of(&inner, false), some("x"));
    assert_eq!(id_of(&inner, true), None);
    let outer = cipher(vec![pair("Payload", Tree::Opaque), pair("Id", text("y"))]);
    assert_eq!(id_of(&outer, false), some("y"));
    assert_eq!(id_of(&outer, true), some("y"));
    assert_eq!(id_of(&cipher(vec![]), false), None);
    for kind in [0, 4, 5] {
        let arg = Tree::Pairs(vec![pair("Type", Tree::Number(Some(kind)))]);
        assert!(matches!(read_event(&arg, false), Some(HubEvent::VaultChanged(k)) if k == kind));
    }
    let other = Tree::Pairs(vec![pair("Type", Tree::Number(Some(7)))]);
    assert!(read_event(&other, false).is_none());
    assert!(read_event(&Tree::Opaque, true).is_none());
    assert!(read_json_message(&None).is_empty());
    assert!(read_packed_message(&Tree::List(vec![])).is_empty());
    let pairs = vec![pair("a", Tree::Number(None)), pair("b", text("1")), pair("b", text("2"))];
    assert_eq!(get_map_val(&pairs, "b").unwrap().as_text().unwrap(), "1");
    assert!(get_map_val(&pairs, "c").is_none());
    let tree = Tree::Pairs(pairs);
    assert_eq!(tree.get_text("b").unwrap(), "1");
    assert_eq!(tree.get_number("a"), None);
    assert_eq!(Tree::Number(Some(3)).as_number(), Some(3));
}

#[test]
fn packed_messages_are_read() {
    let pair = |k: &str, v: rmpv::Value| (rmpv::Value::from(k), v);
    let argument = rmpv::Value::Map(vec![
        pair("Type", rmpv::Value::from(5)),
        pair("Payload", rmpv::Value::Map(vec![pair("Id", rmpv::Value::from("abc"))])),
    ]);
    let message = rmpv::Value::Array(vec![
        rmpv::Value::from(1),
        rmpv::Value::Map(vec![]),
        rmpv::Value::Nil,
        rmpv::Value::from("ReceiveMessage"),
        rmpv::Value::Array(vec![argument]),
    ]);
    let mut body = Vec::new();
    rmpv::encode::write_value(&mut body, &message).unwrap();
    let mut frame = vec![body.len() as u8];
    frame.extend(body);
    let events = binary_events(&frame);
    assert_eq!(events.len(), 1);
    assert!(matches!(&events[0], HubEvent::VaultChanged(5)));
    assert!(binary_events(&[3, 1]).is_empty());
}

#[test]
fn frames_are_acted_on() {
    assert!(matches!(hub_step(true, &Frame::Ping), HubAction::Hangup));
    assert!(matches!(hub_step(false, &Frame::Ping), HubAction::Pong));
    assert!(matches!(hub_step(false, &Frame::Close), HubAction::Finish));
    assert!(matches!(hub_step(false, &Frame::Other), HubAction::Ignore));
    assert!(matches!(hub_step(false, &Frame::Text("{}".to_string())), HubAction::Process(_)));
}

#[test]
fn pauses_grow_and_stop_growing() {
    assert_eq!(next_pause(40, false, false), (5, 10));
    assert_eq!(next_pause(10, true, true), (10, 20));
    assert_eq!(next_pause(200, true, true), (200, 300));
    assert_eq!(next_pause(200, true, false).1, 10);
}

#[test]
fn a_changed_item_is_saved_or_removed() {
    assert!(may_update(&None).is_err());
    let fetched = Ok(item("abc", 1, None));
    let plan =
        handle_surgical_cipher_update(&fetched, &"abc".to_string(), &some("user-123")).unwrap();
    assert!(!plan.is_empty());
    assert!(handle_surgical_cipher_update(&fetched, &"abc".to_string(), &None).is_err());
}

#[test]
fn the_terminal_of_a_client_is_found() {
    assert_eq!(terminal_links(7), ["/proc/7/fd/2", "/proc/7/fd/0", "/proc/7/fd/1"]);
    assert_eq!(
        pick_terminal(&[None, some("/dev/null"), some("/dev/pts/3")]).unwrap(),
        "/dev/pts/3"
    );
    assert_eq!(pick_terminal(&[some("/dev/tty")]).unwrap(), "/dev/tty");
    assert_eq!(
        pick_terminal(&[some("/dev/tty1")]).unwrap_err(),
        "Could not resolve client TTY path"
    );
}

#[test]
fn only_the_foreground_is_asked() {
    assert!(check_foreground(5, 5).is_ok());
    assert!(check_foreground(-1, 5).is_ok());
    assert!(check_foreground(5, -1).is_ok());
    assert_eq!(
        check_foreground(5, 6).unwrap_err(),
        "Client is not in the foreground process group of the TTY"
    );
}

#[test]
fn the_prompt_waits_for_the_line() {
    assert_eq!(check_unlock(true, &None, false), Ok(false));
    assert_eq!(check_unlock(false, &None, true).unwrap_err(), "Not logged in");
    assert_eq!(
        check_unlock(false, &some("e"), false).unwrap_err(),
        "Local database cache is empty"
    );
    assert_eq!(check_unlock(false, &some("e"), true), Ok(true));
    let mut typed = String::new();
    assert!(!take_chunk(&mut typed, "hun"));
    assert!(take_chunk(&mut typed, "ter2\n"));
    assert_eq!(accept_password(&typed).unwrap(), "hunter2");
    assert!(take_chunk(&mut String::new(), "\r"));
    assert_eq!(accept_password(" \n").unwrap_err(), "Empty password");
}

#[test]
fn the_typed_password_unlocks_the_cache() {
    let mut sync = vault(vec![]);
    sync.profile.key = WRAPPED.to_string();
    sync.user_decryption = Some(UserDecryptionSync {
        master_password_unlock: Some(MasterPasswordUnlockSync {
            kdf: KdfSync { kdf_type: 0, iterations: 5000, memory: None, parallelism: None },
            master_key_wrapped_user_key: WRAPPED.to_string(),
            salt: "test@example.com".to_string(),
        }),
    });
    let loaded = Ok(sync);
    let held = unlock_cached(&loaded, "masterpassword123").unwrap();
    assert_eq!((held.enc_key, held.mac_key), user_keys());
    assert_eq!(held.user_id, "user-123");
    assert!(unlock_cached(&loaded, "wrong")
        .unwrap_err()
        .starts_with("Failed to decrypt local database offline: "));
    assert_eq!(
        unlock_cached(&Err("gone".to_string()), "x").unwrap_err(),
        "Password incorrect or local database load failed: gone"
    );
}
