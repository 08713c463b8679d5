//! The background agent: its state, the requests that control it, its watchdog, and the ways
//! in which it is unlocked.
use vstd::prelude::*;
use vstd::string::*;

use crate::config;
use crate::config::{Session, TimeoutAction};
use crate::crypto;
use crate::number;
use crate::primitives;
use crate::storage;
use crate::storage::repository;
use crate::storage::Keys;
use crate::text;

pub mod hub;
pub mod ssh;
pub mod unlock;

verus! {

// ---------------------------------------------------------------------------
// State and messages
// ---------------------------------------------------------------------------
/// The keys of the unlocked vault, and whose they are.
#[derive(Debug)]
pub struct KeysContext {
    pub user_id: String,
    pub enc_key: [u8; 32],
    pub mac_key: [u8; 32],
}

/// The value of a [`KeysContext`].
pub struct HeldKeys {
    pub user_id: Seq<char>,
    pub enc_key: Seq<u8>,
    pub mac_key: Seq<u8>,
}

impl View for KeysContext {
    type V = HeldKeys;

    open spec fn view(&self) -> HeldKeys {
        HeldKeys { user_id: self.user_id@, enc_key: self.enc_key@, mac_key: self.mac_key@ }
    }
}

impl Clone for KeysContext {
    fn clone(&self) -> (r: Self)
        ensures
            r == *self,
    {
        KeysContext {
            user_id: self.user_id.clone(),
            enc_key: self.enc_key,
            mac_key: self.mac_key,
        }
    }
}

/// A request on the control socket; keys are in hexadecimal.
#[allow(inconsistent_fields)]
#[derive(Debug)]
pub enum ControlRequest {
    Unlock { user_id: String, enc_key: String, mac_key: String },
    Lock,
    Status { user_id: Option<String> },
    Reload,
    StartSshAgent,
    StopSshAgent,
}

/// The answer on the control socket.
#[derive(Debug)]
pub struct ControlResponse {
    pub status: String,
    pub error: Option<String>,
    pub unlocked: Option<bool>,
    pub key_count: Option<usize>,
    pub time_to_lock: Option<u64>,
    pub ssh_agent_active: Option<bool>,
}

/// The state of the agent: the keys while it is unlocked, the timeout in seconds, what happens
/// after it, and whether it listens for SSH clients.
#[derive(Debug)]
pub struct AgentState {
    pub keys: Option<KeysContext>,
    pub timeout: Option<u64>,
    pub timeout_action: TimeoutAction,
    pub ssh_agent_active: bool,
}

/// The value of an [`AgentState`].
#[verifier::ext_equal]
pub struct Agent {
    pub keys: Option<HeldKeys>,
    pub timeout: Option<u64>,
    pub timeout_action: TimeoutAction,
    pub ssh_agent_active: bool,
}

impl View for AgentState {
    type V = Agent;

    open spec fn view(&self) -> Agent {
        Agent {
            keys: storage::part_view(self.keys),
            timeout: self.timeout,
            timeout_action: self.timeout_action,
            ssh_agent_active: self.ssh_agent_active,
        }
    }
}

/// What a reload takes over from the session.
#[derive(Debug)]
pub struct Reloaded {
    pub timeout: Option<u64>,
    pub timeout_action: TimeoutAction,
    pub user_id: Option<String>,
    pub keeps_keys: bool,
}

/// What a reload takes over from the session, or nothing where the seconds of its timeout do
/// not fit in 64 bits.
pub fn reload_from(session: &Session) -> (r: Option<Reloaded>)
    ensures
        match r {
            Some(loaded) => {
                &&& config::effective_seconds(session.timeout@) == match loaded.timeout {
                    Some(seconds) => Some(seconds as nat),
                    None => None,
                }
                &&& loaded.timeout_action == session.timeout_action
                &&& loaded.user_id == session.user_id
                &&& loaded.keeps_keys == (config::normalized(session.timeout@) == "unlocked"@)
            },
            None => !config::timeout_fits(config::normalized(session.timeout@)),
        },
{
    match config::effective_timeout(&session.timeout) {
        Some(timeout) => Some(
            Reloaded {
                timeout,
                timeout_action: session.timeout_action,
                user_id: text::copy_option(&session.user_id),
                keeps_keys: config::keeps_keys(&session.timeout),
            },
        ),
        None => None,
    }
}

/// What is to be done outside for a request.
#[derive(Debug, Clone, Copy, PartialEq, Eq, Structural)]
pub enum Chore {
    Nothing,
    /// Begin to listen for SSH clients.
    StartListener,
    /// Stop listening for SSH clients.
    StopListener,
    /// Forget the keys on disk.
    ForgetSavedKeys,
    /// Fetch the vault in the background.
    SyncVault,
}

/// The answer to a request, before the items of the vault are counted.
#[derive(Debug)]
pub struct ControlPlan {
    /// The fault, where the request is refused.
    pub error: Option<String>,
    pub unlocked: bool,
    /// The user whose items are counted; none are where there is no user.
    pub count_for: Option<String>,
    pub time_to_lock: Option<u64>,
    pub ssh_agent_active: bool,
    /// Whether the request counts as activity.
    pub touch: bool,
    pub chore: Chore,
}

/// The value of a [`ControlPlan`].
pub struct Plan {
    pub error: Option<Seq<char>>,
    pub unlocked: bool,
    pub count_for: Option<Seq<char>>,
    pub time_to_lock: Option<u64>,
    pub ssh_agent_active: bool,
    pub touch: bool,
    pub chore: Chore,
}

impl View for ControlPlan {
    type V = Plan;

    open spec fn view(&self) -> Plan {
        Plan {
            error: text::option_view(self.error),
            unlocked: self.unlocked,
            count_for: text::option_view(self.count_for),
            time_to_lock: self.time_to_lock,
            ssh_agent_active: self.ssh_agent_active,
            touch: self.touch,
            chore: self.chore,
        }
    }
}

// ---------------------------------------------------------------------------
// What a request does
// ---------------------------------------------------------------------------
/// The user whose keys are held.
pub open spec fn holder(agent: Agent) -> Option<Seq<char>> {
    match agent.keys {
        Some(keys) => Some(keys.user_id),
        None => None,
    }
}

/// The answer that reports the state, with a fault where there is one.
pub open spec fn report(agent: Agent, error: Option<Seq<char>>) -> Plan {
    Plan {
        error,
        unlocked: agent.keys is Some,
        count_for: holder(agent),
        time_to_lock: None,
        ssh_agent_active: agent.ssh_agent_active,
        touch: false,
        chore: Chore::Nothing,
    }
}

/// The keys that an unlock request brings.
pub open spec fn brought_keys(enc_key: Seq<char>, mac_key: Seq<char>) -> Result<
    (Seq<u8>, Seq<u8>),
    Seq<char>,
> {
    if !primitives::is_hex(enc_key) || !primitives::is_hex(mac_key) {
        Err("Failed to decode hex security keys"@)
    } else {
        match repository::key_pair(
            primitives::hex_decoded(enc_key),
            primitives::hex_decoded(mac_key),
        ) {
            Some(keys) => Ok(keys),
            None => Err("Security keys must be exactly 32 bytes"@),
        }
    }
}

/// An unlock request: with a pair of keys of 32 bytes each the agent holds them, otherwise it
/// stays as it is.
pub open spec fn on_unlock(
    agent: Agent,
    user_id: Seq<char>,
    enc_key: Seq<char>,
    mac_key: Seq<char>,
) -> (Agent, Plan) {
    match brought_keys(enc_key, mac_key) {
        Ok((enc_key, mac_key)) => {
            let after = Agent {
                keys: Some(HeldKeys { user_id, enc_key, mac_key }),
                ..agent
            };
            (after, Plan { touch: true, chore: Chore::SyncVault, ..report(after, None) })
        },
        Err(e) => (agent, report(agent, Some(e))),
    }
}

/// Whether the vault is unlocked for a user, or for anyone where none is named.
pub open spec fn unlocked_for(agent: Agent, user_id: Option<Seq<char>>) -> bool {
    match (agent.keys, user_id) {
        (Some(keys), Some(user_id)) => keys.user_id == user_id,
        (Some(_), None) => true,
        (None, _) => false,
    }
}

/// The whole seconds that are left of `timeout` seconds after `elapsed` nanoseconds.
pub open spec fn seconds_left(timeout: u64, elapsed: u128) -> nat {
    let total = timeout as nat * 1_000_000_000;
    if elapsed >= total {
        0
    } else {
        ((total - elapsed) / 1_000_000_000) as nat
    }
}

/// A status request.
pub open spec fn on_status(agent: Agent, user_id: Option<Seq<char>>, elapsed: u128) -> Plan {
    let unlocked = unlocked_for(agent, user_id);
    Plan {
        unlocked,
        count_for: if unlocked {
            holder(agent)
        } else {
            None
        },
        time_to_lock: match agent.timeout {
            Some(timeout) => if unlocked {
                Some(seconds_left(timeout, elapsed) as u64)
            } else {
                None
            },
            None => None,
        },
        ..report(agent, None)
    }
}

/// A reload: the timeout is that of the session, and keys of another user are dropped. Without
/// a session everything is.
pub open spec fn on_reload(agent: Agent, loaded: Option<Reloaded>) -> (Agent, Plan) {
    match loaded {
        Some(loaded) => {
            let kept = match agent.keys {
                Some(keys) => if text::option_view(loaded.user_id) == Some(keys.user_id) {
                    Some(keys)
                } else {
                    None
                },
                None => None,
            };
            let after = Agent {
                keys: kept,
                timeout: loaded.timeout,
                timeout_action: loaded.timeout_action,
                ..agent
            };
            (
                after,
                Plan {
                    touch: true,
                    chore: if loaded.keeps_keys {
                        Chore::Nothing
                    } else {
                        Chore::ForgetSavedKeys
                    },
                    ..report(after, None)
                },
            )
        },
        None => {
            let after = Agent { keys: None, timeout: None, ..agent };
            (after, report(after, None))
        },
    }
}

/// A request to listen for SSH clients.
pub open spec fn on_start(agent: Agent) -> (Agent, Plan) {
    if agent.ssh_agent_active {
        (agent, report(agent, Some("SSH agent is already running"@)))
    } else {
        let after = Agent { ssh_agent_active: true, ..agent };
        (after, Plan { chore: Chore::StartListener, ..report(after, None) })
    }
}

/// A request to stop listening for SSH clients.
pub open spec fn on_stop(agent: Agent) -> (Agent, Plan) {
    if agent.ssh_agent_active {
        let after = Agent { ssh_agent_active: false, ..agent };
        (after, Plan { chore: Chore::StopListener, ..report(after, None) })
    } else {
        (agent, report(agent, Some("SSH agent is not running"@)))
    }
}

/// What a request does to the agent, and how it is answered. `elapsed` are the nanoseconds
/// since the last activity; `loaded` is what the session says, for a reload.
pub open spec fn on_request(
    agent: Agent,
    request: ControlRequest,
    elapsed: u128,
    loaded: Option<Reloaded>,
) -> (Agent, Plan) {
    match request {
        ControlRequest::Unlock { user_id, enc_key, mac_key } => on_unlock(
            agent,
            user_id@,
            enc_key@,
            mac_key@,
        ),
        ControlRequest::Lock => {
            let after = Agent { keys: None, ..agent };
            (after, report(after, None))
        },
        ControlRequest::Status { user_id } => (
            agent,
            on_status(agent, text::option_view(user_id), elapsed),
        ),
        ControlRequest::Reload => on_reload(agent, loaded),
        ControlRequest::StartSshAgent => on_start(agent),
        ControlRequest::StopSshAgent => on_stop(agent),
    }
}

/// The keys that an unlock request brings.
fn read_brought_keys(enc_key: &str, mac_key: &str) -> (r: Result<Keys, String>)
    ensures
        crypto::keys_result_view(r) == brought_keys(enc_key@, mac_key@),
{
    match (primitives::hex_decode(enc_key), primitives::hex_decode(mac_key)) {
        (Ok(enc), Ok(mac)) => match repository::pair_keys(&enc, &mac) {
            Some(keys) => Ok(keys),
            None => Err("Security keys must be exactly 32 bytes".to_owned()),
        },
        _ => Err("Failed to decode hex security keys".to_owned()),
    }
}

/// The whole seconds that are left of `timeout` seconds after `elapsed` nanoseconds.
pub fn time_left(timeout: u64, elapsed: u128) -> (r: u64)
    ensures
        r == seconds_left(timeout, elapsed),
{
    let total: u128 = timeout as u128 * 1_000_000_000;
    if elapsed >= total {
        0
    } else {
        let left: u128 = (total - elapsed) / 1_000_000_000;
        assert(left <= timeout);
        left as u64
    }
}

impl AgentState {
    /// The user whose keys are held.
    fn holder(&self) -> (r: Option<String>)
        ensures
            text::option_view(r) == holder(self@),
    {
        match &self.keys {
            Some(keys) => Some(keys.user_id.clone()),
            None => None,
        }
    }

    /// The answer that reports the state.
    fn report(&self, error: Option<String>) -> (r: ControlPlan)
        ensures
            r@ == report(self@, text::option_view(error)),
    {
        ControlPlan {
            error,
            unlocked: self.keys.is_some(),
            count_for: self.holder(),
            time_to_lock: None,
            ssh_agent_active: self.ssh_agent_active,
            touch: false,
            chore: Chore::Nothing,
        }
    }

    fn status(&self, user_id: &Option<String>, elapsed: u128) -> (r: ControlPlan)
        ensures
            r@ == on_status(self@, text::option_view(*user_id), elapsed),
    {
        let unlocked = match (&self.keys, user_id) {
            (Some(keys), Some(user_id)) => text::same(&keys.user_id, user_id),
            (Some(_), None) => true,
            (None, _) => false,
        };
        let mut plan = self.report(None);
        plan.unlocked = unlocked;
        if !unlocked {
            plan.count_for = None;
        }
        plan.time_to_lock = match self.timeout {
            Some(timeout) => if unlocked {
                Some(time_left(timeout, elapsed))
            } else {
                None
            },
            None => None,
        };
        plan
    }

    fn reload(&mut self, loaded: Option<Reloaded>) -> (r: ControlPlan)
        ensures
            (final(self)@, r@) == on_reload(old(self)@, loaded),
    {
        match loaded {
            Some(loaded) => {
                self.timeout = loaded.timeout;
                self.timeout_action = loaded.timeout_action;
                let mismatch = match (&self.keys, &loaded.user_id) {
                    (Some(keys), Some(user_id)) => !text::same(&keys.user_id, user_id),
                    (Some(_), None) => true,
                    (None, _) => false,
                };
                if mismatch {
                    self.keys = None;
                }
                let mut plan = self.report(None);
                plan.touch = true;
                if !loaded.keeps_keys {
                    plan.chore = Chore::ForgetSavedKeys;
                }
                plan
            },
            None => {
                self.keys = None;
                self.timeout = None;
                self.report(None)
            },
        }
    }

    /// Carries out a request on the control socket.
    pub fn handle_control(
        &mut self,
        request: ControlRequest,
        elapsed: u128,
        loaded: Option<Reloaded>,
    ) -> (r: ControlPlan)
        ensures
            (final(self)@, r@) == on_request(old(self)@, request, elapsed, loaded),
    {
        match request {
            ControlRequest::Unlock { user_id, enc_key, mac_key } => {
                match read_brought_keys(&enc_key, &mac_key) {
                    Ok((enc_key, mac_key)) => {
                        self.keys = Some(KeysContext { user_id, enc_key, mac_key });
                        let mut plan = self.report(None);
                        plan.touch = true;
                        plan.chore = Chore::SyncVault;
                        plan
                    },
                    Err(e) => self.report(Some(e)),
                }
            },
            ControlRequest::Lock => {
                self.keys = None;
                self.report(None)
            },
            ControlRequest::Status { user_id } => self.status(&user_id, elapsed),
            ControlRequest::Reload => self.reload(loaded),
            ControlRequest::StartSshAgent => {
                if self.ssh_agent_active {
                    return self.report(Some("SSH agent is already running".to_owned()));
                }
                self.ssh_agent_active = true;
                let mut plan = self.report(None);
                plan.chore = Chore::StartListener;
                plan
            },
            ControlRequest::StopSshAgent => {
                if !self.ssh_agent_active {
                    return self.report(Some("SSH agent is not running".to_owned()));
                }
                self.ssh_agent_active = false;
                let mut plan = self.report(None);
                plan.chore = Chore::StopListener;
                plan
            },
        }
    }
}

/// The value of a [`ControlResponse`].
pub struct Response {
    pub status: Seq<char>,
    pub error: Option<Seq<char>>,
    pub unlocked: Option<bool>,
    pub key_count: Option<usize>,
    pub time_to_lock: Option<u64>,
    pub ssh_agent_active: Option<bool>,
}

impl View for ControlResponse {
    type V = Response;

    open spec fn view(&self) -> Response {
        Response {
            status: self.status@,
            error: text::option_view(self.error),
            unlocked: self.unlocked,
            key_count: self.key_count,
            time_to_lock: self.time_to_lock,
            ssh_agent_active: self.ssh_agent_active,
        }
    }
}

/// The answer to a request, once the items were counted; a count that fails counts as none.
pub open spec fn answer(plan: Plan, counted: Result<usize, String>) -> Response {
    Response {
        status: if plan.error is Some {
            "error"@
        } else {
            "ok"@
        },
        error: plan.error,
        unlocked: Some(plan.unlocked),
        key_count: Some(
            match (plan.count_for, counted) {
                (Some(_), Ok(count)) => count,
                _ => 0,
            },
        ),
        time_to_lock: plan.time_to_lock,
        ssh_agent_active: Some(plan.ssh_agent_active),
    }
}

/// Completes the answer to a request with the number of items of the user to count for.
pub fn finish_control(plan: ControlPlan, counted: Result<usize, String>) -> (r: ControlResponse)
    ensures
        r@ == answer(plan@, counted),
{
    let key_count: usize = match (&plan.count_for, counted) {
        (Some(_), Ok(count)) => count,
        _ => 0,
    };
    let status = if plan.error.is_some() {
        "error".to_owned()
    } else {
        "ok".to_owned()
    };
    ControlResponse {
        status,
        error: plan.error,
        unlocked: Some(plan.unlocked),
        key_count: Some(key_count),
        time_to_lock: plan.time_to_lock,
        ssh_agent_active: Some(plan.ssh_agent_active),
    }
}

/// The answer to a request that cannot be parsed.
pub fn refuse_control(e: &str) -> (r: ControlResponse)
    ensures
        r@ == (Response {
            status: "error"@,
            error: Some("JSON parsing error: "@ + e@),
            unlocked: None,
            key_count: None,
            time_to_lock: None,
            ssh_agent_active: None,
        }),
{
    ControlResponse {
        status: "error".to_owned(),
        error: Some(text::join2("JSON parsing error: ", e)),
        unlocked: None,
        key_count: None,
        time_to_lock: None,
        ssh_agent_active: None,
    }
}

impl AgentState {
    /// Whether the vault is fetched in the background when the agent starts: it starts unlocked.
    pub fn syncs_at_start(&self) -> (r: bool)
        ensures
            r == (self@.keys is Some),
    {
        self.keys.is_some()
    }
}

// ---------------------------------------------------------------------------
// The start and the watchdog
// ---------------------------------------------------------------------------
/// The state with which the agent starts: locked, unless the session keeps the keys on disk
/// and they are there.
pub open spec fn first_state(
    user_id: Option<Seq<char>>,
    timeout: Option<u64>,
    timeout_action: TimeoutAction,
    keeps_keys: bool,
    saved: Option<(Seq<u8>, Seq<u8>)>,
    auto_start: bool,
) -> Agent {
    Agent {
        keys: match saved {
            Some((enc_key, mac_key)) => if keeps_keys {
                Some(
                    HeldKeys {
                        user_id: match user_id {
                            Some(user_id) => user_id,
                            None => Seq::empty(),
                        },
                        enc_key,
                        mac_key,
                    },
                )
            } else {
                None
            },
            None => None,
        },
        timeout,
        timeout_action,
        ssh_agent_active: auto_start,
    }
}

/// The state with which the agent starts.
pub fn start_state(loaded: Reloaded, saved: Option<Keys>, auto_start: bool) -> (r: AgentState)
    ensures
        r@ == first_state(
            text::option_view(loaded.user_id),
            loaded.timeout,
            loaded.timeout_action,
            loaded.keeps_keys,
            match saved {
                Some(keys) => Some(crypto::keys_view(keys)),
                None => None,
            },
            auto_start,
        ),
{
    let keys = match saved {
        Some((enc_key, mac_key)) => if loaded.keeps_keys {
            let user_id = match loaded.user_id {
                Some(user_id) => user_id,
                None => String::new(),
            };
            Some(KeysContext { user_id, enc_key, mac_key })
        } else {
            None
        },
        None => None,
    };
    AgentState {
        keys,
        timeout: loaded.timeout,
        timeout_action: loaded.timeout_action,
        ssh_agent_active: auto_start,
    }
}

/// What the watchdog does.
#[derive(Debug, Clone, Copy, PartialEq, Eq, Structural)]
pub enum WatchdogAction {
    Nothing,
    /// Stop the agent: the user has no login session left.
    Exit,
    /// The keys were dropped.
    Locked,
    /// The keys were dropped; the user is to be logged out.
    LoggedOut,
}

/// Whether an unlocked agent has been idle for its timeout.
pub open spec fn timed_out(agent: Agent, elapsed: u128) -> bool {
    match agent.timeout {
        Some(timeout) => agent.keys is Some && elapsed >= timeout * 1_000_000_000,
        None => false,
    }
}

/// What the watchdog does to the agent after `elapsed` idle nanoseconds. `sessions` are the
/// login sessions of the user, where the user is known.
pub open spec fn watchdog(agent: Agent, sessions: Option<usize>, elapsed: u128) -> (
    Agent,
    WatchdogAction,
) {
    if sessions == Some(0usize) {
        (agent, WatchdogAction::Exit)
    } else if timed_out(agent, elapsed) {
        (
            Agent { keys: None, ..agent },
            match agent.timeout_action {
                TimeoutAction::Lock => WatchdogAction::Locked,
                TimeoutAction::Logout => WatchdogAction::LoggedOut,
            },
        )
    } else {
        (agent, WatchdogAction::Nothing)
    }
}

impl AgentState {
    /// Looks after the agent: one without login sessions stops, and one that has been idle for
    /// its timeout drops the keys.
    pub fn watch(&mut self, sessions: Option<usize>, elapsed: u128) -> (r: WatchdogAction)
        ensures
            (final(self)@, r) == watchdog(old(self)@, sessions, elapsed),
    {
        match sessions {
            Some(count) => {
                if count == 0 {
                    return WatchdogAction::Exit;
                }
            },
            None => {},
        }
        match self.timeout {
            Some(timeout) => {
                if self.keys.is_some() && elapsed >= timeout as u128 * 1_000_000_000 {
                    self.keys = None;
                    return match self.timeout_action {
                        TimeoutAction::Lock => WatchdogAction::Locked,
                        TimeoutAction::Logout => WatchdogAction::LoggedOut,
                    };
                }
            },
            None => {},
        }
        WatchdogAction::Nothing
    }
}

// ---------------------------------------------------------------------------
// Processes and paths
// ---------------------------------------------------------------------------
/// The sockets and the pid file of the agent.
#[derive(Debug)]
pub struct AgentPaths {
    pub pid: String,
    pub socket: String,
    pub control: String,
}

/// Where the agent keeps its sockets and its pid file.
pub fn agent_paths(cache_dir: &str, custom_socket: &Option<String>) -> (r: AgentPaths)
    ensures
        r.pid@ == storage::file_in(cache_dir@, "agent.pid"@),
        r.socket@ == match *custom_socket {
            Some(path) => path@,
            None => storage::file_in(cache_dir@, "ssh-agent.sock"@),
        },
        r.control@ == r.socket@ + ".control"@,
{
    let socket = match custom_socket {
        Some(path) => path.clone(),
        None => storage::join_path(cache_dir, "ssh-agent.sock"),
    };
    let control = text::join2(&socket, ".control");
    AgentPaths { pid: storage::join_path(cache_dir, "agent.pid"), socket, control }
}

/// Reads the pid file.
pub fn parse_pid(content: &str) -> (r: Result<i32, String>)
    ensures
        match number::signed_value(text::trimmed(content@)) {
            Ok(pid) => r matches Ok(p) && p == pid,
            Err(fault) => r matches Err(e) && e@ == "Invalid pid format: "@
                + number::fault_message(fault),
        },
{
    match number::parse_signed(&text::trim(content)) {
        Ok(pid) => Ok(pid),
        Err(fault) => Err(text::join2("Invalid pid format: ", &number::fault_text(fault))),
    }
}

/// The first name that is not empty, or an empty one.
pub open spec fn first_name(
    user: Option<Seq<char>>,
    logname: Option<Seq<char>>,
    output: Option<Seq<char>>,
) -> Seq<char> {
    match (user, logname, output) {
        (Some(user), _, _) if user.len() > 0 => user,
        (_, Some(logname), _) if logname.len() > 0 => logname,
        (_, _, Some(output)) => text::trimmed(output),
        _ => Seq::empty(),
    }
}

/// The name of the user: from the variable `USER`, the variable `LOGNAME`, or what the program
/// that prints it printed.
pub fn choose_username(
    user: &Option<String>,
    logname: &Option<String>,
    output: &Option<String>,
) -> (r: String)
    ensures
        r@ == first_name(
            text::option_view(*user),
            text::option_view(*logname),
            text::option_view(*output),
        ),
{
    match user {
        Some(user) => {
            if !user.as_str().is_empty() {
                return user.clone();
            }
        },
        None => {},
    }
    match logname {
        Some(logname) => {
            if !logname.as_str().is_empty() {
                return logname.clone();
            }
        },
        None => {},
    }
    match output {
        Some(output) => text::trim(output),
        None => String::new(),
    }
}

/// The number of lines whose first word is `name`.
pub open spec fn lines_user_id(lines: Seq<Seq<char>>, name: Seq<char>) -> nat
    decreases lines.len(),
{
    if lines.len() == 0 {
        0
    } else {
        lines_user_id(lines.drop_last(), name) + if text::first_word(lines.last()) == Some(name) {
            1nat
        } else {
            0nat
        }
    }
}

/// The number of login sessions of a user in the output of `who`; one where there is no
/// output.
pub fn count_active_user_sessions(output: &Option<String>, username: &str) -> (r: usize)
    ensures
        r == match *output {
            Some(output) => lines_user_id(text::split_on(output@, '\n'), username@),
            None => 1,
        },
{
    let output = match output {
        Some(output) => output,
        None => {
            return 1;
        },
    };
    let lines = text::split(output, '\n');
    let ghost all = lines.deep_view();
    let mut count: usize = 0;
    assert(all.take(0) =~= Seq::<Seq<char>>::empty());
    for i in 0..lines.len()
        invariant
            all == lines.deep_view(),
            count == lines_user_id(all.take(i as int), username@),
            count <= i,
    {
        assert(all[i as int] == lines@[i as int]@);
        assert(all.take(i + 1).drop_last() =~= all.take(i as int));
        match text::find_first_word(&lines[i]) {
            Some(word) => {
                if text::same(&word, username) {
                    count = count + 1;
                }
            },
            None => {},
        }
    }
    assert(all.take(lines@.len() as int) =~= all);
    count
}

// ---------------------------------------------------------------------------
// Laws
// ---------------------------------------------------------------------------
/// A locked agent answers every status request as locked, with no items and no time left.
pub proof fn a_locked_agent_says_so(
    agent: Agent,
    user_id: Option<Seq<char>>,
    elapsed: u128,
    counted: Result<usize, String>,
)
    requires
        agent.keys is None,
    ensures
        ({
            let response = answer(on_status(agent, user_id, elapsed), counted);
            &&& response.status == "ok"@
            &&& response.unlocked == Some(false)
            &&& response.key_count == Some(0usize)
            &&& response.time_to_lock is None
        }),
{
}

/// After a lock request the agent holds no keys, whatever it held.
pub proof fn locking_drops_the_keys(agent: Agent, elapsed: u128, loaded: Option<Reloaded>)
    ensures
        on_request(agent, ControlRequest::Lock, elapsed, loaded).0 == (Agent { keys: None, ..agent }),
{
}

/// Keys that are sent in hexadecimal are held as they were, for the user they were sent for;
/// the vault is then unlocked for that user and for no other.
pub proof fn unlocking_holds_the_keys(
    agent: Agent,
    user_id: Seq<char>,
    enc: Seq<u8>,
    mac: Seq<u8>,
    other: Seq<char>,
)
    requires
        enc.len() == 32,
        mac.len() == 32,
    ensures
        ({
            let (after, plan) = on_unlock(
                agent,
                user_id,
                primitives::hex_encoded(enc),
                primitives::hex_encoded(mac),
            );
            &&& after.keys == Some(HeldKeys { user_id, enc_key: enc, mac_key: mac })
            &&& plan.error is None
            &&& unlocked_for(after, Some(user_id))
            &&& unlocked_for(after, Some(other)) == (other == user_id)
        }),
{
    primitives::hex_round_trip(enc);
    primitives::hex_round_trip(mac);
}

/// A request that is refused changes nothing.
pub proof fn refused_requests_change_nothing(
    agent: Agent,
    request: ControlRequest,
    elapsed: u128,
    loaded: Option<Reloaded>,
)
    requires
        on_request(agent, request, elapsed, loaded).1.error is Some,
    ensures
        on_request(agent, request, elapsed, loaded).0 == agent,
{
}

/// A query of the status is no activity: it changes nothing, and the time until the agent locks
/// is counted from before.
pub proof fn a_status_query_is_no_activity(
    agent: Agent,
    user_id: Option<String>,
    elapsed: u128,
    loaded: Option<Reloaded>,
)
    ensures
        ({
            let (after, plan) = on_request(
                agent,
                ControlRequest::Status { user_id },
                elapsed,
                loaded,
            );
            after == agent && !plan.touch && plan.chore is Nothing
        }),
{
}

/// The vault is fetched in the background after every unlock that succeeds, and after no other
/// request.
pub proof fn unlocking_fetches_the_vault(
    agent: Agent,
    request: ControlRequest,
    elapsed: u128,
    loaded: Option<Reloaded>,
)
    ensures
        ({
            let plan = on_request(agent, request, elapsed, loaded).1;
            plan.chore is SyncVault <==> (request is Unlock && plan.error is None)
        }),
{
}

/// Only an unlock request gives the agent keys that it did not hold.
pub proof fn only_unlocking_brings_keys(
    agent: Agent,
    request: ControlRequest,
    elapsed: u128,
    loaded: Option<Reloaded>,
)
    requires
        !(request is Unlock),
    ensures
        ({
            let after = on_request(agent, request, elapsed, loaded).0;
            after.keys is None || after.keys == agent.keys
        }),
{
}

/// After a reload the agent holds no keys of another user than that of the session.
pub proof fn reloading_drops_the_keys_of_others(agent: Agent, loaded: Option<Reloaded>)
    ensures
        on_reload(agent, loaded).0.keys matches Some(keys) ==> loaded matches Some(loaded)
            && text::option_view(loaded.user_id) == Some(keys.user_id),
{
}

/// Starting and then stopping to listen leads back to the state before.
pub proof fn stopping_undoes_starting(agent: Agent)
    requires
        !agent.ssh_agent_active,
    ensures
        on_start(agent).1.error is None,
        on_stop(on_start(agent).0).1.error is None,
        on_stop(on_start(agent).0).0 == agent,
{
}

/// After the watchdog has looked, an agent that goes on holds keys only while there is time
/// left.
pub proof fn the_watchdog_enforces_the_timeout(
    agent: Agent,
    sessions: Option<usize>,
    elapsed: u128,
)
    ensures
        ({
            let (after, action) = watchdog(agent, sessions, elapsed);
            &&& action != WatchdogAction::Exit ==> !timed_out(after, elapsed)
            &&& timed_out(agent, elapsed) && action != WatchdogAction::Exit ==> after.keys is None
            &&& !timed_out(agent, elapsed) ==> after == agent
        }),
{
}

/// The time that is left runs out exactly when the watchdog acts, up to the last second.
pub proof fn time_left_agrees_with_the_watchdog(agent: Agent, timeout: u64, elapsed: u128)
    requires
        agent.timeout == Some(timeout),
        agent.keys is Some,
    ensures
        timed_out(agent, elapsed) ==> seconds_left(timeout, elapsed) == 0,
        seconds_left(timeout, elapsed) > 0 ==> !timed_out(agent, elapsed),
        seconds_left(timeout, elapsed) <= timeout,
{
}

} // verus!
