//! Laws of the background agent.
use vstd::prelude::*;
use vstd::string::*;

use crate::api::SyncResponse;
use crate::config::TimeoutAction;
use crate::daemon;
use crate::daemon::unlock;
use crate::daemon::{
    Agent, Chore, ControlRequest, HeldKeys, Plan, Reloaded, WatchdogAction,
};
use crate::number;
use crate::primitives;
use crate::storage::vault;
use crate::text;

verus! {

// ---------------------------------------------------------------------------
// Requests
// ---------------------------------------------------------------------------
/// An unlock request with two keys of 32 bytes each is carried out: the agent holds them for the
/// user that was named, and nothing else about it changes. It counts as activity.
pub proof fn unlocking_takes_the_keys_over(
    agent: Agent,
    user_id: String,
    enc: String,
    mac: String,
    enc_key: Seq<u8>,
    mac_key: Seq<u8>,
    elapsed: u128,
    loaded: Option<Reloaded>,
)
    requires
        enc_key.len() == 32,
        mac_key.len() == 32,
        enc@ == primitives::hex_encoded(enc_key),
        mac@ == primitives::hex_encoded(mac_key),
    ensures
        ({
            let (after, plan) = daemon::on_request(
                agent,
                ControlRequest::Unlock { user_id, enc_key: enc, mac_key: mac },
                elapsed,
                loaded,
            );
            &&& after.keys == Some(HeldKeys { user_id: user_id@, enc_key, mac_key })
            &&& after.timeout == agent.timeout
            &&& after.timeout_action == agent.timeout_action
            &&& after.ssh_agent_active == agent.ssh_agent_active
            &&& plan.error is None
            &&& plan.unlocked
            &&& plan.count_for == Some(user_id@)
            &&& plan.time_to_lock is None
            &&& plan.ssh_agent_active == agent.ssh_agent_active
            &&& plan.touch
            &&& plan.chore is SyncVault
        }),
{
    primitives::hex_round_trip(enc_key);
    primitives::hex_round_trip(mac_key);
}

/// An unlock request is refused where a key is not in hexadecimal or has not 32 bytes, with the
/// fault that it has; the agent stays as it is.
pub proof fn bad_keys_are_refused(
    agent: Agent,
    user_id: String,
    enc: String,
    mac: String,
    elapsed: u128,
    loaded: Option<Reloaded>,
)
    ensures
        ({
            let (after, plan) = daemon::on_request(
                agent,
                ControlRequest::Unlock { user_id, enc_key: enc, mac_key: mac },
                elapsed,
                loaded,
            );
            let in_hex = primitives::is_hex(enc@) && primitives::is_hex(mac@);
            let sized = primitives::hex_decoded(enc@).len() == 32 && primitives::hex_decoded(
                mac@,
            ).len() == 32;
            &&& !in_hex ==> plan.error == Some("Failed to decode hex security keys"@)
            &&& in_hex && !sized ==> plan.error == Some("Security keys must be exactly 32 bytes"@)
            &&& !in_hex || !sized ==> after == agent && !plan.touch && plan.chore is Nothing
                && plan.unlocked == (agent.keys is Some)
            &&& in_hex && sized ==> plan.error is None
        }),
{
}

/// After a lock request the answer says that the vault is locked; the rest of the agent goes on.
pub proof fn locking_is_reported(agent: Agent, elapsed: u128, loaded: Option<Reloaded>)
    ensures
        ({
            let (after, plan) = daemon::on_request(agent, ControlRequest::Lock, elapsed, loaded);
            &&& after.keys is None
            &&& after.timeout == agent.timeout
            &&& after.timeout_action == agent.timeout_action
            &&& after.ssh_agent_active == agent.ssh_agent_active
            &&& plan.error is None
            &&& !plan.unlocked
            &&& plan.count_for is None
            &&& plan.time_to_lock is None
            &&& plan.ssh_agent_active == agent.ssh_agent_active
            &&& !plan.touch
            &&& plan.chore is Nothing
        }),
{
}

/// A status request reports an unlocked vault to the user who unlocked it and to whoever names no
/// user, with that user's items and, where there is a timeout, the time that is left. To another
/// user the vault is locked.
pub proof fn the_status_is_that_of_the_user(
    agent: Agent,
    keys: HeldKeys,
    user_id: Option<String>,
    elapsed: u128,
    loaded: Option<Reloaded>,
)
    requires
        agent.keys == Some(keys),
    ensures
        ({
            let (after, plan) = daemon::on_request(
                agent,
                ControlRequest::Status { user_id },
                elapsed,
                loaded,
            );
            let own = match user_id {
                Some(user_id) => user_id@ == keys.user_id,
                None => true,
            };
            &&& after == agent
            &&& plan.error is None
            &&& plan.unlocked == own
            &&& plan.count_for == if own {
                Some(keys.user_id)
            } else {
                None
            }
            &&& !own ==> plan.time_to_lock is None
            &&& agent.timeout is None ==> plan.time_to_lock is None
            &&& own && agent.timeout is Some ==> plan.time_to_lock == Some(
                daemon::seconds_left(agent.timeout->0, elapsed) as u64,
            )
            &&& plan.ssh_agent_active == agent.ssh_agent_active
        }),
{
}

/// The time that is left, in whole seconds: with the seconds that have passed it makes up the
/// timeout, up to a part of a second; none is left once the timeout has passed.
pub proof fn the_time_left_and_the_time_passed_are_the_timeout(timeout: u64, elapsed: u128)
    ensures
        ({
            let left = daemon::seconds_left(timeout, elapsed);
            &&& elapsed >= timeout * 1_000_000_000 ==> left == 0
            &&& elapsed < timeout * 1_000_000_000 ==> left * 1_000_000_000 + elapsed <= timeout
                * 1_000_000_000 < left * 1_000_000_000 + elapsed + 1_000_000_000
        }),
{
}

/// After a reload the timeout and what follows it are those of the session; the keys stay exactly
/// where the session is that of their user. Saved keys are forgotten unless the session keeps them.
pub proof fn reloading_takes_the_session_over(
    agent: Agent,
    session: Reloaded,
    elapsed: u128,
)
    ensures
        ({
            let (after, plan) = daemon::on_request(
                agent,
                ControlRequest::Reload,
                elapsed,
                Some(session),
            );
            let own = match (agent.keys, session.user_id) {
                (Some(keys), Some(user_id)) => keys.user_id == user_id@,
                _ => false,
            };
            &&& own ==> after.keys == agent.keys
            &&& !own ==> after.keys is None
            &&& after.timeout == session.timeout
            &&& after.timeout_action == session.timeout_action
            &&& after.ssh_agent_active == agent.ssh_agent_active
            &&& plan.error is None
            &&& plan.unlocked == own
            &&& own ==> plan.count_for == Some(agent.keys->0.user_id)
            &&& !own ==> plan.count_for is None
            &&& plan.time_to_lock is None
            &&& plan.ssh_agent_active == agent.ssh_agent_active
            &&& plan.touch
            &&& session.keeps_keys ==> plan.chore is Nothing
            &&& !session.keeps_keys ==> plan.chore is ForgetSavedKeys
        }),
{
}

/// A reload without a session locks the agent and takes the timeout away.
pub proof fn reloading_without_a_session_locks(agent: Agent, elapsed: u128)
    ensures
        ({
            let (after, plan) = daemon::on_request(agent, ControlRequest::Reload, elapsed, None);
            &&& after.keys is None
            &&& after.timeout is None
            &&& after.timeout_action == agent.timeout_action
            &&& after.ssh_agent_active == agent.ssh_agent_active
            &&& plan.error is None
            &&& !plan.unlocked
            &&& !plan.touch
            &&& plan.chore is Nothing
        }),
{
}

/// An agent that does not listen for SSH clients begins to, and one that does refuses to begin
/// again; the keys and the timeout stay.
pub proof fn listening_begins_once(agent: Agent, elapsed: u128, loaded: Option<Reloaded>)
    ensures
        ({
            let (after, plan) = daemon::on_request(
                agent,
                ControlRequest::StartSshAgent,
                elapsed,
                loaded,
            );
            &&& after.ssh_agent_active && plan.ssh_agent_active
            &&& after.keys == agent.keys && after.timeout == agent.timeout
            &&& after.timeout_action == agent.timeout_action
            &&& plan.unlocked == (agent.keys is Some)
            &&& !plan.touch
            &&& agent.ssh_agent_active ==> plan.error == Some("SSH agent is already running"@)
                && plan.chore is Nothing
            &&& !agent.ssh_agent_active ==> plan.error is None && plan.chore is StartListener
        }),
{
}

/// An agent that listens for SSH clients stops, and one that does not refuses to; the keys and the
/// timeout stay.
pub proof fn listening_stops_once(agent: Agent, elapsed: u128, loaded: Option<Reloaded>)
    ensures
        ({
            let (after, plan) = daemon::on_request(
                agent,
                ControlRequest::StopSshAgent,
                elapsed,
                loaded,
            );
            &&& !after.ssh_agent_active && !plan.ssh_agent_active
            &&& after.keys == agent.keys && after.timeout == agent.timeout
            &&& after.timeout_action == agent.timeout_action
            &&& plan.unlocked == (agent.keys is Some)
            &&& !plan.touch
            &&& !agent.ssh_agent_active ==> plan.error == Some("SSH agent is not running"@)
                && plan.chore is Nothing
            &&& agent.ssh_agent_active ==> plan.error is None && plan.chore is StopListener
        }),
{
}

/// The answer is an error exactly where there is a fault, and hands on what the plan says; the
/// items are counted only for a user.
pub proof fn answers_say_what_was_planned(plan: Plan, counted: Result<usize, String>)
    ensures
        ({
            let response = daemon::answer(plan, counted);
            &&& plan.error is Some ==> response.status == "error"@
            &&& plan.error is None ==> response.status == "ok"@
            &&& response.error == plan.error
            &&& response.unlocked == Some(plan.unlocked)
            &&& response.time_to_lock == plan.time_to_lock
            &&& response.ssh_agent_active == Some(plan.ssh_agent_active)
            &&& plan.count_for is None ==> response.key_count == Some(0usize)
            &&& counted is Err ==> response.key_count == Some(0usize)
            &&& plan.count_for is Some && counted is Ok ==> response.key_count == Some(
                counted->Ok_0,
            )
        }),
{
}

// ---------------------------------------------------------------------------
// The start and the watchdog
// ---------------------------------------------------------------------------
/// The agent starts unlocked exactly where the session keeps its keys and they were saved; then it
/// holds those keys for the user of the session. Everything else is as it was set.
pub proof fn the_agent_starts_as_it_was_set(
    user_id: Option<Seq<char>>,
    timeout: Option<u64>,
    timeout_action: TimeoutAction,
    keeps_keys: bool,
    saved: Option<(Seq<u8>, Seq<u8>)>,
    auto_start: bool,
)
    ensures
        ({
            let agent = daemon::first_state(
                user_id,
                timeout,
                timeout_action,
                keeps_keys,
                saved,
                auto_start,
            );
            &&& agent.timeout == timeout
            &&& agent.timeout_action == timeout_action
            &&& agent.ssh_agent_active == auto_start
            &&& !keeps_keys || saved is None ==> agent.keys is None
            &&& saved matches Some((enc_key, mac_key)) ==> keeps_keys ==> (agent.keys matches Some(
                keys,
            ) && keys.enc_key == enc_key && keys.mac_key == mac_key && (user_id is Some
                ==> keys.user_id == user_id->0) && (user_id is None ==> keys.user_id.len() == 0))
        }),
{
}

/// The watchdog stops an agent without login sessions. Another one that was idle for its whole
/// timeout while it was unlocked is locked, and its user is logged out where that is what follows
/// the timeout. Otherwise nothing happens.
pub proof fn the_watchdog_acts_on_time(agent: Agent, sessions: Option<usize>, elapsed: u128)
    ensures
        ({
            let (after, action) = daemon::watchdog(agent, sessions, elapsed);
            let gone = sessions == Some(0usize);
            let idle = agent.keys is Some && agent.timeout is Some && elapsed >= agent.timeout->0
                * 1_000_000_000;
            &&& gone ==> action == WatchdogAction::Exit && after == agent
            &&& !gone && idle ==> after.keys is None && after.timeout == agent.timeout
                && after.timeout_action == agent.timeout_action && after.ssh_agent_active
                == agent.ssh_agent_active
            &&& !gone && idle && agent.timeout_action is Lock ==> action == WatchdogAction::Locked
            &&& !gone && idle && agent.timeout_action is Logout ==> action
                == WatchdogAction::LoggedOut
            &&& !gone && !idle ==> after == agent && action == WatchdogAction::Nothing
        }),
{
}

/// The name of the user is that of the first source that gives one.
pub proof fn the_name_is_that_of_the_first_source(
    user: Seq<char>,
    logname: Option<Seq<char>>,
    name: Seq<char>,
    output: Option<Seq<char>>,
)
    ensures
        user.len() > 0 ==> daemon::first_name(Some(user), logname, output) == user,
        name.len() > 0 ==> daemon::first_name(None, Some(name), output) == name,
        name.len() > 0 ==> daemon::first_name(Some(Seq::empty()), Some(name), output) == name,
        daemon::first_name(None, None, Some(name)) == text::trimmed(name),
        daemon::first_name(Some(Seq::empty()), Some(Seq::empty()), Some(name)) == text::trimmed(name),
        daemon::first_name(None, None, None).len() == 0,
{
}

/// A line whose first word is the name of the user is one login session more; another line is none.
pub proof fn each_line_of_the_user_is_a_session(
    lines: Seq<Seq<char>>,
    line: Seq<char>,
    name: Seq<char>,
)
    ensures
        text::first_word(line) == Some(name) ==> daemon::lines_user_id(lines.push(line), name)
            == daemon::lines_user_id(lines, name) + 1,
        text::first_word(line) != Some(name) ==> daemon::lines_user_id(lines.push(line), name)
            == daemon::lines_user_id(lines, name),
        daemon::lines_user_id(Seq::empty(), name) == 0,
{
    assert(lines.push(line).drop_last() =~= lines);
}

// ---------------------------------------------------------------------------
// The terminal of a client
// ---------------------------------------------------------------------------
/// The terminal is the first of the targets that is one, whatever stands before it.
pub proof fn the_first_terminal_is_taken(targets: Seq<Option<String>>, i: int)
    requires
        0 <= i < targets.len(),
        targets[i] matches Some(path) && (path@ == "/dev/tty"@ || "/dev/pts/"@.is_prefix_of(path@)),
        forall|j: int|
            0 <= j < i ==> ((#[trigger] targets[j]) matches Some(path) ==> path@ != "/dev/tty"@
                && !"/dev/pts/"@.is_prefix_of(path@)),
    ensures
        unlock::first_terminal(targets) == Some(targets[i]->0@),
    decreases i,
{
    lemma_prefix(targets[0]);
    if i > 0 {
        let rest = targets.skip(1);
        assert(rest[i - 1] == targets[i]);
        assert forall|j: int| 0 <= j < i - 1 implies ((#[trigger] rest[j]) matches Some(path)
            ==> path@ != "/dev/tty"@ && !"/dev/pts/"@.is_prefix_of(path@)) by {
            assert(rest[j] == targets[j + 1]);
        }
        the_first_terminal_is_taken(rest, i - 1);
    }
}

/// Where no target is a terminal, none is found.
pub proof fn without_a_terminal_none_is_found(targets: Seq<Option<String>>)
    requires
        forall|j: int|
            0 <= j < targets.len() ==> ((#[trigger] targets[j]) matches Some(path) ==> path@
                != "/dev/tty"@ && !"/dev/pts/"@.is_prefix_of(path@)),
    ensures
        unlock::first_terminal(targets) is None,
    decreases targets.len(),
{
    if targets.len() > 0 {
        lemma_prefix(targets[0]);
        let rest = targets.skip(1);
        assert forall|j: int| 0 <= j < rest.len() implies ((#[trigger] rest[j]) matches Some(path)
            ==> path@ != "/dev/tty"@ && !"/dev/pts/"@.is_prefix_of(path@)) by {
            assert(rest[j] == targets[j + 1]);
        }
        without_a_terminal_none_is_found(rest);
    }
}

proof fn lemma_prefix(target: Option<String>)
    ensures
        target matches Some(path) ==> text::found_at(path@, "/dev/pts/"@, 0)
            == "/dev/pts/"@.is_prefix_of(path@),
{
    if let Some(path) = target {
        let prefix = "/dev/pts/"@;
        if prefix.len() <= path@.len() {
            assert(path@.subrange(0, prefix.len() as int) =~= path@.take(prefix.len() as int));
        }
        if text::found_at(path@, prefix, 0) {
            assert(prefix =~= path@.subrange(0, prefix.len() as int));
        }
        if prefix.is_prefix_of(path@) {
            assert(prefix =~= path@.subrange(0, prefix.len() as int));
        }
    }
}

/// The link to an open file names the process and the file.
pub proof fn links_name_the_process_and_the_file(pid: i32, fd: nat)
    ensures
        unlock::descriptor_link(pid, fd) == "/proc/"@ + number::signed_decimal(pid as int) + "/fd/"@
            + number::decimal(fd),
{
    assert(unlock::descriptor_link(pid, fd) =~= "/proc/"@ + number::signed_decimal(pid as int)
        + "/fd/"@ + number::decimal(fd));
}

/// The line that is typed ends with a line feed or a carriage return, wherever it stands.
pub proof fn a_line_ends_where_it_is_broken(before: Seq<char>, after: Seq<char>)
    ensures
        unlock::ends_line(before + seq!['\n'] + after),
        unlock::ends_line(before + seq!['\r'] + after),
        !before.contains('\n') && !before.contains('\r') ==> !unlock::ends_line(before),
{
    let n = before.len() as int;
    assert((before + seq!['\n'] + after)[n] == '\n');
    assert((before + seq!['\r'] + after)[n] == '\r');
}

/// A password that opens the cached vault unlocks the agent with the keys of that vault, for its
/// owner. A vault that cannot be loaded or opened leaves it locked.
pub proof fn the_password_unlocks_the_cached_vault(
    sync: SyncResponse,
    password: Seq<char>,
    fault: String,
    e: Seq<char>,
    keys: (Seq<u8>, Seq<u8>),
)
    ensures
        vault::offline_keys(sync, password) == Ok::<(Seq<u8>, Seq<u8>), Seq<char>>(keys)
            ==> unlock::unlocked_keys(Ok(sync), password) == Ok::<HeldKeys, Seq<char>>(
            HeldKeys { user_id: sync.profile.id@, enc_key: keys.0, mac_key: keys.1 },
        ),
        vault::offline_keys(sync, password) == Err::<(Seq<u8>, Seq<u8>), Seq<char>>(e)
            ==> unlock::unlocked_keys(Ok(sync), password) == Err::<HeldKeys, Seq<char>>(
            "Failed to decrypt local database offline: "@ + e,
        ),
        unlock::unlocked_keys(Err(fault), password) == Err::<HeldKeys, Seq<char>>(
            "Password incorrect or local database load failed: "@ + fault@,
        ),
{
}

} // verus!
