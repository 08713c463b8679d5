//! Showing the status.
use vstd::prelude::*;
use vstd::string::*;

use super::settings;
use crate::config;
use crate::config::{Config, Session};
use crate::daemon::ControlResponse;
use crate::number;
use crate::storage;
use crate::text;

verus! {

/// The time until the agent locks, in minutes and seconds.
pub open spec fn lock_time(seconds: u64) -> Seq<char> {
    if seconds / 60 > 0 {
        number::decimal((seconds / 60) as nat) + "m "@ + number::decimal((seconds % 60) as nat)
            + "s"@
    } else {
        number::decimal((seconds % 60) as nat) + "s"@
    }
}

/// The lines on the login.
pub open spec fn login_lines(config: Config, session: Session) -> Seq<Seq<char>> {
    match session.email {
        Some(email) => seq![
            "  Login Status:   Logged In"@,
            "  Logged in User: "@ + email@,
            if config.client_id is Some {
                "  Login Method:   API Key"@
            } else {
                "  Login Method:   Master Password"@
            },
        ],
        None => seq!["  Login Status:   Not Logged In"@],
    }
}

/// The lines on what the agent answered.
pub open spec fn answer_lines(answer: Result<ControlResponse, String>) -> Seq<Seq<char>> {
    match answer {
        Ok(response) => {
            let keys = match response.key_count {
                Some(count) => count as nat,
                None => 0,
            };
            let lines = seq![
                if response.unlocked == Some(true) {
                    "  Daemon Vault:    Unlocked"@
                } else {
                    "  Daemon Vault:    Locked"@
                },
                "  Keys in vault: "@ + number::decimal(keys),
            ];
            match response.time_to_lock {
                Some(seconds) => lines.push("  Time to Auto-Lock: "@ + lock_time(seconds)),
                None => lines,
            }
        },
        Err(e) => seq!["  Agent Details:  Could not query (Error: "@ + e@ + ")"@],
    }
}

/// The lines on the agent: none asked, or what it answered.
pub open spec fn agent_lines(agent: Option<Result<ControlResponse, String>>) -> Seq<Seq<char>> {
    match agent {
        Some(answer) => seq!["  Daemon Status:   Running"@] + answer_lines(answer),
        None => seq!["  Daemon Status:   Not Running"@],
    }
}

/// The lines on the settings of the session.
pub open spec fn session_lines(config: Config, session: Session) -> Seq<Seq<char>> {
    seq![
        "  Timeout Setting: "@ + session.timeout@,
        "  Timeout Action:  "@ + config::action_name(session.timeout_action),
        "  SSH Agent Auto-Start: "@ + settings::flag_name(config.ssh_agent_auto_start),
        "  Last Synced:    "@ + match session.last_sync_time {
            Some(time) => time@,
            None => "Never"@,
        },
    ]
}

/// The status, line by line.
pub open spec fn shown_status(
    config: Config,
    session: Session,
    agent: Option<Result<ControlResponse, String>>,
) -> Seq<Seq<char>> {
    seq![
        "bitter Status:"@,
        "  Server URL:     "@ + match session.server_url {
            Some(server_url) => server_url@,
            None => config.server_url@,
        },
    ] + login_lines(config, session) + agent_lines(agent) + session_lines(config, session)
}

/// Writes the time until the agent locks.
pub fn lock_time_text(seconds: u64) -> (r: String)
    ensures
        r@ == lock_time(seconds),
{
    let minutes: u64 = seconds / 60;
    let rest = text::join2(&number::decimal_text(seconds % 60), "s");
    if minutes > 0 {
        let written = text::join2(
            &text::join2(&number::decimal_text(minutes), "m "),
            &number::decimal_text(seconds % 60),
        );
        text::join2(&written, "s")
    } else {
        rest
    }
}

fn push_line(lines: &mut Vec<String>, line: String)
    ensures
        storage::seq_view(final(lines)@) == storage::seq_view(old(lines)@).push(line@),
{
    lines.push(line);
    assert(storage::seq_view(lines@) =~= storage::seq_view(old(lines)@).push(line@));
}

fn push_login(lines: &mut Vec<String>, config: &Config, session: &Session)
    ensures
        storage::seq_view(final(lines)@) == storage::seq_view(old(lines)@) + login_lines(
            *config,
            *session,
        ),
{
    match &session.email {
        Some(email) => {
            push_line(lines, "  Login Status:   Logged In".to_owned());
            push_line(lines, text::join2("  Logged in User: ", email));
            if config.client_id.is_some() {
                push_line(lines, "  Login Method:   API Key".to_owned());
            } else {
                push_line(lines, "  Login Method:   Master Password".to_owned());
            }
        },
        None => {
            push_line(lines, "  Login Status:   Not Logged In".to_owned());
        },
    }
    assert(storage::seq_view(lines@) =~= storage::seq_view(old(lines)@) + login_lines(
        *config,
        *session,
    ));
}

fn push_agent(lines: &mut Vec<String>, agent: &Option<Result<ControlResponse, String>>)
    ensures
        storage::seq_view(final(lines)@) == storage::seq_view(old(lines)@) + agent_lines(*agent),
{
    match agent {
        None => {
            push_line(lines, "  Daemon Status:   Not Running".to_owned());
        },
        Some(answer) => {
            push_line(lines, "  Daemon Status:   Running".to_owned());
            match answer {
                Err(e) => {
                    push_line(
                        lines,
                        text::join3("  Agent Details:  Could not query (Error: ", e, ")"),
                    );
                },
                Ok(response) => {
                    let unlocked = match response.unlocked {
                        Some(unlocked) => unlocked,
                        None => false,
                    };
                    if unlocked {
                        push_line(lines, "  Daemon Vault:    Unlocked".to_owned());
                    } else {
                        push_line(lines, "  Daemon Vault:    Locked".to_owned());
                    }
                    let count: usize = match response.key_count {
                        Some(count) => count,
                        None => 0,
                    };
                    push_line(
                        lines,
                        text::join2("  Keys in vault: ", &number::decimal_text(count as u64)),
                    );
                    match response.time_to_lock {
                        Some(seconds) => {
                            push_line(
                                lines,
                                text::join2("  Time to Auto-Lock: ", &lock_time_text(seconds)),
                            );
                        },
                        None => {},
                    }
                },
            }
        },
    }
    assert(storage::seq_view(lines@) =~= storage::seq_view(old(lines)@) + agent_lines(*agent));
}

/// Shows the status: of the login, of the agent, where it was asked, and of the session.
pub fn status_lines(
    config: &Config,
    session: &Session,
    agent: &Option<Result<ControlResponse, String>>,
) -> (r: Vec<String>)
    ensures
        storage::seq_view(r@) == shown_status(*config, *session, *agent),
{
    let server = match &session.server_url {
        Some(server_url) => server_url.clone(),
        None => config.server_url.clone(),
    };
    let time = match &session.last_sync_time {
        Some(time) => time.clone(),
        None => "Never".to_owned(),
    };
    let mut lines: Vec<String> = Vec::new();
    push_line(&mut lines, "bitter Status:".to_owned());
    push_line(&mut lines, text::join2("  Server URL:     ", &server));
    let ghost head = storage::seq_view(lines@);
    push_login(&mut lines, config, session);
    push_agent(&mut lines, agent);
    let ghost body = storage::seq_view(lines@);
    push_line(&mut lines, text::join2("  Timeout Setting: ", &session.timeout));
    push_line(&mut lines, text::join2("  Timeout Action:  ", &session.timeout_action.name()));
    push_line(
        &mut lines,
        text::join2(
            "  SSH Agent Auto-Start: ",
            &settings::flag_text(config.ssh_agent_auto_start),
        ),
    );
    push_line(&mut lines, text::join2("  Last Synced:    ", &time));
    assert(storage::seq_view(lines@) =~= body + session_lines(*config, *session));
    assert(storage::seq_view(lines@) =~= shown_status(*config, *session, *agent));
    lines
}

} // verus!
