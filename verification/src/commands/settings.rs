//! Changing and showing the settings.
use vstd::prelude::*;
use vstd::string::*;

use crate::api::{PreloginResponse, SyncResponse};
use crate::cli::SettingsArgs;
use crate::config;
use crate::config::{Config, Session, TimeoutAction};
use crate::crypto;
use crate::storage;
use crate::storage::vault;
use crate::storage::Keys;
use crate::text;

verus! {

// ---------------------------------------------------------------------------
// Verification of the master password
// ---------------------------------------------------------------------------
/// Whether the master password is asked for before a timeout is set: a user who is logged in
/// asks for the keys to be kept.
pub open spec fn wants_password(timeout: Seq<char>, session: Session) -> bool {
    config::normalized(timeout) == "unlocked"@ && session.email is Some
}

/// Whether the master password is asked for before the settings are changed.
pub fn needs_password(args: &SettingsArgs, session: &Session) -> (r: bool)
    ensures
        r == match args.timeout {
            Some(timeout) => wants_password(timeout@, *session),
            None => false,
        },
{
    match &args.timeout {
        Some(timeout) => config::keeps_keys(timeout) && session.email.is_some(),
        None => false,
    }
}

/// The keys that a password opens in the cached vault.
pub open spec fn cached_keys(exists: bool, loaded: Result<SyncResponse, String>, password: Seq<
    char,
>) -> Option<(Seq<u8>, Seq<u8>)> {
    match loaded {
        Ok(sync) => if exists {
            match vault::offline_keys(sync, password) {
                Ok(keys) => Some(keys),
                Err(_) => None,
            }
        } else {
            None
        },
        Err(_) => None,
    }
}

/// Verifies a password against the cached vault.
pub fn verify_cached(exists: bool, loaded: &Result<SyncResponse, String>, password: &str) -> (r:
    Option<Keys>)
    requires
        exists ==> (loaded matches Ok(sync) ==> vault::offline_costs_fit(*sync)),
    ensures
        storage::held_keys(r) == cached_keys(exists, *loaded, password@),
{
    match loaded {
        Ok(sync) => if exists {
            match vault::decrypt_sync_response_offline(sync, password) {
                Ok((_, enc, mac)) => Some((enc, mac)),
                Err(_) => None,
            }
        } else {
            None
        },
        Err(_) => None,
    }
}

/// The keys that a password opens in the cached vault with the key derivation settings of the
/// server.
pub open spec fn server_keys(
    kdf: PreloginResponse,
    loaded: Result<SyncResponse, String>,
    password: Seq<char>,
    email: Seq<char>,
) -> Option<(Seq<u8>, Seq<u8>)> {
    match (
        crypto::master_key(
            password,
            email,
            kdf.kdf,
            kdf.kdf_iterations,
            kdf.kdf_memory,
            kdf.kdf_parallelism,
        ),
        loaded,
    ) {
        (Ok(key), Ok(sync)) => match crypto::symmetric_key(key, sync.profile.key@) {
            Ok(keys) => Some(keys),
            Err(_) => None,
        },
        _ => None,
    }
}

/// Verifies a password with the key derivation settings of the server.
pub fn verify_online(
    kdf: &PreloginResponse,
    loaded: &Result<SyncResponse, String>,
    password: &str,
    email: &str,
) -> (r: Option<Keys>)
    requires
        crypto::kdf_costs_fit(kdf.kdf, kdf.kdf_memory, kdf.kdf_parallelism),
    ensures
        storage::held_keys(r) == server_keys(*kdf, *loaded, password@, email@),
{
    let key = crypto::prompt_and_derive_master_key(
        password,
        email,
        kdf.kdf,
        kdf.kdf_iterations,
        kdf.kdf_memory,
        kdf.kdf_parallelism,
    );
    match (&key, loaded) {
        (Ok(key), Ok(sync)) => match crypto::decrypt_symmetric_key(key, &sync.profile.key) {
            Ok(keys) => Some(keys),
            Err(_) => None,
        },
        _ => None,
    }
}

// ---------------------------------------------------------------------------
// Changes
// ---------------------------------------------------------------------------
/// What is done with the saved keys.
#[derive(Debug)]
pub enum KeysChore {
    /// They stay as they are.
    Leave,
    /// These are saved, and sent to the agent.
    Save(Keys),
    /// They are removed.
    Clear,
}

/// The settings while they are changed: what is said, what is done with the saved keys, whether
/// anything changed, and the error that ended the changes.
#[derive(Debug)]
pub struct SettingsChange {
    pub config: Config,
    pub session: Session,
    pub lines: Vec<String>,
    pub chore: KeysChore,
    pub updated: bool,
    pub error: Option<String>,
}

/// The value of a [`SettingsChange`].
#[verifier::ext_equal]
pub struct Change {
    pub config: Config,
    pub session: Session,
    pub lines: Seq<Seq<char>>,
    pub chore: KeysChore,
    pub updated: bool,
    pub error: Option<Seq<char>>,
}

impl View for SettingsChange {
    type V = Change;

    open spec fn view(&self) -> Change {
        Change {
            config: self.config,
            session: self.session,
            lines: storage::seq_view(self.lines@),
            chore: self.chore,
            updated: self.updated,
            error: text::option_view(self.error),
        }
    }
}

/// A new timeout: one that keeps the keys needs the verified keys of a user who is logged in,
/// any other removes the saved keys.
pub open spec fn set_timeout(change: Change, timeout: String, verified: Option<Keys>) -> Change {
    let set = Change {
        session: Session { timeout, ..change.session },
        lines: change.lines.push("Timeout updated to: "@ + timeout@),
        updated: true,
        ..change
    };
    if config::normalized(timeout@) == "unlocked"@ {
        if change.session.email is Some {
            match verified {
                Some(keys) => Change {
                    lines: set.lines.push("Saving decryption keys to database..."@),
                    chore: KeysChore::Save(keys),
                    ..set
                },
                None => Change {
                    error: Some("Incorrect Master Password. Timeout setting remains unchanged."@),
                    ..change
                },
            }
        } else {
            set
        }
    } else {
        Change { chore: KeysChore::Clear, ..set }
    }
}

/// A new timeout action.
pub open spec fn set_action(change: Change, name: Seq<char>) -> Change {
    match config::action_named(name) {
        Ok(action) => Change {
            session: Session { timeout_action: action, ..change.session },
            lines: change.lines.push("Timeout action updated to: "@ + config::action_name(action)),
            updated: true,
            ..change
        },
        Err(e) => Change { error: Some(e), ..change },
    }
}

/// A new server.
pub open spec fn set_server(change: Change, server_url: String) -> Change {
    Change {
        config: Config { server_url, ..change.config },
        lines: change.lines.push("Server URL updated to: "@ + server_url@),
        updated: true,
        ..change
    }
}

/// The truth value that a text names.
pub open spec fn flag_named(s: Seq<char>) -> Option<bool> {
    let name = config::normalized(s);
    if name == "true"@ || name == "yes"@ || name == "1"@ {
        Some(true)
    } else if name == "false"@ || name == "no"@ || name == "0"@ {
        Some(false)
    } else {
        None
    }
}

/// The name of a truth value.
pub open spec fn flag_name(flag: bool) -> Seq<char> {
    if flag {
        "true"@
    } else {
        "false"@
    }
}

/// Whether the SSH agent starts with the daemon.
pub open spec fn set_auto_start(change: Change, name: Seq<char>) -> Change {
    match flag_named(name) {
        Some(flag) => Change {
            config: Config { ssh_agent_auto_start: flag, ..change.config },
            lines: change.lines.push("SSH Agent auto-start updated to: "@ + flag_name(flag)),
            updated: true,
            ..change
        },
        None => Change {
            error: Some("Invalid value for ssh_agent_auto_start. Use 'true' or 'false'."@),
            ..change
        },
    }
}

/// The settings after the options, in the order timeout, action, server, auto-start; the first
/// error ends the changes.
pub open spec fn changed(change: Change, args: SettingsArgs, verified: Option<Keys>) -> Change {
    let one = match args.timeout {
        Some(timeout) => set_timeout(change, timeout, verified),
        None => change,
    };
    let two = match args.timeout_action {
        Some(name) => if one.error is None {
            set_action(one, name@)
        } else {
            one
        },
        None => one,
    };
    let three = match args.server_url {
        Some(server_url) => if two.error is None {
            set_server(two, server_url)
        } else {
            two
        },
        None => two,
    };
    match args.ssh_agent_auto_start {
        Some(name) => if three.error is None {
            set_auto_start(three, name@)
        } else {
            three
        },
        None => three,
    }
}

/// The settings before any change.
pub open spec fn unchanged(config: Config, session: Session) -> Change {
    Change {
        config,
        session,
        lines: Seq::empty(),
        chore: KeysChore::Leave,
        updated: false,
        error: None,
    }
}

/// Reads a truth value.
pub fn read_flag(s: &str) -> (r: Option<bool>)
    ensures
        r == flag_named(s@),
{
    let name = config::normalize(s);
    if text::same(&name, "true") || text::same(&name, "yes") || text::same(&name, "1") {
        Some(true)
    } else if text::same(&name, "false") || text::same(&name, "no") || text::same(&name, "0") {
        Some(false)
    } else {
        None
    }
}

/// Names a truth value.
pub fn flag_text(flag: bool) -> (r: String)
    ensures
        r@ == flag_name(flag),
{
    if flag {
        "true".to_owned()
    } else {
        "false".to_owned()
    }
}

impl SettingsChange {
    fn say(&mut self, line: String)
        ensures
            final(self)@ == (Change { lines: old(self)@.lines.push(line@), ..old(self)@ }),
    {
        self.lines.push(line);
        assert(self@.lines =~= old(self)@.lines.push(line@));
    }

    fn set_timeout(&mut self, timeout: &String, verified: &Option<Keys>)
        ensures
            final(self)@ == set_timeout(old(self)@, *timeout, *verified),
    {
        let keeps = config::keeps_keys(timeout);
        if keeps && self.session.email.is_some() && verified.is_none() {
            self.error = Some(
                "Incorrect Master Password. Timeout setting remains unchanged.".to_owned(),
            );
            return;
        }
        self.session.timeout = timeout.clone();
        self.say(text::join2("Timeout updated to: ", timeout));
        self.updated = true;
        if !keeps {
            self.chore = KeysChore::Clear;
        } else if self.session.email.is_some() {
            match verified {
                Some(keys) => {
                    self.say("Saving decryption keys to database...".to_owned());
                    self.chore = KeysChore::Save(*keys);
                },
                None => {},
            }
        }
    }

    fn set_action(&mut self, name: &str)
        ensures
            final(self)@ == set_action(old(self)@, name@),
    {
        match TimeoutAction::parse(name) {
            Ok(action) => {
                self.session.timeout_action = action;
                self.say(text::join2("Timeout action updated to: ", &action.name()));
                self.updated = true;
            },
            Err(e) => {
                self.error = Some(e);
            },
        }
    }

    fn set_server(&mut self, server_url: &String)
        ensures
            final(self)@ == set_server(old(self)@, *server_url),
    {
        self.config.server_url = server_url.clone();
        self.say(text::join2("Server URL updated to: ", server_url));
        self.updated = true;
    }

    fn set_auto_start(&mut self, name: &str)
        ensures
            final(self)@ == set_auto_start(old(self)@, name@),
    {
        match read_flag(name) {
            Some(flag) => {
                self.config.ssh_agent_auto_start = flag;
                self.say(text::join2("SSH Agent auto-start updated to: ", &flag_text(flag)));
                self.updated = true;
            },
            None => {
                self.error = Some(
                    "Invalid value for ssh_agent_auto_start. Use 'true' or 'false'.".to_owned(),
                );
            },
        }
    }
}

/// Changes the settings; `verified` holds the keys of a verified master password, where one was
/// asked for.
pub fn handle_settings(
    args: &SettingsArgs,
    config: Config,
    session: Session,
    verified: &Option<Keys>,
) -> (r: SettingsChange)
    ensures
        r@ == changed(unchanged(config, session), *args, *verified),
{
    let mut change = SettingsChange {
        config,
        session,
        lines: Vec::new(),
        chore: KeysChore::Leave,
        updated: false,
        error: None,
    };
    assert(change@.lines =~= Seq::<Seq<char>>::empty());
    if let Some(timeout) = &args.timeout {
        change.set_timeout(timeout, verified);
    }
    if let Some(name) = &args.timeout_action {
        if change.error.is_none() {
            change.set_action(name);
        }
    }
    if let Some(server_url) = &args.server_url {
        if change.error.is_none() {
            change.set_server(server_url);
        }
    }
    if let Some(name) = &args.ssh_agent_auto_start {
        if change.error.is_none() {
            change.set_auto_start(name);
        }
    }
    change
}

// ---------------------------------------------------------------------------
// Showing
// ---------------------------------------------------------------------------
/// The settings, line by line.
pub open spec fn shown_settings(config: Config, session: Session) -> Seq<Seq<char>> {
    seq![
        "Current settings:"@,
        "  Server URL:     "@ + config.server_url@,
        "  Email:          "@ + match session.email {
            Some(email) => email@,
            None => "<not logged in>"@,
        },
        "  Session Timeout: "@ + session.timeout@,
        "  Timeout Action:  "@ + config::action_name(session.timeout_action),
        "  SSH Agent Auto-Start: "@ + flag_name(config.ssh_agent_auto_start),
    ]
}

/// Shows the settings.
pub fn settings_lines(config: &Config, session: &Session) -> (r: Vec<String>)
    ensures
        storage::seq_view(r@) == shown_settings(*config, *session),
{
    let email = match &session.email {
        Some(email) => email.clone(),
        None => "<not logged in>".to_owned(),
    };
    let lines: Vec<String> = vec![
        "Current settings:".to_owned(),
        text::join2("  Server URL:     ", &config.server_url),
        text::join2("  Email:          ", &email),
        text::join2("  Session Timeout: ", &session.timeout),
        text::join2("  Timeout Action:  ", &session.timeout_action.name()),
        text::join2("  SSH Agent Auto-Start: ", &flag_text(config.ssh_agent_auto_start)),
    ];
    assert(storage::seq_view(lines@) =~= shown_settings(*config, *session));
    lines
}

// ---------------------------------------------------------------------------
// Laws
// ---------------------------------------------------------------------------
/// A password that is not verified changes nothing: the settings, the session and the saved keys
/// stay as they were, whatever else was asked for.
pub proof fn an_unverified_password_changes_nothing(
    config: Config,
    session: Session,
    args: SettingsArgs,
)
    requires
        args.timeout matches Some(timeout) && wants_password(timeout@, session),
    ensures
        ({
            let after = changed(unchanged(config, session), args, None);
            &&& after.config == config
            &&& after.session == session
            &&& after.chore is Leave
            &&& !after.updated
            &&& after.error is Some
        }),
{
}

/// The saved keys are replaced only by verified ones, and every timeout that does not keep them
/// removes them.
pub proof fn saved_keys_follow_the_timeout(
    config: Config,
    session: Session,
    args: SettingsArgs,
    verified: Option<Keys>,
)
    ensures
        ({
            let after = changed(unchanged(config, session), args, verified);
            &&& after.chore matches KeysChore::Save(keys) ==> verified == Some(keys)
            &&& after.chore is Clear <==> (args.timeout matches Some(timeout)
                && config::normalized(timeout@) != "unlocked"@)
        }),
{
}

/// Without options nothing changes.
pub proof fn no_options_change_nothing(
    config: Config,
    session: Session,
    args: SettingsArgs,
    verified: Option<Keys>,
)
    requires
        args.timeout is None,
        args.timeout_action is None,
        args.server_url is None,
        args.ssh_agent_auto_start is None,
    ensures
        changed(unchanged(config, session), args, verified) == unchanged(config, session),
{
}

} // verus!
