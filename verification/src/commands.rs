//! What the commands do with the session, the settings and the answers they get.
use vstd::prelude::*;
use vstd::string::*;

use crate::api::{PreloginResponse, SyncResponse};
use crate::cli::{KeysCommands, ResetArgs};
use crate::config;
use crate::config::{Config, Session};
use crate::crypto;
use crate::daemon;
use crate::daemon::{ControlRequest, ControlResponse};
use crate::primitives;
use crate::storage::vault;
use crate::storage::Keys;
use crate::text;

pub mod flow;
pub mod login;
pub mod settings;
pub mod status;

verus! {

// ---------------------------------------------------------------------------
// Synchronization
// ---------------------------------------------------------------------------
/// The session after the vault was fetched at `time`.
pub open spec fn synced_session(session: Session, sync: SyncResponse, time: String) -> Session {
    Session {
        user_id: Some(sync.profile.id),
        email: Some(sync.profile.email),
        last_sync_time: Some(time),
        ..session
    }
}

/// Notes in the session that the vault was fetched, and whose it is.
pub fn record_sync(session: &mut Session, sync: &SyncResponse, time: String)
    ensures
        *final(session) == synced_session(*old(session), *sync, time),
{
    session.user_id = Some(sync.profile.id.clone());
    session.email = Some(sync.profile.email.clone());
    session.last_sync_time = Some(time);
}

// ---------------------------------------------------------------------------
// Answers of the agent
// ---------------------------------------------------------------------------
/// What an answer of the agent means: success, or its error behind `prefix`.
pub open spec fn outcome(status: Seq<char>, error: Option<Seq<char>>, prefix: Seq<char>) -> Result<
    (),
    Seq<char>,
> {
    if status == "ok"@ {
        Ok(())
    } else {
        Err(
            prefix + match error {
                Some(error) => error,
                None => Seq::empty(),
            },
        )
    }
}

/// Reads an answer of the agent.
pub fn check_response(response: &ControlResponse, prefix: &str) -> (r: Result<(), String>)
    ensures
        text::result_view(r) == outcome(
            response.status@,
            text::option_view(response.error),
            prefix@,
        ),
{
    if text::same(&response.status, "ok") {
        Ok(())
    } else {
        match &response.error {
            Some(error) => Err(text::join2(prefix, error)),
            None => Err(text::join2(prefix, &String::new())),
        }
    }
}

/// The user of a session, as the agent is told.
pub open spec fn user_of(user_id: Option<String>) -> Seq<char> {
    match user_id {
        Some(id) => id@,
        None => Seq::empty(),
    }
}

/// The request that hands keys to the agent, for the user of the session.
pub fn unlock_request(session: &Session, keys: &Keys) -> (r: ControlRequest)
    ensures
        match r {
            ControlRequest::Unlock { user_id, enc_key, mac_key } => {
                &&& user_id@ == user_of(session.user_id)
                &&& enc_key@ == primitives::hex_encoded(keys.0@)
                &&& mac_key@ == primitives::hex_encoded(keys.1@)
            },
            _ => false,
        },
{
    let user_id = match &session.user_id {
        Some(id) => id.clone(),
        None => String::new(),
    };
    ControlRequest::Unlock {
        user_id,
        enc_key: primitives::hex_encode(&keys.0),
        mac_key: primitives::hex_encode(&keys.1),
    }
}

/// What is said once the SSH agent was asked to start or to stop.
pub fn ssh_agent_message(starting: bool, response: &ControlResponse) -> (r: Result<String, String>)
    ensures
        text::result_view(r) == match outcome(
            response.status@,
            text::option_view(response.error),
            if starting {
                "Failed to start SSH agent: "@
            } else {
                "Failed to stop SSH agent: "@
            },
        ) {
            Ok(_) => Ok(
                if starting {
                    "SSH agent loop started successfully."@
                } else {
                    "SSH agent loop stopped successfully."@
                },
            ),
            Err(e) => Err(e),
        },
{
    if starting {
        match check_response(response, "Failed to start SSH agent: ") {
            Ok(_) => Ok("SSH agent loop started successfully.".to_owned()),
            Err(e) => Err(e),
        }
    } else {
        match check_response(response, "Failed to stop SSH agent: ") {
            Ok(_) => Ok("SSH agent loop stopped successfully.".to_owned()),
            Err(e) => Err(e),
        }
    }
}

/// Refuses to talk to an agent that does not run.
pub fn check_agent_runs(running: bool, starting: bool) -> (r: Result<(), String>)
    ensures
        text::result_view(r) == if running {
            Ok(())
        } else if starting {
            Err(
                "Agent daemon is not running. Please start the daemon first using 'bitter start'."@,
            )
        } else {
            Err("Agent daemon is not running."@)
        },
{
    if running {
        Ok(())
    } else if starting {
        Err(
            "Agent daemon is not running. Please start the daemon first using 'bitter start'.".to_owned(),
        )
    } else {
        Err("Agent daemon is not running.".to_owned())
    }
}

// ---------------------------------------------------------------------------
// Logging out, resetting, managing keys
// ---------------------------------------------------------------------------
/// Forgets the personal API key.
pub fn forget_api_key(config: &mut Config)
    ensures
        *final(config) == (Config { client_id: None, client_secret: None, ..*old(config) }),
{
    config.client_id = None;
    config.client_secret = None;
}

/// What became of the settings file.
#[derive(Debug)]
pub enum Removal {
    /// There is no place for it.
    NoPath,
    /// There was none.
    Missing,
    /// It was removed.
    Removed,
    /// It could not be removed.
    Failed(String),
}

/// What is said of the settings file.
pub fn config_reset_message(removal: &Removal) -> (r: Result<String, String>)
    ensures
        text::result_view(r) == match *removal {
            Removal::NoPath => Err("Could not determine config path"@),
            Removal::Missing => Ok("Configuration file does not exist."@),
            Removal::Removed => Ok("Configuration file reset successfully."@),
            Removal::Failed(e) => Err("Failed to remove config file: "@ + e@),
        },
{
    match removal {
        Removal::NoPath => Err("Could not determine config path".to_owned()),
        Removal::Missing => Ok("Configuration file does not exist.".to_owned()),
        Removal::Removed => Ok("Configuration file reset successfully.".to_owned()),
        Removal::Failed(e) => Err(text::join2("Failed to remove config file: ", e)),
    }
}

/// What is said of the database; a failure is a warning only.
pub fn db_reset_message(removed: &Result<(), String>) -> (r: Result<String, String>)
    ensures
        text::result_view(r) == match *removed {
            Ok(_) => Ok("Database file reset successfully."@),
            Err(e) => Err("Failed to reset database file: "@ + e@),
        },
{
    match removed {
        Ok(_) => Ok("Database file reset successfully.".to_owned()),
        Err(e) => Err(text::join2("Failed to reset database file: ", e)),
    }
}

/// What is said where nothing was asked to be removed.
pub fn idle_reset_message(args: ResetArgs) -> (r: Option<String>)
    ensures
        text::option_view(r) == if args.config || args.db {
            None
        } else {
            Some(
                "Nothing to reset. Use --config to reset configuration, and/or --db to reset database."@,
            )
        },
{
    if args.config || args.db {
        None
    } else {
        Some(
            "Nothing to reset. Use --config to reset configuration, and/or --db to reset database.".to_owned(),
        )
    }
}

/// What is said to a command on SSH keys.
pub fn keys_message(command: &KeysCommands) -> (r: String)
    ensures
        r@ == match *command {
            KeysCommands::List => "Listing keys... (Will be implemented in Phase 3)"@,
            KeysCommands::Add => "Adding new key... (Will be implemented in Phase 3)"@,
            KeysCommands::Edit { id } => "Editing key "@ + id@
                + "... (Will be implemented in Phase 3)"@,
            KeysCommands::Delete { id } => "Deleting key "@ + id@
                + "... (Will be implemented in Phase 3)"@,
        },
{
    match command {
        KeysCommands::List => "Listing keys... (Will be implemented in Phase 3)".to_owned(),
        KeysCommands::Add => "Adding new key... (Will be implemented in Phase 3)".to_owned(),
        KeysCommands::Edit { id } => text::join3(
            "Editing key ",
            id,
            "... (Will be implemented in Phase 3)",
        ),
        KeysCommands::Delete { id } => text::join3(
            "Deleting key ",
            id,
            "... (Will be implemented in Phase 3)",
        ),
    }
}

// ---------------------------------------------------------------------------
// Unlocking
// ---------------------------------------------------------------------------
/// The address of the session, which unlocking needs.
pub fn session_email(session: &Session) -> (r: Result<String, String>)
    ensures
        text::result_view(r) == match session.email {
            Some(email) => Ok(email@),
            None => Err("Email address missing from session. Please log in first."@),
        },
{
    match &session.email {
        Some(email) => Ok(email.clone()),
        None => Err("Email address missing from session. Please log in first.".to_owned()),
    }
}

/// The master key that the key derivation settings of the server derive, where it answered and
/// they can be used.
pub open spec fn online_master_key(
    prelogin: Result<PreloginResponse, String>,
    password: Seq<char>,
    email: Seq<char>,
) -> Option<Seq<u8>> {
    match prelogin {
        Ok(kdf) => match crypto::master_key(
            password,
            email,
            kdf.kdf,
            kdf.kdf_iterations,
            kdf.kdf_memory,
            kdf.kdf_parallelism,
        ) {
            Ok(key) => Some(key),
            Err(_) => None,
        },
        Err(_) => None,
    }
}

/// Whether the Argon2 costs of the server, where they matter, fit in 32 bits.
pub open spec fn online_costs_fit(prelogin: Result<PreloginResponse, String>) -> bool {
    prelogin matches Ok(kdf) ==> crypto::kdf_costs_fit(
        kdf.kdf,
        kdf.kdf_memory,
        kdf.kdf_parallelism,
    )
}

/// Derives the master key with the settings of the server.
pub fn derive_online(prelogin: &Result<PreloginResponse, String>, password: &str, email: &str) -> (r:
    Option<[u8; 32]>)
    requires
        online_costs_fit(*prelogin),
    ensures
        (match r {
            Some(key) => Some(key@),
            None => None,
        }) == online_master_key(*prelogin, password@, email@),
{
    match prelogin {
        Ok(kdf) => match crypto::prompt_and_derive_master_key(
            password,
            email,
            kdf.kdf,
            kdf.kdf_iterations,
            kdf.kdf_memory,
            kdf.kdf_parallelism,
        ) {
            Ok(key) => Some(key),
            Err(_) => None,
        },
        Err(_) => None,
    }
}

/// The keys that unlock the cached vault: those that the derived master key unwraps, or, without
/// one, those that the cached settings and the password give.
pub open spec fn vault_keys(
    derived: Option<Seq<u8>>,
    loaded: Result<SyncResponse, String>,
    password: Seq<char>,
) -> Result<(Seq<u8>, Seq<u8>), Seq<char>> {
    match loaded {
        Err(e) => Err(e@),
        Ok(sync) => match derived {
            Some(key) => match crypto::symmetric_key(key, sync.profile.key@) {
                Ok(keys) => Ok(keys),
                Err(e) => Err("Failed to decrypt symmetric keys: "@ + e),
            },
            None => vault::offline_keys(sync, password),
        },
    }
}

/// Opens the keys of the cached vault.
pub fn open_vault_keys(
    derived: &Option<[u8; 32]>,
    loaded: &Result<SyncResponse, String>,
    password: &str,
) -> (r: Result<Keys, String>)
    requires
        derived is None ==> (loaded matches Ok(sync) ==> vault::offline_costs_fit(*sync)),
    ensures
        crypto::keys_result_view(r) == vault_keys(
            match *derived {
                Some(key) => Some(key@),
                None => None,
            },
            *loaded,
            password@,
        ),
{
    match loaded {
        Err(e) => Err(e.clone()),
        Ok(sync) => match derived {
            Some(key) => match crypto::decrypt_symmetric_key(key, &sync.profile.key) {
                Ok(keys) => Ok(keys),
                Err(e) => Err(text::join2("Failed to decrypt symmetric keys: ", &e)),
            },
            None => match vault::decrypt_sync_response_offline(sync, password) {
                Ok((_, enc, mac)) => Ok((enc, mac)),
                Err(e) => Err(e),
            },
        },
    }
}

/// Whether keys are saved beside the vault: the session is to stay unlocked.
pub fn saves_keys(session: &Session) -> (r: bool)
    ensures
        r == (config::normalized(session.timeout@) == "unlocked"@),
{
    config::keeps_keys(&session.timeout)
}

/// Keys that are sent to the agent for a user are held by it as they are, and unlock the vault
/// for that user.
pub proof fn sent_keys_arrive(agent: daemon::Agent, user_id: Option<String>, enc: Seq<u8>, mac: Seq<
    u8,
>)
    requires
        enc.len() == 32,
        mac.len() == 32,
    ensures
        ({
            let user = user_of(user_id);
            let after = daemon::on_unlock(
                agent,
                user,
                primitives::hex_encoded(enc),
                primitives::hex_encoded(mac),
            ).0;
            &&& after.keys == Some(
                daemon::HeldKeys { user_id: user, enc_key: enc, mac_key: mac },
            )
            &&& daemon::unlocked_for(after, Some(user))
        }),
{
    let user = user_of(user_id);
    daemon::unlocking_holds_the_keys(agent, user, enc, mac, user);
}

} // verus!
