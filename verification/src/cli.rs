//! What the command line asks for.
use vstd::prelude::*;

verus! {

/// The command line: one command.
#[derive(Debug)]
pub struct Cli {
    pub command: Commands,
}

/// The commands.
#[derive(Debug)]
pub enum Commands {
    /// Log in to a server.
    Login(LoginArgs),
    /// Log out, and clear the cache and the credentials.
    Logout,
    /// Fetch the vault into the local cache.
    Sync,
    /// Show or change the settings.
    Settings(SettingsArgs),
    /// Manage SSH keys.
    Keys(KeysArgs),
    /// Start the daemon.
    Start(DaemonArgs),
    /// Stop the daemon.
    Stop,
    /// Start the SSH agent in the daemon.
    StartSsh,
    /// Stop the SSH agent in the daemon.
    StopSsh,
    /// Unlock the agent with the master password.
    Unlock,
    /// Show the status.
    Status,
    /// Open the terminal user interface.
    Tui,
    /// Remove the settings or the database.
    Reset(ResetArgs),
}

/// The options of a login.
#[derive(Debug)]
pub struct LoginArgs {
    pub email: Option<String>,
    pub password: Option<String>,
    pub client_id: Option<String>,
    pub client_secret: Option<String>,
    pub server: Option<String>,
    pub sso: bool,
    pub org_id: Option<String>,
}

/// The settings to change.
#[derive(Debug)]
pub struct SettingsArgs {
    pub timeout: Option<String>,
    pub timeout_action: Option<String>,
    pub server_url: Option<String>,
    pub ssh_agent_auto_start: Option<String>,
}

/// What to do with SSH keys.
#[derive(Debug)]
pub struct KeysArgs {
    pub command: KeysCommands,
}

/// The commands on SSH keys.
#[derive(Debug)]
pub enum KeysCommands {
    List,
    Add,
    Edit { id: String },
    Delete { id: String },
}

/// How the daemon is started.
#[derive(Debug)]
pub struct DaemonArgs {
    pub background: bool,
    pub socket: Option<String>,
}

/// What to remove.
#[derive(Debug, Clone, Copy)]
pub struct ResetArgs {
    pub config: bool,
    pub db: bool,
}

/// Where a command is carried out.
#[derive(Debug, Clone, Copy, PartialEq, Eq, Structural)]
pub enum Route {
    /// Before anything is loaded.
    Daemon,
    /// Without the database.
    Direct,
    /// With the session; it is saved afterwards where `saves` is set.
    Session { saves: bool },
}

impl Commands {
    /// Where the command is carried out. The session is saved after every command that loads
    /// it but a logout, which ends it.
    pub fn route(&self) -> (r: Route)
        ensures
            r == match *self {
                Commands::Start(_) => Route::Daemon,
                Commands::Reset(_) | Commands::Stop | Commands::StartSsh | Commands::StopSsh =>
                    Route::Direct,
                Commands::Logout => Route::Session { saves: false },
                _ => Route::Session { saves: true },
            },
    {
        match self {
            Commands::Start(_) => Route::Daemon,
            Commands::Reset(_) | Commands::Stop | Commands::StartSsh | Commands::StopSsh =>
                Route::Direct,
            Commands::Logout => Route::Session { saves: false },
            _ => Route::Session { saves: true },
        }
    }
}

} // verus!
