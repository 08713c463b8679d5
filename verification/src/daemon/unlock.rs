//! Unlocking the vault from the terminal of an SSH client.
use vstd::prelude::*;
use vstd::string::*;

use super::KeysContext;
use crate::api::SyncResponse;
use crate::number;
use crate::storage::vault;
use crate::text;

verus! {

/// The prompt for the master password.
pub const PROMPT: &'static str = "\r\n[bitter] SSH Agent request received, but vault is locked.\r\nMaster Password: ";

/// What is written where the client leaves before the password is there.
pub const CANCELLED: &'static str = "\n[bitter] Connection closed by client. Cancelling unlock.\r\n";

/// What is written once the vault is unlocked.
pub const UNLOCKED: &'static str = "[bitter] Vault unlocked successfully.\r\n\n";

/// Whether the master password has to be asked for, or why it cannot be.
pub fn check_unlock(unlocked: bool, email: &Option<String>, db_exists: bool) -> (r: Result<
    bool,
    String,
>)
    ensures
        match r {
            Ok(ask) => ask == !unlocked && (unlocked || (email is Some && db_exists)),
            Err(e) => !unlocked && ((email is None && e@ == "Not logged in"@) || (email is Some
                && !db_exists && e@ == "Local database cache is empty"@)),
        },
{
    if unlocked {
        return Ok(false);
    }
    match email {
        None => Err("Not logged in".to_owned()),
        Some(_) => if db_exists {
            Ok(true)
        } else {
            Err("Local database cache is empty".to_owned())
        },
    }
}

/// The link to an open file of a process.
pub open spec fn descriptor_link(pid: i32, fd: nat) -> Seq<char> {
    "/proc/"@ + number::signed_decimal(pid as int) + ("/fd/"@ + number::decimal(fd))
}

/// The links in which a terminal of a process is looked for, in that order: standard error,
/// standard input, standard output.
pub fn terminal_links(pid: i32) -> (r: [String; 3])
    ensures
        r@.len() == 3,
        r@[0]@ == descriptor_link(pid, 2),
        r@[1]@ == descriptor_link(pid, 0),
        r@[2]@ == descriptor_link(pid, 1),
{
    let dir = text::join2("/proc/", &number::signed_text(pid));
    [
        text::join2(&dir, &text::join2("/fd/", &number::decimal_text(2))),
        text::join2(&dir, &text::join2("/fd/", &number::decimal_text(0))),
        text::join2(&dir, &text::join2("/fd/", &number::decimal_text(1))),
    ]
}

/// Whether a path is that of a terminal.
pub open spec fn names_terminal(path: Seq<char>) -> bool {
    text::found_at(path, "/dev/pts/"@, 0) || path == "/dev/tty"@
}

/// The first of the targets that is a terminal; a link that could not be read is passed over.
pub open spec fn first_terminal(targets: Seq<Option<String>>) -> Option<Seq<char>>
    decreases targets.len(),
{
    if targets.len() == 0 {
        None
    } else {
        match targets[0] {
            Some(target) => if names_terminal(target@) {
                Some(target@)
            } else {
                first_terminal(targets.skip(1))
            },
            None => first_terminal(targets.skip(1)),
        }
    }
}

/// Picks the terminal among the targets of links.
pub fn pick_terminal(targets: &[Option<String>]) -> (r: Result<String, String>)
    ensures
        text::result_view(r) == match first_terminal(targets@) {
            Some(path) => Ok(path),
            None => Err("Could not resolve client TTY path"@),
        },
{
    assert(targets@.skip(0) =~= targets@);
    for i in 0..targets.len()
        invariant
            first_terminal(targets@.skip(i as int)) == first_terminal(targets@),
    {
        assert(targets@.skip(i as int).skip(1) =~= targets@.skip(i + 1));
        match &targets[i] {
            Some(target) => {
                if text::starts_with(target, "/dev/pts/") || text::same(target, "/dev/tty") {
                    return Ok(target.clone());
                }
            },
            None => {},
        }
    }
    Err("Could not resolve client TTY path".to_owned())
}

/// Refuses a client that is not in the foreground of its terminal: the process group of the
/// client and that of the terminal are both known and differ.
pub fn check_foreground(client_group: i32, terminal_group: i32) -> (r: Result<(), String>)
    ensures
        match r {
            Ok(_) => client_group < 0 || terminal_group < 0 || client_group == terminal_group,
            Err(e) => client_group >= 0 && terminal_group >= 0 && client_group != terminal_group
                && e@ == "Client is not in the foreground process group of the TTY"@,
        },
{
    if client_group >= 0 && terminal_group >= 0 && client_group != terminal_group {
        Err("Client is not in the foreground process group of the TTY".to_owned())
    } else {
        Ok(())
    }
}

/// Whether what was typed holds the end of a line.
pub open spec fn ends_line(typed: Seq<char>) -> bool {
    typed.contains('\n') || typed.contains('\r')
}

/// Puts a chunk behind what was typed; whether the line is complete.
pub fn take_chunk(typed: &mut String, chunk: &str) -> (r: bool)
    ensures
        final(typed)@ == old(typed)@ + chunk@,
        r == ends_line(final(typed)@),
{
    *typed = text::join2(typed, chunk);
    let chars = text::chars_of(typed);
    for i in 0..chars.len()
        invariant
            chars@ == typed@,
            typed@ == old(typed)@ + chunk@,
            forall|j: int| 0 <= j < i ==> chars@[j] != '\n' && chars@[j] != '\r',
    {
        if chars[i] == '\n' || chars[i] == '\r' {
            assert(typed@.contains(chars@[i as int]));
            return true;
        }
    }
    false
}

/// The password in what was typed.
pub fn accept_password(typed: &str) -> (r: Result<String, String>)
    ensures
        text::result_view(r) == if text::trimmed(typed@).len() == 0 {
            Err("Empty password"@)
        } else {
            Ok(text::trimmed(typed@))
        },
{
    let password = text::trim(typed);
    if text::chars_of(&password).len() == 0 {
        Err("Empty password".to_owned())
    } else {
        Ok(password)
    }
}

/// The keys that a password opens in a cached vault, or why it opens none.
pub open spec fn unlocked_keys(loaded: Result<SyncResponse, String>, password: Seq<char>) -> Result<
    super::HeldKeys,
    Seq<char>,
> {
    match loaded {
        Err(e) => Err("Password incorrect or local database load failed: "@ + e@),
        Ok(sync) => match vault::offline_keys(sync, password) {
            Err(e) => Err("Failed to decrypt local database offline: "@ + e),
            Ok((enc_key, mac_key)) => Ok(
                super::HeldKeys { user_id: sync.profile.id@, enc_key, mac_key },
            ),
        },
    }
}

/// Unlocks the cached vault with the master password.
pub fn unlock_cached(loaded: &Result<SyncResponse, String>, password: &str) -> (r: Result<
    KeysContext,
    String,
>)
    requires
        loaded matches Ok(sync) ==> vault::offline_costs_fit(*sync),
    ensures
        text::result_view(r) == unlocked_keys(*loaded, password@),
{
    match loaded {
        Err(e) => Err(text::join2("Password incorrect or local database load failed: ", e)),
        Ok(sync) => match vault::decrypt_sync_response_offline(sync, password) {
            Err(e) => Err(text::join2("Failed to decrypt local database offline: ", &e)),
            Ok((_, enc_key, mac_key)) => Ok(
                KeysContext { user_id: sync.profile.id.clone(), enc_key, mac_key },
            ),
        },
    }
}

} // verus!
