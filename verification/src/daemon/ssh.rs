//! The SSH agent socket: frames, and the replies of a locked and an unlocked vault.
use vstd::prelude::*;

use super::KeysContext;
use crate::agent;
use crate::api::SyncResponse;
use crate::storage;
use crate::storage::vault;

verus! {

/// The length that four bytes before a message give, the highest first.
pub fn frame_length(head: [u8; 4]) -> (r: u32)
    ensures
        r == agent::number_at(head@, 0),
{
    head[0] as u32 * 0x100_0000 + head[1] as u32 * 0x1_0000 + head[2] as u32 * 0x100
        + head[3] as u32
}

/// The bytes that carry a message: its length, the message.
pub fn frame(message: &[u8]) -> (r: Vec<u8>)
    ensures
        r@ == agent::prefixed(message@),
{
    let mut writer = agent::Writer::new();
    writer.write_string(message);
    assert(writer@ =~= agent::prefixed(message@));
    writer.into_bytes()
}

/// The kind of a message: its first byte, nought where it is empty.
pub open spec fn message_kind(payload: Seq<u8>) -> u8 {
    if payload.len() > 0 {
        payload[0]
    } else {
        0
    }
}

fn kind_of(payload: &[u8]) -> (r: u8)
    ensures
        r == message_kind(payload@),
{
    if payload.len() > 0 {
        payload[0]
    } else {
        0
    }
}

/// Whether a message makes the agent ask for the master password: the vault is locked, and the
/// message asks for keys.
pub fn asks_for_unlock(payload: &[u8], locked: bool) -> (r: bool)
    ensures
        r == (locked && (message_kind(payload@) == agent::SSH2_AGENTC_REQUEST_IDENTITIES
            || message_kind(payload@) == agent::SSH2_AGENTC_SIGN_REQUEST)),
{
    let kind: u8 = kind_of(payload);
    locked && (kind == agent::SSH2_AGENTC_REQUEST_IDENTITIES || kind
        == agent::SSH2_AGENTC_SIGN_REQUEST)
}

/// The reply while the vault is locked: no keys to a request for the list, a refusal otherwise.
pub open spec fn locked_reply(payload: Seq<u8>) -> Seq<u8> {
    if message_kind(payload) == agent::SSH2_AGENTC_REQUEST_IDENTITIES {
        seq![agent::SSH2_AGENT_IDENTITIES_ANSWER, 0u8, 0u8, 0u8, 0u8]
    } else {
        seq![agent::SSH_AGENT_FAILURE]
    }
}

/// The reply with the SSH keys of a vault.
pub open spec fn unlocked_reply(payload: Seq<u8>, items: Seq<storage::KeyTexts>) -> Seq<u8> {
    match agent::agent_reply(payload, agent::offered_keys(items)) {
        Ok(reply) => reply,
        Err(_) => seq![agent::SSH_AGENT_FAILURE],
    }
}

/// The reply to a message, given the keys of the agent and the cached vault, or why it could not
/// be loaded.
pub open spec fn socket_reply(
    payload: Seq<u8>,
    keys: Option<super::HeldKeys>,
    vault: Result<SyncResponse, String>,
) -> Seq<u8> {
    match (keys, vault) {
        (None, _) => locked_reply(payload),
        (Some(_), Err(_)) => seq![agent::SSH_AGENT_FAILURE],
        (Some(keys), Ok(sync)) => unlocked_reply(
            payload,
            vault::vault_ssh_keys(sync, (keys.enc_key, keys.mac_key)),
        ),
    }
}

/// Answers a message of an SSH client.
pub fn answer_message(
    payload: &[u8],
    keys: &Option<KeysContext>,
    vault: &Result<SyncResponse, String>,
) -> (r: Vec<u8>)
    ensures
        r@ == socket_reply(payload@, storage::part_view(*keys), *vault),
{
    match (keys, vault) {
        (None, _) => {
            if kind_of(payload) == agent::SSH2_AGENTC_REQUEST_IDENTITIES {
                let mut writer = agent::Writer::new();
                writer.write_u8(agent::SSH2_AGENT_IDENTITIES_ANSWER);
                writer.write_u32(0);
                assert(writer@ =~= locked_reply(payload@));
                writer.into_bytes()
            } else {
                agent::failure_reply()
            }
        },
        (Some(_), Err(_)) => agent::failure_reply(),
        (Some(keys), Ok(sync)) => {
            let items = vault::decrypt_ssh_keys(sync, &keys.enc_key, &keys.mac_key);
            let offered = agent::load_agent_keys(&items);
            match agent::handle_agent_request(payload, &offered) {
                Ok(reply) => reply,
                Err(_) => agent::failure_reply(),
            }
        },
    }
}

/// A frame is read back: the length before a message is the length of the message.
pub proof fn frames_are_read_back(message: Seq<u8>)
    requires
        message.len() <= u32::MAX,
    ensures
        agent::number_at(agent::prefixed(message), 0) == message.len(),
        agent::prefixed(message).skip(4) == message,
{
    agent::numbers_are_read_back(message.len() as u32, message);
    assert(agent::prefixed(message).skip(4) =~= message);
}

/// A locked agent answers as one without keys: the list is empty and nothing is signed, whatever
/// the cache holds.
pub proof fn a_locked_agent_signs_nothing(payload: Seq<u8>, vault: Result<SyncResponse, String>)
    ensures
        socket_reply(payload, None, vault) == seq![agent::SSH_AGENT_FAILURE] || socket_reply(
            payload,
            None,
            vault,
        ) == seq![agent::SSH2_AGENT_IDENTITIES_ANSWER, 0u8, 0u8, 0u8, 0u8],
        socket_reply(payload, None, vault) == unlocked_reply(payload, Seq::empty()),
{
    let none = Seq::<agent::OfferedKey>::empty();
    assert(agent::offered_keys(Seq::empty()) =~= none);
    agent::without_keys_nothing_is_signed(payload);
    assert(agent::identities(none) == Ok::<Seq<u8>, Seq<char>>(Seq::empty()));
    assert(seq![agent::SSH2_AGENT_IDENTITIES_ANSWER] + agent::big_endian(0) + Seq::<u8>::empty()
        =~= seq![agent::SSH2_AGENT_IDENTITIES_ANSWER, 0u8, 0u8, 0u8, 0u8]);
}

/// Every message gets a reply.
pub proof fn every_message_is_answered(
    payload: Seq<u8>,
    keys: Option<super::HeldKeys>,
    vault: Result<SyncResponse, String>,
)
    ensures
        socket_reply(payload, keys, vault).len() >= 1,
{
    if let (Some(keys), Ok(sync)) = (keys, vault) {
        agent::replies_are_not_empty(
            payload,
            agent::offered_keys(
                vault::vault_ssh_keys(sync, (keys.enc_key, keys.mac_key)),
            ),
        );
    }
}

} // verus!
