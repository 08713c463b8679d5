//! Laws of the SSH agent protocol.
use vstd::prelude::*;
use vstd::string::*;
use vstd::utf8::*;

use crate::agent;
use crate::agent::{OfferedKey, SignatureHash};
use crate::api::SyncResponse;
use crate::daemon;
use crate::daemon::ssh;
use crate::primitives;
use crate::storage;
use crate::storage::vault;

verus! {

/// The numbers of the messages are those of the protocol.
pub proof fn messages_have_the_numbers_of_the_protocol()
    ensures
        agent::SSH2_AGENTC_REQUEST_IDENTITIES == 11,
        agent::SSH2_AGENT_IDENTITIES_ANSWER == 12,
        agent::SSH2_AGENTC_SIGN_REQUEST == 13,
        agent::SSH2_AGENT_SIGN_RESPONSE == 14,
        agent::SSH_AGENT_FAILURE == 5,
        agent::SSH_AGENT_RSA_SHA2_512 == 4,
        agent::MIN_RSA_BYTES == 256,
{
}

/// A number stands on the wire in four bytes, its highest byte first.
pub proof fn numbers_stand_with_their_highest_byte_first(a: u8, b: u8, c: u8, d: u8)
    ensures
        agent::big_endian((a * 0x100_0000 + b * 0x1_0000 + c * 0x100 + d) as u32) == seq![a, b, c, d],
        agent::number_at(seq![a, b, c, d], 0) == a * 0x100_0000 + b * 0x1_0000 + c * 0x100 + d,
{
    let n = (a * 0x100_0000 + b * 0x1_0000 + c * 0x100 + d) as u32;
    assert(n == a * 0x100_0000 + b * 0x1_0000 + c * 0x100 + d);
    assert(n / 0x100_0000 == a);
    assert(n / 0x1_0000 == a * 0x100 + b);
    assert(n / 0x100 == a * 0x1_0000 + b * 0x100 + c);
    let bytes = agent::big_endian(n);
    assert(bytes.len() == 4);
    assert(bytes[0] == a);
    assert(bytes[1] == b);
    assert(bytes[2] == c);
    assert(bytes[3] == d);
    assert(bytes =~= seq![a, b, c, d]);
}

/// Bytes stand on the wire behind their length.
pub proof fn strings_stand_behind_their_length(bytes: Seq<u8>)
    requires
        bytes.len() <= u32::MAX,
    ensures
        agent::prefixed(bytes) == agent::big_endian(bytes.len() as u32) + bytes,
        agent::big_endian(bytes.len() as u32).len() == 4,
{
}

/// A number or a string that the message ends in is not read.
pub proof fn cut_messages_are_not_read(data: Seq<u8>, at: int)
    requires
        0 <= at <= data.len(),
    ensures
        data.len() - at < 4 ==> agent::take_number(data, at) is Err && agent::take_string(
            data,
            at,
        ) is Err,
        data.len() - at >= 4 ==> (agent::take_number(data, at) matches Ok((n, next)) && next == at
            + 4 && n == agent::number_at(data, at)),
        data.len() - at >= 4 && agent::number_at(data, at) > data.len() - at - 4
            ==> agent::take_string(data, at) is Err,
        data.len() - at >= 4 && agent::number_at(data, at) <= data.len() - at - 4
            ==> agent::take_string(data, at) == Ok::<(Seq<u8>, int), Seq<char>>(
            (
                data.subrange(at + 4, at + 4 + agent::number_at(data, at)),
                at + 4 + agent::number_at(data, at),
            ),
        ),
{
}

// ---------------------------------------------------------------------------
// Which keys are offered
// ---------------------------------------------------------------------------
/// A private key that can be read is offered under the name of its item, with its public key, and
/// signs with its own text; one that cannot be read is passed over.
pub proof fn readable_keys_are_offered(items: Seq<storage::KeyTexts>, item: storage::KeyTexts)
    ensures
        agent::openssh_key(item.private_key) matches Some((blob, is_rsa)) ==> agent::offered_keys(
            items.push(item),
        ) == agent::offered_keys(items).push(
            OfferedKey {
                private_key: item.private_key,
                comment: item.name,
                public_blob: blob,
                is_rsa,
            },
        ),
        agent::openssh_key(item.private_key) is None ==> agent::offered_keys(items.push(item))
            == agent::offered_keys(items),
        agent::offered_keys(Seq::empty()).len() == 0,
{
    assert(items.push(item).drop_last() =~= items);
}

/// The list of identities begins with the number of keys and holds, for each key in order, its
/// public key and its comment.
pub proof fn every_key_is_listed(keys: Seq<OfferedKey>, key: OfferedKey, blob: Seq<u8>, list: Seq<u8>)
    requires
        key.public_blob == Ok::<Seq<u8>, Seq<char>>(blob),
        agent::identities(keys) == Ok::<Seq<u8>, Seq<char>>(list),
    ensures
        agent::identities(keys.push(key)) == Ok::<Seq<u8>, Seq<char>>(
            list + agent::prefixed(blob) + agent::prefixed(encode_utf8(key.comment)),
        ),
        agent::identities(Seq::empty()) == Ok::<Seq<u8>, Seq<char>>(Seq::empty()),
        agent::agent_reply(seq![11u8], keys) == Ok::<Seq<u8>, Seq<char>>(
            seq![12u8] + agent::big_endian(keys.len() as u32) + list,
        ),
{
    assert(keys.push(key).drop_last() =~= keys);
}

/// A key that cannot be written keeps the list from being made.
pub proof fn unwritten_keys_are_not_listed(keys: Seq<OfferedKey>, i: int)
    requires
        0 <= i < keys.len(),
        keys[i].public_blob is Err,
    ensures
        agent::identities(keys) is Err,
    decreases keys.len(),
{
    if i < keys.len() - 1 {
        assert(keys.drop_last()[i] == keys[i]);
        unwritten_keys_are_not_listed(keys.drop_last(), i);
    }
}

// ---------------------------------------------------------------------------
// Which key signs
// ---------------------------------------------------------------------------
proof fn lemma_found_from(keys: Seq<OfferedKey>, blob: Seq<u8>, from: int, i: int)
    requires
        0 <= from <= i < keys.len(),
        keys[i].public_blob == Ok::<Seq<u8>, Seq<char>>(blob),
        forall|j: int|
            from <= j < i ==> (#[trigger] keys[j]).public_blob is Ok && keys[j].public_blob != Ok::<
                Seq<u8>,
                Seq<char>,
            >(blob),
    ensures
        agent::find_key(keys, blob, from) == Ok::<Option<OfferedKey>, Seq<char>>(Some(keys[i])),
    decreases i - from,
{
    if from < i {
        assert(keys[from].public_blob is Ok);
        lemma_found_from(keys, blob, from + 1, i);
    }
}

/// The key that a request names is found wherever it stands among the keys: the first one with that
/// public key, where every key before it can be written.
pub proof fn the_named_key_is_found(keys: Seq<OfferedKey>, blob: Seq<u8>, i: int)
    requires
        0 <= i < keys.len(),
        keys[i].public_blob == Ok::<Seq<u8>, Seq<char>>(blob),
        forall|j: int| 0 <= j < i ==> (#[trigger] keys[j]).public_blob is Ok,
    ensures
        agent::find_key(keys, blob, 0) matches Ok(Some(key)) && key.public_blob == Ok::<
            Seq<u8>,
            Seq<char>,
        >(blob),
        (forall|j: int|
            0 <= j < i ==> (#[trigger] keys[j]).public_blob != Ok::<Seq<u8>, Seq<char>>(blob))
            ==> agent::find_key(keys, blob, 0) == Ok::<Option<OfferedKey>, Seq<char>>(Some(keys[i])),
    decreases i,
{
    if exists|j: int|
        0 <= j < i && (#[trigger] keys[j]).public_blob == Ok::<Seq<u8>, Seq<char>>(blob) {
        let j = choose|j: int|
            0 <= j < i && (#[trigger] keys[j]).public_blob == Ok::<Seq<u8>, Seq<char>>(blob);
        the_named_key_is_found(keys, blob, j);
    } else {
        lemma_found_from(keys, blob, 0, i);
    }
}

/// Where no key has the public key that a request names, the request is refused.
pub proof fn unknown_keys_are_refused(
    keys: Seq<OfferedKey>,
    blob: Seq<u8>,
    data: Seq<u8>,
    flags: u32,
)
    requires
        blob.len() <= u32::MAX,
        data.len() <= u32::MAX,
        forall|j: int|
            0 <= j < keys.len() ==> (#[trigger] keys[j]).public_blob is Ok && keys[j].public_blob
                != Ok::<Seq<u8>, Seq<char>>(blob),
    ensures
        agent::agent_reply(agent::signing_request(blob, data, flags), keys) == Ok::<
            Seq<u8>,
            Seq<char>,
        >(seq![5u8]),
{
    agent::signing_requests_are_read_back(blob, data, flags);
    assert(agent::signing_request(blob, data, flags)[0] == 13);
    lemma_not_found(keys, blob, 0);
}

proof fn lemma_not_found(keys: Seq<OfferedKey>, blob: Seq<u8>, from: int)
    requires
        0 <= from <= keys.len(),
        forall|j: int|
            from <= j < keys.len() ==> (#[trigger] keys[j]).public_blob is Ok && keys[j].public_blob
                != Ok::<Seq<u8>, Seq<char>>(blob),
    ensures
        agent::find_key(keys, blob, from) == Ok::<Option<OfferedKey>, Seq<char>>(None),
    decreases keys.len() - from,
{
    if from < keys.len() {
        assert(keys[from].public_blob is Ok);
        lemma_not_found(keys, blob, from + 1);
    }
}

/// A signing request is answered with the signature of the key that it names, over its data,
/// wherever that key stands among the keys.
pub proof fn the_key_that_is_named_signs(
    keys: Seq<OfferedKey>,
    i: int,
    blob: Seq<u8>,
    data: Seq<u8>,
    flags: u32,
    signature: Seq<u8>,
)
    requires
        0 <= i < keys.len(),
        blob.len() <= u32::MAX,
        data.len() <= u32::MAX,
        keys[i].public_blob == Ok::<Seq<u8>, Seq<char>>(blob),
        forall|j: int|
            0 <= j < i ==> (#[trigger] keys[j]).public_blob is Ok && keys[j].public_blob != Ok::<
                Seq<u8>,
                Seq<char>,
            >(blob),
        !keys[i].is_rsa,
        agent::openssh_signature(keys[i].private_key, data) == Ok::<
            Result<Seq<u8>, Seq<char>>,
            Seq<char>,
        >(Ok(signature)),
    ensures
        agent::agent_reply(
            seq![13u8] + agent::prefixed(blob) + agent::prefixed(data) + agent::big_endian(flags),
            keys,
        ) == Ok::<Seq<u8>, Seq<char>>(seq![14u8] + agent::prefixed(signature)),
{
    lemma_found_from(keys, blob, 0, i);
    agent::the_challenge_is_signed(keys, keys[i], blob, data, flags, signature);
}

/// An RSA key signs the data with SHA-512 where the flag for it is set and with SHA-256 otherwise;
/// the signature stands behind the name of its algorithm.
pub proof fn rsa_keys_sign_with_the_digest_that_is_asked_for(
    key: OfferedKey,
    numbers: (Seq<u8>, Seq<u8>, Seq<u8>, Seq<u8>, Seq<u8>),
    der: Seq<u8>,
    data: Seq<u8>,
    signature: Seq<u8>,
    flags: u32,
)
    requires
        key.is_rsa,
        agent::openssh_rsa_numbers(key.private_key) == Some(numbers),
        primitives::rsa_document(numbers.0, numbers.1, numbers.2, numbers.3, numbers.4) == Ok::<
            Seq<u8>,
            Seq<char>,
        >(der),
        primitives::rsa_key_fault(der) is None,
        primitives::rsa_prime_bits(der).1 <= primitives::rsa_prime_bits(der).0 + 16,
        primitives::rsa_modulus_bytes(der) >= 256,
    ensures
        ({
            let made = agent::key_signature(key, agent::wanted_hash(key.is_rsa, flags), data);
            let wants_512 = flags & 4 != 0;
            &&& wants_512 && primitives::rsa_sha512_signature(der, data) == Ok::<
                Seq<u8>,
                Seq<char>,
            >(signature) ==> made == Ok::<Result<Seq<u8>, Seq<char>>, Seq<char>>(
                Ok(
                    agent::prefixed(encode_utf8("rsa-sha2-512"@)) + agent::prefixed(signature),
                ),
            )
            &&& !wants_512 && primitives::rsa_sha256_signature(der, data) == Ok::<
                Seq<u8>,
                Seq<char>,
            >(signature) ==> made == Ok::<Result<Seq<u8>, Seq<char>>, Seq<char>>(
                Ok(
                    agent::prefixed(encode_utf8("rsa-sha2-256"@)) + agent::prefixed(signature),
                ),
            )
        }),
{
}

/// The flag four asks for SHA-512; the flag two and none do not.
pub proof fn the_flags_of_a_request()
    ensures
        4u32 & 4 != 0,
        6u32 & 4 != 0,
        2u32 & 4 == 0,
        0u32 & 4 == 0,
{
    assert(4u32 & 4 != 0) by (bit_vector);
    assert(6u32 & 4 != 0) by (bit_vector);
    assert(2u32 & 4 == 0) by (bit_vector);
    assert(0u32 & 4 == 0) by (bit_vector);
}

/// A message of another kind is refused, and an empty one is a fault.
pub proof fn other_messages_are_refused(request: Seq<u8>, keys: Seq<OfferedKey>)
    ensures
        request.len() == 0 ==> agent::agent_reply(request, keys) is Err,
        request.len() > 0 && request[0] != 11 && request[0] != 13 ==> agent::agent_reply(
            request,
            keys,
        ) == Ok::<Seq<u8>, Seq<char>>(seq![5u8]),
{
}

/// A signature that was not made, or could not be written, is a fault and no reply.
pub proof fn failed_signatures_are_faults(e: Seq<char>, signature: Seq<u8>)
    ensures
        agent::signature_reply(Err(e)) is Err,
        agent::signature_reply(Ok(Err(e))) is Err,
        agent::signature_reply(Ok(Ok(signature))) == Ok::<Seq<u8>, Seq<char>>(
            seq![14u8] + agent::prefixed(signature),
        ),
{
}

// ---------------------------------------------------------------------------
// The socket
// ---------------------------------------------------------------------------
/// An unlocked agent answers with the SSH keys that its own keys open in the cached vault; where the
/// vault cannot be loaded, or the message cannot be answered, it refuses.
pub proof fn an_unlocked_agent_answers_with_the_keys_of_the_vault(
    payload: Seq<u8>,
    keys: daemon::HeldKeys,
    sync: SyncResponse,
    fault: String,
)
    ensures
        ({
            let offered = agent::offered_keys(
                vault::all_ssh_keys(
                    vault::opened_vault(sync, (keys.enc_key, keys.mac_key)).0,
                ),
            );
            let reply = ssh::socket_reply(payload, Some(keys), Ok(sync));
            match agent::agent_reply(payload, offered) {
                Ok(made) => reply == made,
                Err(_) => reply == seq![5u8],
            }
        }),
        ssh::socket_reply(payload, Some(keys), Err(fault)) == seq![5u8],
{
}

/// A locked agent answers a request for the list with an empty one, and refuses everything else.
pub proof fn a_locked_agent_shows_nothing(payload: Seq<u8>, vault: Result<SyncResponse, String>)
    ensures
        payload.len() > 0 && payload[0] == 11 ==> ssh::socket_reply(payload, None, vault) == seq![
            12u8,
            0u8,
            0u8,
            0u8,
            0u8,
        ],
        payload.len() == 0 || payload[0] != 11 ==> ssh::socket_reply(payload, None, vault) == seq![
            5u8,
        ],
        payload.len() > 0 ==> ssh::message_kind(payload) == payload[0],
        payload.len() == 0 ==> ssh::message_kind(payload) == 0,
{
}

} // verus!
