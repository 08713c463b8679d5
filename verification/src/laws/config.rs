//! Laws of the settings, the session and the tokens.
use vstd::prelude::*;
use vstd::string::*;
use vstd::utf8::*;

use crate::config;
use crate::config::{Config, TimeoutAction, TokenPlan};
use crate::number;
use crate::primitives;
use crate::text;
use crate::tree;

verus! {

// ---------------------------------------------------------------------------
// Timeouts
// ---------------------------------------------------------------------------
/// An action is known by its name in any case, and by nothing else.
pub proof fn actions_are_known_by_their_names(s: Seq<char>)
    ensures
        text::lowercase(s) == "lock"@ ==> config::action_named(s) == Ok::<TimeoutAction, Seq<char>>(
            TimeoutAction::Lock,
        ),
        text::lowercase(s) == "logout"@ ==> config::action_named(s) == Ok::<
            TimeoutAction,
            Seq<char>,
        >(TimeoutAction::Logout),
        text::lowercase(s) != "lock"@ && text::lowercase(s) != "logout"@ ==> config::action_named(
            s,
        ) == Err::<TimeoutAction, Seq<char>>(
            "Invalid timeout action '"@ + s + "'. Expected 'lock' or 'logout'"@,
        ),
        config::action_name(TimeoutAction::Lock) == "Lock"@,
        config::action_name(TimeoutAction::Logout) == "Logout"@,
{
    reveal_strlit("lock");
    reveal_strlit("logout");
    assert("lock"@.len() != "logout"@.len());
}

/// White space around a setting and the case of its letters do not matter.
pub proof fn settings_are_read_without_white_space(a: Seq<char>, s: Seq<char>, b: Seq<char>)
    requires
        forall|k: int| 0 <= k < a.len() ==> text::is_space(#[trigger] a[k]),
        forall|k: int| 0 <= k < b.len() ==> text::is_space(#[trigger] b[k]),
        s.len() > 0 ==> !text::is_space(s[0]) && !text::is_space(s.last()),
    ensures
        config::normalized(a + s + b) == text::lowercase(s),
        config::effective_seconds(a + s + b) == config::effective_seconds(s),
{
    super::text::trimming_finds_what_stands_between(a, s, b);
    super::text::trimming_finds_what_stands_between(Seq::empty(), s, Seq::empty());
    assert(Seq::<char>::empty() + s + Seq::<char>::empty() =~= s);
}

/// A number without a unit is one of minutes.
pub proof fn numbers_without_a_unit_are_minutes(n: u64)
    ensures
        config::timeout_seconds(number::decimal(n as nat)) == Ok::<Option<nat>, Seq<char>>(
            Some(n as nat * 60),
        ),
{
    let digits = number::decimal(n as nat);
    number::written_numbers_are_read_back(n as nat, u64::MAX as nat);
    lemma_last_digit(n as nat);
    reveal_strlit("custom ");
    reveal_strlit("never");
    reveal_strlit("on logout");
    reveal_strlit("immediately");
    assert("never"@[0] == 'n' && "on logout"@[0] == 'o' && "immediately"@[0] == 'i');
    if text::found_at(digits, "custom "@, 0) {
        assert(digits.subrange(0, "custom "@.len() as int)[0] == digits[0]);
        assert("custom "@[0] == 'c');
    }
}

proof fn lemma_last_digit(n: nat)
    ensures
        number::decimal(n).len() > 0,
        number::is_digit(number::decimal(n).last()),
{
}

/// A timeout that cannot be read is a fault that names what could not be read and why, and the agent
/// then runs without one.
pub proof fn unreadable_timeouts_are_faults(
    s: Seq<char>,
    timeout: Seq<char>,
    fault: number::NumberFault,
)
    requires
        config::normalized(timeout) == s,
        s != "never"@,
        s != "on logout"@,
        s != "immediately"@,
        !text::found_at(s, "custom "@, 0),
        s.len() > 0,
    ensures
        ({
            let unit = s.last() == 's' || s.last() == 'm' || s.last() == 'h' || s.last() == 'd';
            let digits = if unit {
                s.drop_last()
            } else {
                s
            };
            number::unsigned_value(digits, u64::MAX as nat) == Err::<nat, number::NumberFault>(fault)
                ==> {
                &&& config::timeout_seconds(s) == Err::<Option<nat>, Seq<char>>(
                    "Invalid timeout duration value '"@ + digits + "': "@ + number::fault_message(
                        fault,
                    ),
                )
                &&& config::effective_seconds(timeout) is None
            }
        }),
{
}

/// A custom timeout whose seconds cannot be read is a fault that names them and why.
pub proof fn unreadable_custom_timeouts_are_faults(digits: Seq<char>, fault: number::NumberFault)
    requires
        number::unsigned_value(digits, u64::MAX as nat) == Err::<nat, number::NumberFault>(fault),
    ensures
        config::timeout_seconds("custom "@ + digits) == Err::<Option<nat>, Seq<char>>(
            "Invalid custom seconds '"@ + digits + "': "@ + number::fault_message(fault),
        ),
{
    reveal_strlit("custom ");
    reveal_strlit("never");
    reveal_strlit("on logout");
    reveal_strlit("immediately");
    let s = "custom "@ + digits;
    assert(s[0] == 'c');
    assert("never"@[0] == 'n' && "on logout"@[0] == 'o' && "immediately"@[0] == 'i');
    assert(s.subrange(0, "custom "@.len() as int) =~= "custom "@);
    assert(s.skip("custom "@.len() as int) =~= digits);
}

/// The agent runs under the seconds that the setting stands for, where it can be read.
pub proof fn the_agent_runs_under_the_setting(timeout: Seq<char>, seconds: Option<nat>)
    requires
        config::timeout_seconds(config::normalized(timeout)) == Ok::<Option<nat>, Seq<char>>(seconds),
    ensures
        config::effective_seconds(timeout) == seconds,
{
}

/// A timeout fits exactly where its seconds, if it has any, are a number of 64 bits.
pub proof fn timeouts_of_64_bits_fit(s: Seq<char>, seconds: nat, e: Seq<char>)
    ensures
        config::timeout_seconds(s) == Ok::<Option<nat>, Seq<char>>(Some(seconds))
            ==> config::timeout_fits(s) == (seconds <= u64::MAX),
        config::timeout_seconds(s) == Ok::<Option<nat>, Seq<char>>(None) ==> config::timeout_fits(s),
        config::timeout_seconds(s) == Err::<Option<nat>, Seq<char>>(e) ==> config::timeout_fits(s),
{
}

// ---------------------------------------------------------------------------
// Tokens
// ---------------------------------------------------------------------------
proof fn lemma_split(head: Seq<char>, body: Seq<char>, rest: Seq<char>)
    requires
        !head.contains('.'),
        !body.contains('.'),
    ensures
        text::split_on(head + seq!['.'] + body + seq!['.'] + rest, '.') == seq![head, body]
            + text::split_on(rest, '.'),
{
    let tail = body + seq!['.'] + rest;
    text::splitting_is_local(head, tail, '.');
    text::splitting_is_local(body, rest, '.');
    text::unseparated_texts_are_whole(head, '.');
    text::unseparated_texts_are_whole(body, '.');
    assert(head + seq!['.'] + body + seq!['.'] + rest =~= head + seq!['.'] + tail);
    assert(seq![head] + (seq![body] + text::split_on(rest, '.')) =~= seq![head, body]
        + text::split_on(rest, '.'));
}

/// The payload of a token is its second part: in the standard alphabet, and filled up with `=` to
/// a multiple of four bytes.
pub proof fn the_payload_is_the_second_part(
    head: Seq<char>,
    body: Seq<char>,
    rest: Seq<char>,
    i: int,
)
    requires
        !head.contains('.'),
        !body.contains('.'),
        0 <= i < body.len(),
    ensures
        ({
            let payload = config::token_payload(head + seq!['.'] + body + seq!['.'] + rest);
            &&& payload matches Some(p) && {
                &&& body.len() <= p.len() < body.len() + 4
                &&& (encode_utf8(body).len() + p.len() - body.len()) % 4 == 0
                &&& body[i] == '-' ==> p[i] == '+'
                &&& body[i] == '_' ==> p[i] == '/'
                &&& body[i] != '-' && body[i] != '_' ==> p[i] == body[i]
                &&& forall|k: int| body.len() <= k < p.len() ==> p[k] == '='
            }
        }),
{
    lemma_split(head, body, rest);
    let token = head + seq!['.'] + body + seq!['.'] + rest;
    let parts = text::split_on(token, '.');
    assert(parts[1] == body);
    let size = encode_utf8(body).len();
    assert((size + (4 - size % 4) % 4) % 4 == 0) by {
        let r = size % 4;
        assert(size == 4 * (size / 4) + r);
    }
}

/// A token needs no third part.
pub proof fn tokens_of_two_parts_have_a_payload(head: Seq<char>, body: Seq<char>, rest: Seq<char>)
    requires
        !head.contains('.'),
        !body.contains('.'),
    ensures
        config::token_payload(head + seq!['.'] + body) == config::token_payload(
            head + seq!['.'] + body + seq!['.'] + rest,
        ),
        config::token_payload(head + seq!['.'] + body) is Some,
{
    lemma_split(head, body, rest);
    text::splitting_is_local(head, body, '.');
    text::unseparated_texts_are_whole(head, '.');
    text::unseparated_texts_are_whole(body, '.');
    assert(text::split_on(head + seq!['.'] + body, '.') =~= seq![head, body]);
}

/// A text without a dot is no token.
pub proof fn texts_without_a_dot_are_no_tokens(token: Seq<char>, now: i64)
    requires
        !token.contains('.'),
    ensures
        config::token_payload(token) is None,
        config::token_claims(token) is None,
        config::token_expired(Some(token), now),
{
    text::unseparated_texts_are_whole(token, '.');
}

/// A token runs out a minute before the time in its claims; no token, one that cannot be read and
/// one without such a time have run out.
pub proof fn tokens_run_out_a_minute_early(
    token: Seq<char>,
    payload: Seq<char>,
    bytes: Seq<u8>,
    claims: tree::Shape,
    exp: i64,
    now: i64,
)
    requires
        config::token_payload(token) == Some(payload),
    ensures
        primitives::base64_decoded(payload) == Ok::<Seq<u8>, Seq<char>>(bytes)
            && tree::json_bytes_shape(bytes) == Some(claims) && tree::member_number(
            claims,
            "exp"@,
        ) == Some(exp) ==> config::token_expired(Some(token), now) == (now + 60 >= exp),
        primitives::base64_decoded(payload) == Ok::<Seq<u8>, Seq<char>>(bytes)
            && tree::json_bytes_shape(bytes) == Some(claims) && tree::member_number(
            claims,
            "exp"@,
        ) is None ==> config::token_expired(Some(token), now),
        primitives::base64_decoded(payload) == Ok::<Seq<u8>, Seq<char>>(bytes)
            && tree::json_bytes_shape(bytes) is None ==> config::token_expired(Some(token), now),
        primitives::base64_decoded(payload) is Err ==> config::token_expired(Some(token), now),
        config::token_expired(None, now),
        config::claims_expired(None, now),
        tree::member_number(claims, "exp"@) == Some(exp) ==> config::claims_expired(Some(claims), now)
            == (now + 60 >= exp),
        tree::member_number(claims, "exp"@) is None ==> config::claims_expired(Some(claims), now),
{
}

/// A token that is valid is used; one that has run out is refreshed where that is possible; without
/// a token there was no login.
pub proof fn valid_tokens_are_used(access: Seq<char>, refresh: Option<Seq<char>>, expired: bool)
    ensures
        config::token_plan(Some(access), refresh, false) == TokenPlan::Ready(access),
        refresh matches Some(token) ==> config::token_plan(Some(access), refresh, true)
            == TokenPlan::Refresh(token),
        config::token_plan(Some(access), None, true) == TokenPlan::Refused(
            "Access token is expired and no refresh token is available."@,
        ),
        config::token_plan(None, refresh, expired) == TokenPlan::Refused("Not logged in"@),
{
}

/// A cache salt is the Base64 text of 16 bytes: 24 characters that end in padding.
pub proof fn salts_are_16_bytes(bytes: Seq<u8>, salt: Seq<char>)
    ensures
        bytes.len() == 16 ==> config::is_salt(primitives::base64_text(bytes, false)),
        config::is_salt(salt) ==> exists|made: Seq<u8>|
            made.len() == 16 && salt == #[trigger] primitives::base64_text(made, false),
{
}

/// A session before any login has no user, no tokens and no server; the device and the timeout are
/// those of the settings.
pub proof fn sessions_start_without_a_login(config: Config)
    ensures
        ({
            let session = config::fresh_session(config);
            &&& session.user_id is None && session.email is None
            &&& session.access_token is None && session.refresh_token is None
            &&& session.last_sync_time is None && session.server_url is None
            &&& session.device_id == config.device_id
            &&& session.timeout == config.timeout
            &&& session.timeout_action == config.timeout_action
        }),
{
}

} // verus!
