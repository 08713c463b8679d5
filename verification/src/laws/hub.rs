//! Laws of the live updates.
use vstd::prelude::*;
use vstd::string::*;

use crate::api::CipherSync;
use crate::daemon::hub;
use crate::daemon::hub::Event;
use crate::storage::laws;
use crate::storage::tables;
use crate::storage::tables::{Database, Statement};
use crate::text;
use crate::tree;
use crate::tree::Shape;

verus! {

// ---------------------------------------------------------------------------
// Changes of one item
// ---------------------------------------------------------------------------
/// Carrying out what follows from a change of an item: one that was fetched and not deleted is held
/// for the user, in place of its old version; one that was deleted, or that the server does not
/// give out any more, is gone. Every other item, and everything beside the items, stays as it was.
/// Only an item whose user, organization, folder or attachments do not fit is refused.
pub proof fn a_changed_item_is_brought_up_to_date(
    db: Database,
    fetched: Result<CipherSync, String>,
    id: String,
    user_id: String,
    other: Seq<char>,
)
    requires
        fetched matches Ok(cipher) ==> cipher.deleted_date is None ==> other != cipher.id@,
        fetched matches Ok(cipher) ==> cipher.deleted_date is Some ==> other != id@,
        fetched is Err ==> other != id@,
    ensures
        ({
            let gone = match fetched {
                Ok(cipher) => cipher.deleted_date is Some,
                Err(_) => true,
            };
            match tables::apply_all(db, hub::update_plan(fetched, id, user_id)) {
                Some(after) => {
                    &&& gone ==> laws::item_absent(after, id@)
                    &&& !gone ==> after.ciphers.dom().contains(fetched->Ok_0.id@) && laws::holds_item(
                        after,
                        fetched->Ok_0,
                        user_id,
                    )
                    &&& laws::same_item(db, after, other)
                    &&& laws::same_rest(db, after)
                },
                None => !gone && !laws::saveable(db, fetched->Ok_0, user_id),
            }
        }),
{
    let plan = hub::update_plan(fetched, id, user_id);
    let delete = Statement::DeleteCipher(id);
    let gone = match fetched {
        Ok(cipher) => cipher.deleted_date is Some,
        Err(_) => true,
    };
    if gone {
        assert(plan =~= seq![delete]);
        assert(seq![delete].drop_last() =~= Seq::<Statement>::empty());
        assert(tables::apply_all(db, Seq::empty()) == Some(db));
        assert(tables::apply_all(db, plan) == tables::apply(db, delete));
        laws::deleting_an_item(db, id, other);
    } else {
        let cipher = fetched->Ok_0;
        laws::saving_an_item(db, cipher, user_id);
        if laws::saveable(db, cipher, user_id) {
            laws::saving_keeps_the_rest(db, cipher, user_id, other);
            laws::lemma_holds_after_save(db, cipher, user_id);
        }
    }
}

// ---------------------------------------------------------------------------
// Members of a message
// ---------------------------------------------------------------------------
/// The pair of a text key and a value.
pub open spec fn pair(key: Seq<char>, value: Shape) -> (Shape, Shape) {
    (Shape::Text(Some(key)), value)
}

/// A member is found behind any other members, and the first of two counts.
pub proof fn members_are_found(
    before: Seq<(Shape, Shape)>,
    key: Seq<char>,
    value: Shape,
    behind: Seq<(Shape, Shape)>,
)
    requires
        forall|i: int| 0 <= i < before.len() ==> tree::text_of((#[trigger] before[i]).0) != Some(key),
    ensures
        tree::member(Shape::Pairs(before + seq![pair(key, value)] + behind), key) == Some(value),
        value matches Shape::Number(n) ==> tree::member_number(
            Shape::Pairs(before + seq![pair(key, value)] + behind),
            key,
        ) == n,
        value matches Shape::Text(t) ==> tree::member_text(
            Shape::Pairs(before + seq![pair(key, value)] + behind),
            key,
        ) == t,
    decreases before.len(),
{
    let all = before + seq![pair(key, value)] + behind;
    if before.len() == 0 {
        assert(all[0] == pair(key, value));
    } else {
        assert(all[0] == before[0]);
        let tail = before.drop_first();
        assert(all.drop_first() =~= tail + seq![pair(key, value)] + behind);
        assert forall|i: int| 0 <= i < tail.len() implies tree::text_of((#[trigger] tail[i]).0)
            != Some(key) by {
            assert(tail[i] == before[i + 1]);
        }
        members_are_found(tail, key, value, behind);
    }
}

/// A member that no pair has is not found, and nothing but pairs has members.
pub proof fn absent_members_are_not_found(pairs: Seq<(Shape, Shape)>, key: Seq<char>)
    requires
        forall|i: int| 0 <= i < pairs.len() ==> tree::text_of((#[trigger] pairs[i]).0) != Some(key),
    ensures
        tree::member(Shape::Pairs(pairs), key) is None,
        tree::member_number(Shape::Pairs(pairs), key) is None,
        tree::member_text(Shape::Pairs(pairs), key) is None,
        tree::member(Shape::Opaque, key) is None,
    decreases pairs.len(),
{
    if pairs.len() > 0 {
        assert(tree::text_of(pairs[0].0) != Some(key));
        let tail = pairs.drop_first();
        assert forall|i: int| 0 <= i < tail.len() implies tree::text_of((#[trigger] tail[i]).0)
            != Some(key) by {
            assert(tail[i] == pairs[i + 1]);
        }
        absent_members_are_not_found(tail, key);
    }
}

// ---------------------------------------------------------------------------
// Events
// ---------------------------------------------------------------------------
/// An argument of type one names the item that changed, by the id in its payload or its own; types
/// nought, four and five say that the vault changed as a whole; every other type, and an argument
/// without one, says nothing.
pub proof fn the_type_of_an_argument_decides(arg: Shape, id: Seq<char>, kind: i64)
    ensures
        tree::member_number(arg, "Type"@) == Some(1i64) && hub::json_item_id(arg) == Some(id)
            ==> hub::json_event(arg) == Some(Event::CipherChanged(id)),
        tree::member_number(arg, "Type"@) == Some(1i64) && hub::packed_item_id(arg) == Some(id)
            ==> hub::packed_event(arg) == Some(Event::CipherChanged(id)),
        tree::member_number(arg, "Type"@) == Some(1i64) && hub::json_item_id(arg) is None
            ==> hub::json_event(arg) is None,
        tree::member_number(arg, "Type"@) == Some(1i64) && hub::packed_item_id(arg) is None
            ==> hub::packed_event(arg) is None,
        tree::member_number(arg, "Type"@) == Some(kind) && (kind == 0 || kind == 4 || kind == 5)
            ==> hub::json_event(arg) == Some(Event::VaultChanged(kind)) && hub::packed_event(arg)
            == Some(Event::VaultChanged(kind)),
        tree::member_number(arg, "Type"@) == Some(kind) && kind != 0 && kind != 1 && kind != 4 && kind
            != 5 ==> hub::json_event(arg) is None && hub::packed_event(arg) is None,
        tree::member_number(arg, "Type"@) is None ==> hub::json_event(arg) is None
            && hub::packed_event(arg) is None,
{
}

/// The id of an item stands in the payload, as `Id` or in JSON also as `id`, or, where the payload
/// has none, in the argument itself.
pub proof fn the_id_stands_in_the_payload(arg: Shape, payload: Shape, id: Seq<char>)
    ensures
        tree::member(arg, "Payload"@) == Some(payload) && tree::member_text(payload, "Id"@) == Some(
            id,
        ) ==> hub::json_item_id(arg) == Some(id),
        tree::member(arg, "Payload"@) == Some(payload) && tree::member(payload, "Id"@) is None
            && tree::member_text(payload, "id"@) == Some(id) ==> hub::json_item_id(arg) == Some(id),
        tree::member(arg, "Payload"@) is None && tree::member_text(arg, "Id"@) == Some(id)
            ==> hub::json_item_id(arg) == Some(id) && hub::packed_item_id(arg) == Some(id),
        tree::member(arg, "Payload"@) is None && tree::member(arg, "Id"@) is None
            && tree::member_text(arg, "id"@) == Some(id) ==> hub::json_item_id(arg) == Some(id),
        payload is Pairs && tree::member(arg, "Payload"@) == Some(payload) && tree::member_text(
            payload,
            "Id"@,
        ) == Some(id) ==> hub::packed_item_id(arg) == Some(id),
        tree::member(arg, "Payload"@) == Some(payload) && tree::member(payload, "Id"@) is None
            && tree::member(payload, "id"@) is None && tree::member_text(arg, "Id"@) == Some(id)
            ==> hub::json_item_id(arg) == Some(id),
        payload is Pairs && tree::member(arg, "Payload"@) == Some(payload) && tree::member_text(
            payload,
            "Id"@,
        ) is None ==> hub::packed_item_id(arg) is None,
        !(payload is Pairs) && tree::member(arg, "Payload"@) == Some(payload) ==> hub::packed_item_id(
            arg,
        ) == tree::member_text(arg, "Id"@),
        tree::member(arg, "Payload"@) is None && tree::member(arg, "Id"@) is None && tree::member(
            arg,
            "id"@,
        ) is None ==> hub::json_item_id(arg) is None && hub::packed_item_id(arg) is None,
{
}

/// The events of the arguments are taken in order, one for each argument that says something.
pub proof fn every_argument_counts(args: Seq<Shape>, arg: Shape, packed: bool)
    ensures
        ({
            let event = if packed {
                hub::packed_event(arg)
            } else {
                hub::json_event(arg)
            };
            hub::events_of_args(args.push(arg), packed) == match event {
                Some(event) => hub::events_of_args(args, packed).push(event),
                None => hub::events_of_args(args, packed),
            }
        }),
        hub::events_of_args(Seq::empty(), packed).len() == 0,
{
    assert(args.push(arg).drop_last() =~= args);
}

/// A JSON message reports events where it calls `ReceiveMessage`, and only then: those of its
/// arguments.
pub proof fn json_calls_report_events(message: Shape, args: Seq<Shape>)
    ensures
        tree::member_number(message, "type"@) == Some(1i64) && tree::member_text(
            message,
            "target"@,
        ) == Some("ReceiveMessage"@) && tree::member(message, "arguments"@) == Some(
            Shape::List(args),
        ) ==> hub::json_events(Some(message)) == hub::events_of_args(args, false),
        tree::member_number(message, "type"@) != Some(1i64) ==> hub::json_events(
            Some(message),
        ).len() == 0,
        tree::member_text(message, "target"@) != Some("ReceiveMessage"@) ==> hub::json_events(
            Some(message),
        ).len() == 0,
        tree::member(message, "arguments"@) is None || !(tree::member(message, "arguments"@)->0 is List)
            ==> hub::json_events(Some(message)).len() == 0,
        hub::json_events(None).len() == 0,
{
}

/// A MessagePack message reports events where it calls `ReceiveMessage`, and only then: those of
/// its arguments, which stand in the fifth place.
pub proof fn packed_calls_report_events(parts: Seq<Shape>, args: Seq<Shape>, fault: Seq<char>)
    ensures
        parts.len() >= 5 && parts[0] == Shape::Number(Some(1i64)) && parts[3] == Shape::Text(
            Some("ReceiveMessage"@),
        ) && parts[4] == Shape::List(args) ==> hub::message_events(Ok(Shape::List(parts)))
            == hub::events_of_args(args, true),
        parts.len() < 5 ==> hub::message_events(Ok(Shape::List(parts))).len() == 0,
        parts.len() >= 5 && tree::number_of(parts[0]) != Some(1i64) ==> hub::message_events(
            Ok(Shape::List(parts)),
        ).len() == 0,
        parts.len() >= 5 && tree::text_of(parts[3]) != Some("ReceiveMessage"@)
            ==> hub::message_events(Ok(Shape::List(parts))).len() == 0,
        parts.len() >= 5 && !(parts[4] is List) ==> hub::message_events(
            Ok(Shape::List(parts)),
        ).len() == 0,
        hub::message_events(Ok(Shape::Opaque)).len() == 0,
        hub::message_events(Err(fault)).len() == 0,
{
}

/// One message alone in a text frame, with or without the separator behind it, reports its events.
pub proof fn a_text_frame_reports_the_events_of_its_message(message: Seq<char>)
    requires
        !message.contains('\u{1e}'),
        message.len() > 0,
    ensures
        hub::events_of_parts(text::split_on(message, '\u{1e}')) == hub::json_events(
            tree::json_shape(message),
        ),
        hub::events_of_parts(text::split_on(message.push('\u{1e}'), '\u{1e}')) == hub::json_events(
            tree::json_shape(message),
        ),
        hub::events_of_parts(text::split_on(Seq::empty(), '\u{1e}')).len() == 0,
{
    reveal_with_fuel(hub::events_of_parts, 3);
    let none = Seq::<char>::empty();
    text::unseparated_texts_are_whole(message, '\u{1e}');
    text::unseparated_texts_are_whole(none, '\u{1e}');
    assert(seq![message].drop_last() =~= Seq::<Seq<char>>::empty());
    assert(hub::events_of_parts(seq![message]) =~= hub::json_events(tree::json_shape(message)));
    text::splitting_is_local(message, none, '\u{1e}');
    assert(message + seq!['\u{1e}'] + none =~= message.push('\u{1e}'));
    assert((seq![message] + seq![none]).drop_last() =~= seq![message]);
    assert(seq![none].drop_last() =~= Seq::<Seq<char>>::empty());
}

// ---------------------------------------------------------------------------
// Length prefixes
// ---------------------------------------------------------------------------
/// A length as it stands before a message: seven bits in each byte, the lowest first, all bytes but
/// the last with their highest bit set.
pub open spec fn length_prefix(n: nat) -> Seq<u8>
    decreases n,
{
    if n < 128 {
        seq![n as u8]
    } else {
        seq![(128 + n % 128) as u8] + length_prefix(n / 128)
    }
}

proof fn lemma_prefix(n: nat, weight: nat, limit: nat, rest: Seq<u8>)
    requires
        weight * limit == 0x8_0000_0000,
        n < limit,
        weight == 1 || weight == 0x80 || weight == 0x4000 || weight == 0x20_0000 || weight
            == 0x1000_0000,
    ensures
        hub::varint(length_prefix(n) + rest, weight) == Some((n * weight, length_prefix(n).len())),
        length_prefix(n).len() >= 1,
    decreases n,
{
    let s = length_prefix(n) + rest;
    if n < 128 {
        assert(s[0] == n);
    } else {
        assert(s[0] == 128 + n % 128);
        assert(s.drop_first() =~= length_prefix(n / 128) + rest);
        let next = weight * 128;
        let less = limit / 128;
        assert(limit > 128);
        assert(weight != 0x1000_0000);
        lemma_prefix(n / 128, next, less, rest);
        assert(n % 128 * weight + n / 128 * next == n * weight) by (nonlinear_arith)
            requires
                next == weight * 128,
                n == n / 128 * 128 + n % 128,
        ;
        assert((s[0] - 128) as nat == n % 128);
    }
}

/// A length below 2^35 that was written before a message is read back, whatever follows it.
pub proof fn lengths_are_read_back(n: nat, rest: Seq<u8>)
    requires
        n < 0x8_0000_0000,
    ensures
        hub::varint(length_prefix(n) + rest, 1) == Some((n, length_prefix(n).len())),
{
    lemma_prefix(n, 1, 0x8_0000_0000, rest);
    assert(n * 1 == n);
}

/// A length that does not end, in the frame or within five bytes, is none; the frame then reports
/// nothing, and neither does one whose length reaches behind it.
pub proof fn lengths_have_to_end(a: u8, b: u8, c: u8, d: u8, e: u8, rest: Seq<u8>, n: nat)
    requires
        a >= 128,
        b >= 128,
        c >= 128,
        d >= 128,
        e >= 128,
        n < 0x8_0000_0000,
        rest.len() < n,
    ensures
        hub::varint(Seq::empty(), 1) is None,
        hub::varint(seq![a], 1) is None,
        hub::varint(seq![a, b, c, d, e] + rest, 1) is None,
        hub::events_of_frame(seq![a]).len() == 0,
        hub::events_of_frame(seq![a, b, c, d, e] + rest).len() == 0,
        hub::events_of_frame(length_prefix(n) + rest).len() == 0,
{
    reveal_with_fuel(hub::varint, 7);
    assert(seq![a].drop_first() =~= Seq::<u8>::empty());
    let s = seq![a, b, c, d, e] + rest;
    assert(s.drop_first() =~= seq![b, c, d, e] + rest);
    assert((seq![b, c, d, e] + rest).drop_first() =~= seq![c, d, e] + rest);
    assert((seq![c, d, e] + rest).drop_first() =~= seq![d, e] + rest);
    assert((seq![d, e] + rest).drop_first() =~= seq![e] + rest);
    assert((seq![e] + rest).drop_first() =~= rest);
    lengths_are_read_back(n, rest);
    lemma_prefix(n, 1, 0x8_0000_0000, rest);
    let frame = length_prefix(n) + rest;
    assert(frame.skip(length_prefix(n).len() as int) =~= rest);
}

/// A MessagePack message behind its length reports its events, and what follows it is read as if it
/// stood alone.
pub proof fn a_binary_frame_reports_the_events_of_its_messages(message: Seq<u8>, rest: Seq<u8>)
    requires
        message.len() < 0x8_0000_0000,
    ensures
        hub::events_of_frame(length_prefix(message.len()) + message + rest) == hub::message_events(
            tree::packed_shape(message),
        ) + hub::events_of_frame(rest),
        hub::events_of_frame(Seq::empty()).len() == 0,
{
    let prefix = length_prefix(message.len());
    let frame = prefix + message + rest;
    assert(frame =~= prefix + (message + rest));
    lengths_are_read_back(message.len(), message + rest);
    lemma_prefix(message.len(), 1, 0x8_0000_0000, rest);
    hub::binary_messages_are_independent(frame, message.len(), prefix.len());
    assert(frame.subrange(prefix.len() as int, (prefix.len() + message.len()) as int) =~= message);
    assert(frame.skip((prefix.len() + message.len()) as int) =~= rest);
}

// ---------------------------------------------------------------------------
// The connection
// ---------------------------------------------------------------------------
/// The socket of the hub has the host of the notifications server, the scheme of a web socket,
/// secure where that of the server is, and the access token.
pub proof fn the_hub_has_a_web_socket(host: Seq<char>, token: Seq<char>)
    requires
        host.len() > 0,
        host.last() != '/',
        !text::has_text(host + "/notifications/hub?access_token="@ + token, "https://"@),
        !text::has_text(host + "/notifications/hub?access_token="@ + token, "http://"@),
    ensures
        hub::socket_url("https://"@ + host, token) == "wss://"@ + (host
            + "/notifications/hub?access_token="@ + token),
        hub::socket_url("https://"@ + host + seq!['/'], token) == "wss://"@ + (host
            + "/notifications/hub?access_token="@ + token),
        hub::socket_url("http://"@ + host, token) == "ws://"@ + (host
            + "/notifications/hub?access_token="@ + token),
{
    let rest = host + "/notifications/hub?access_token="@ + token;
    reveal_strlit("https://");
    reveal_strlit("http://");
    lemma_socket("https://"@, host, token);
    lemma_socket("http://"@, host, token);
    assert(("https://"@ + rest).subrange(0, "https://"@.len() as int) =~= "https://"@);
    assert(("http://"@ + rest).subrange(0, "http://"@.len() as int) =~= "http://"@);
    let plain = "http://"@ + rest;
    if text::found_at(plain, "https://"@, 0) {
        assert(plain.subrange(0, 8)[4] == "https://"@[4]);
        assert(plain[4] == "http://"@[4]);
    }
    super::text::the_front_is_replaced("https://"@, rest, "wss://"@);
    super::text::the_front_is_replaced("http://"@, rest, "ws://"@);
}

proof fn lemma_socket(scheme: Seq<char>, host: Seq<char>, token: Seq<char>)
    requires
        host.len() > 0,
        host.last() != '/',
    ensures
        ({
            let rest = host + "/notifications/hub?access_token="@ + token;
            let url = text::without_trailing(scheme + host, '/')
                + "/notifications/hub?access_token="@ + token;
            let slashed = text::without_trailing(scheme + host + seq!['/'], '/')
                + "/notifications/hub?access_token="@ + token;
            url == scheme + rest && slashed == scheme + rest
        }),
{
    let base = scheme + host;
    assert(base.last() == host.last());
    super::text::trailing_runs_are_taken_off(base, '/', 0);
    super::text::trailing_runs_are_taken_off(base, '/', 1);
    assert(base + text::repeated('/', 0) =~= base);
    assert(base + text::repeated('/', 1) =~= base + seq!['/']);
    let rest = host + "/notifications/hub?access_token="@ + token;
    assert(base + "/notifications/hub?access_token="@ + token =~= scheme + rest);
}

/// The pause after a failed attempt doubles, from ten seconds up to five minutes.
pub proof fn pauses_double(pause: nat)
    ensures
        hub::FIRST_PAUSE == 10,
        hub::LONGEST_PAUSE == 300,
        pause <= 150 ==> hub::longer_pause(pause) == 2 * pause,
        pause > 150 ==> hub::longer_pause(pause) == 300,
{
}

/// Keys whose bytes are all zero are those of an agent that was unlocked without them.
pub proof fn blank_keys_are_zero(key: Seq<u8>)
    ensures
        hub::is_blank(key) <==> key == Seq::new(key.len(), |i: int| 0u8),
{
    if hub::is_blank(key) {
        assert(key =~= Seq::new(key.len(), |i: int| 0u8));
    }
}

} // verus!
