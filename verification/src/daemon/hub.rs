//! The notifications hub: where it is, what its messages say, and what follows from them.
use vstd::prelude::*;
use vstd::string::*;

use super::KeysContext;
use crate::api::CipherSync;
use crate::storage::repository::VaultRepository;
use crate::storage::tables::Statement;
use crate::text;
use crate::tree;
use crate::tree::Tree;

verus! {

// ---------------------------------------------------------------------------
// Connecting
// ---------------------------------------------------------------------------
/// The URL of the hub's socket, from the notifications URL and an access token: every `https`
/// or `http` scheme in it, after the one it begins with, becomes that of a web socket.
pub open spec fn socket_url(notifications_url: Seq<char>, token: Seq<char>) -> Seq<char> {
    let url = text::without_trailing(notifications_url, '/') + "/notifications/hub?access_token="@
        + token;
    if text::found_at(url, "https://"@, 0) {
        text::with_replaced(url, "https://"@, "wss://"@)
    } else if text::found_at(url, "http://"@, 0) {
        text::with_replaced(url, "http://"@, "ws://"@)
    } else {
        url
    }
}

/// Builds the URL of the hub's socket.
pub fn hub_url(notifications_url: &str, token: &str) -> (r: String)
    ensures
        r@ == socket_url(notifications_url@, token@),
{
    let base = text::trim_end_matches(notifications_url, '/');
    let url = text::join3(&base, "/notifications/hub?access_token=", token);
    proof {
        reveal_strlit("https://");
        reveal_strlit("http://");
    }
    if text::starts_with(&url, "https://") {
        text::replace(&url, "https://", "wss://")
    } else if text::starts_with(&url, "http://") {
        text::replace(&url, "http://", "ws://")
    } else {
        url
    }
}

/// The message that opens the conversation with the hub.
pub fn handshake() -> (r: String)
    ensures
        r@ == "{\"protocol\":\"json\",\"version\":1}\u{1E}"@,
{
    "{\"protocol\":\"json\",\"version\":1}\u{1E}".to_owned()
}

// ---------------------------------------------------------------------------
// Events
// ---------------------------------------------------------------------------
/// What the hub reports.
#[derive(Debug)]
pub enum HubEvent {
    /// The item with this id was created, changed or deleted.
    CipherChanged(String),
    /// The vault changed as a whole.
    VaultChanged(i64),
}

/// The value of a [`HubEvent`].
pub enum Event {
    CipherChanged(Seq<char>),
    VaultChanged(i64),
}

impl View for HubEvent {
    type V = Event;

    open spec fn view(&self) -> Event {
        match *self {
            HubEvent::CipherChanged(id) => Event::CipherChanged(id@),
            HubEvent::VaultChanged(kind) => Event::VaultChanged(kind),
        }
    }
}

/// The values of events.
pub open spec fn events_view(events: Seq<HubEvent>) -> Seq<Event> {
    events.map_values(|e: HubEvent| e@)
}

/// The member `Id`, or else the member `id`, as a text.
pub open spec fn either_id(s: tree::Shape) -> Option<Seq<char>> {
    match tree::member(s, "Id"@) {
        Some(id) => tree::text_of(id),
        None => tree::member_text(s, "id"@),
    }
}

/// The item that an argument of a JSON message names: the id in its payload, or else its own.
pub open spec fn json_item_id(arg: tree::Shape) -> Option<Seq<char>> {
    let inner = match tree::member(arg, "Payload"@) {
        Some(payload) => either_id(payload),
        None => None,
    };
    match inner {
        Some(id) => Some(id),
        None => either_id(arg),
    }
}

/// The item that an argument of a MessagePack message names: the id in its payload where that
/// is a map, its own otherwise.
pub open spec fn packed_item_id(arg: tree::Shape) -> Option<Seq<char>> {
    match tree::member(arg, "Payload"@) {
        Some(tree::Shape::Pairs(payload)) => tree::member_text(
            tree::Shape::Pairs(payload),
            "Id"@,
        ),
        _ => tree::member_text(arg, "Id"@),
    }
}

/// The event that an argument of a given type stands for, if any.
pub open spec fn typed_event(kind: Option<i64>, id: Option<Seq<char>>) -> Option<Event> {
    match kind {
        Some(kind) => {
            if kind == 1 {
                match id {
                    Some(id) => Some(Event::CipherChanged(id)),
                    None => None,
                }
            } else if kind == 0 || kind == 4 || kind == 5 {
                Some(Event::VaultChanged(kind))
            } else {
                None
            }
        },
        None => None,
    }
}

/// The event of an argument of a JSON message.
pub open spec fn json_event(arg: tree::Shape) -> Option<Event> {
    typed_event(tree::member_number(arg, "Type"@), json_item_id(arg))
}

/// The event of an argument of a MessagePack message.
pub open spec fn packed_event(arg: tree::Shape) -> Option<Event> {
    typed_event(tree::member_number(arg, "Type"@), packed_item_id(arg))
}

/// The events of the arguments of a message.
pub open spec fn events_of_args(args: Seq<tree::Shape>, packed: bool) -> Seq<Event>
    decreases args.len(),
{
    if args.len() == 0 {
        Seq::empty()
    } else {
        let before = events_of_args(args.drop_last(), packed);
        let event = if packed {
            packed_event(args.last())
        } else {
            json_event(args.last())
        };
        match event {
            Some(event) => before.push(event),
            None => before,
        }
    }
}

/// The events of a JSON message: those of its arguments where it is a `ReceiveMessage`.
pub open spec fn json_events(message: Option<tree::Shape>) -> Seq<Event> {
    match message {
        Some(message) => {
            if tree::member_number(message, "type"@) == Some(1i64) && tree::member_text(
                message,
                "target"@,
            ) == Some("ReceiveMessage"@) {
                match tree::member(message, "arguments"@) {
                    Some(tree::Shape::List(args)) => events_of_args(args, false),
                    _ => Seq::empty(),
                }
            } else {
                Seq::empty()
            }
        },
        None => Seq::empty(),
    }
}

/// The events of a MessagePack message, an array of kind, headers, invocation, target and
/// arguments: those of its arguments where it is a `ReceiveMessage`.
pub open spec fn packed_events(message: tree::Shape) -> Seq<Event> {
    match message {
        tree::Shape::List(parts) => {
            if parts.len() >= 5 && tree::number_of(parts[0]) == Some(1i64) && tree::text_of(
                parts[3],
            ) == Some("ReceiveMessage"@) {
                match parts[4] {
                    tree::Shape::List(args) => events_of_args(args, true),
                    _ => Seq::empty(),
                }
            } else {
                Seq::empty()
            }
        },
        _ => Seq::empty(),
    }
}

fn find_either_id(tree: &Tree) -> (r: Option<&String>)
    ensures
        either_id(tree::shape(*tree)) == match r {
            Some(id) => Some(id@),
            None => None,
        },
{
    match tree.get("Id") {
        Some(id) => id.as_text(),
        None => tree.get_text("id"),
    }
}

fn find_json_item(arg: &Tree) -> (r: Option<&String>)
    ensures
        json_item_id(tree::shape(*arg)) == match r {
            Some(id) => Some(id@),
            None => None,
        },
{
    let inner = match arg.get("Payload") {
        Some(payload) => find_either_id(payload),
        None => None,
    };
    match inner {
        Some(id) => Some(id),
        None => find_either_id(arg),
    }
}

fn find_packed_item(arg: &Tree) -> (r: Option<&String>)
    ensures
        packed_item_id(tree::shape(*arg)) == match r {
            Some(id) => Some(id@),
            None => None,
        },
{
    match arg.get("Payload") {
        Some(payload) => match payload {
            Tree::Pairs(_) => payload.get_text("Id"),
            _ => arg.get_text("Id"),
        },
        None => arg.get_text("Id"),
    }
}

/// The event that an argument stands for, if any.
pub fn read_event(arg: &Tree, packed: bool) -> (r: Option<HubEvent>)
    ensures
        (match r {
            Some(event) => Some(event@),
            None => None,
        }) == if packed {
            packed_event(tree::shape(*arg))
        } else {
            json_event(tree::shape(*arg))
        },
{
    let kind: i64 = match arg.get_number("Type") {
        Some(kind) => kind,
        None => {
            return None;
        },
    };
    if kind == 1 {
        let id = if packed {
            find_packed_item(arg)
        } else {
            find_json_item(arg)
        };
        match id {
            Some(id) => Some(HubEvent::CipherChanged(id.clone())),
            None => None,
        }
    } else if kind == 0 || kind == 4 || kind == 5 {
        Some(HubEvent::VaultChanged(kind))
    } else {
        None
    }
}

/// The shapes of items.
spec fn shapes(items: Seq<Tree>) -> Seq<tree::Shape> {
    Seq::new(items.len(), |i: int| tree::shape(items[i]))
}

proof fn lemma_list_shape(items: Vec<Tree>)
    ensures
        tree::shape(Tree::List(items)) == tree::Shape::List(shapes(items@)),
{
    assert(tree::shape(Tree::List(items))->List_0 =~= shapes(items@));
}

fn read_args(args: &Vec<Tree>, packed: bool) -> (r: Vec<HubEvent>)
    ensures
        events_view(r@) == events_of_args(shapes(args@), packed),
{
    let mut out: Vec<HubEvent> = Vec::new();
    let ghost all = shapes(args@);
    assert(all.take(0) =~= Seq::<tree::Shape>::empty());
    assert(events_view(out@) =~= Seq::<Event>::empty());
    for i in 0..args.len()
        invariant
            all == shapes(args@),
            events_view(out@) == events_of_args(all.take(i as int), packed),
    {
        assert(all.take(i + 1).drop_last() =~= all.take(i as int));
        let ghost before = out@;
        match read_event(&args[i], packed) {
            Some(event) => {
                out.push(event);
                assert(events_view(out@) =~= events_view(before).push(event@));
            },
            None => {},
        }
    }
    assert(all.take(args@.len() as int) =~= all);
    out
}

/// The events of a JSON message.
pub fn read_json_message(message: &Option<Tree>) -> (r: Vec<HubEvent>)
    ensures
        events_view(r@) == json_events(
            match *message {
                Some(message) => Some(tree::shape(message)),
                None => None,
            },
        ),
{
    assert(events_view(Seq::<HubEvent>::empty()) =~= Seq::<Event>::empty());
    let message = match message {
        Some(message) => message,
        None => {
            return Vec::new();
        },
    };
    let is_call = match message.get_number("type") {
        Some(kind) => kind == 1,
        None => false,
    };
    let is_receive = match message.get_text("target") {
        Some(target) => text::same(target, "ReceiveMessage"),
        None => false,
    };
    if !is_call || !is_receive {
        return Vec::new();
    }
    match message.get("arguments") {
        Some(args) => match args {
            Tree::List(args) => {
                proof {
                    lemma_list_shape(*args);
                }
                read_args(args, false)
            },
            _ => Vec::new(),
        },
        None => Vec::new(),
    }
}

/// The events of a MessagePack message.
pub fn read_packed_message(message: &Tree) -> (r: Vec<HubEvent>)
    ensures
        events_view(r@) == packed_events(tree::shape(*message)),
{
    assert(events_view(Seq::<HubEvent>::empty()) =~= Seq::<Event>::empty());
    let parts = match message {
        Tree::List(parts) => parts,
        _ => {
            return Vec::new();
        },
    };
    proof {
        lemma_list_shape(*parts);
    }
    if parts.len() < 5 {
        return Vec::new();
    }
    let is_call = match parts[0].as_number() {
        Some(kind) => kind == 1,
        None => false,
    };
    let is_receive = match parts[3].as_text() {
        Some(target) => text::same(target, "ReceiveMessage"),
        None => false,
    };
    if !is_call || !is_receive {
        return Vec::new();
    }
    match &parts[4] {
        Tree::List(args) => {
            proof {
                lemma_list_shape(*args);
            }
            read_args(args, true)
        },
        _ => Vec::new(),
    }
}

// ---------------------------------------------------------------------------
// Text frames
// ---------------------------------------------------------------------------
/// The events of the parts of a text frame; empty parts are passed over.
pub open spec fn events_of_parts(parts: Seq<Seq<char>>) -> Seq<Event>
    decreases parts.len(),
{
    if parts.len() == 0 {
        Seq::empty()
    } else {
        let before = events_of_parts(parts.drop_last());
        if parts.last().len() == 0 {
            before
        } else {
            before + json_events(tree::json_shape(parts.last()))
        }
    }
}

fn append_events(out: &mut Vec<HubEvent>, more: Vec<HubEvent>)
    ensures
        final(out)@ == old(out)@ + more@,
{
    let mut more = more;
    out.append(&mut more);
}

/// The events of a text frame: JSON messages, each ended by the record separator.
pub fn text_events(frame: &str) -> (r: Vec<HubEvent>)
    ensures
        events_view(r@) == events_of_parts(text::split_on(frame@, '\u{1E}')),
{
    let parts = text::split(frame, '\u{1E}');
    let ghost all = parts.deep_view();
    let mut out: Vec<HubEvent> = Vec::new();
    assert(all.take(0) =~= Seq::<Seq<char>>::empty());
    assert(events_view(out@) =~= Seq::<Event>::empty());
    for i in 0..parts.len()
        invariant
            all == parts.deep_view(),
            events_view(out@) == events_of_parts(all.take(i as int)),
    {
        let part = &parts[i];
        assert(all[i as int] == part@);
        assert(all.take(i + 1).drop_last() =~= all.take(i as int));
        if !part.as_str().is_empty() {
            let ghost before = out@;
            let more = read_json_message(&tree::parse_json(part));
            let ghost added = more@;
            append_events(&mut out, more);
            assert(events_view(out@) =~= events_view(before) + events_view(added));
        }
    }
    assert(all.take(parts@.len() as int) =~= all);
    out
}

// ---------------------------------------------------------------------------
// Binary frames
// ---------------------------------------------------------------------------
/// The length prefix at the front of `bytes`: seven bits in each byte, the lowest first, up to
/// a byte below 128, which must be among the first five. The value and the number of bytes;
/// `weight` is what the next byte counts.
pub open spec fn varint(bytes: Seq<u8>, weight: nat) -> Option<(nat, nat)>
    decreases bytes.len(),
{
    if bytes.len() == 0 || weight > 0x1000_0000 {
        None
    } else if bytes[0] < 128 {
        Some((bytes[0] as nat * weight, 1))
    } else {
        match varint(bytes.drop_first(), weight * 128) {
            Some((value, used)) => Some(((bytes[0] - 128) as nat * weight + value, used + 1)),
            None => None,
        }
    }
}

proof fn lemma_varint_bounds(bytes: Seq<u8>, weight: nat)
    requires
        varint(bytes, weight) is Some,
    ensures
        1 <= varint(bytes, weight).unwrap().1 <= bytes.len(),
    decreases bytes.len(),
{
    if bytes[0] >= 128 {
        lemma_varint_bounds(bytes.drop_first(), weight * 128);
    }
}

/// Reads the length prefix at the front of `bytes`: the value and the bytes behind it.
pub fn read_varint(bytes: &[u8]) -> (r: Option<(u64, &[u8])>)
    ensures
        match r {
            Some((value, rest)) => {
                &&& varint(bytes@, 1) matches Some((v, used)) && v == value && rest@ == bytes@.skip(
                    used as int,
                )
                &&& rest@.len() < bytes@.len()
            },
            None => varint(bytes@, 1) is None,
        },
{
    let mut value: u64 = 0;
    let mut weight: u64 = 1;
    let mut at: usize = 0;
    assert(bytes@.skip(0) =~= bytes@);
    while at < bytes.len()
        invariant
            at <= bytes@.len(),
            weight == 1 || weight == 0x80 || weight == 0x4000 || weight == 0x20_0000 || weight
                == 0x1000_0000,
            value < weight,
            match varint(bytes@.skip(at as int), weight as nat) {
                Some((more, used)) => varint(bytes@, 1) == Some((value as nat + more, (at + used) as nat)),
                None => varint(bytes@, 1) is None,
            },
        decreases bytes@.len() - at,
    {
        let b: u8 = bytes[at];
        let ghost rest = bytes@.skip(at as int);
        assert(rest[0] == b);
        assert(rest.drop_first() =~= bytes@.skip(at + 1));
        let low: u64 = (b % 128) as u64;
        assert(low * weight <= 127 * weight) by (nonlinear_arith)
            requires
                low <= 127,
        ;
        if b < 128 {
            let total: u64 = value + low * weight;
            return Some((total, &bytes[at + 1..bytes.len()]));
        }
        value = value + low * weight;
        if weight >= 0x1000_0000 {
            assert(varint(rest.drop_first(), (weight * 128) as nat) is None);
            return None;
        }
        weight = weight * 128;
        at = at + 1;
    }
    None
}

/// The events of a binary frame: MessagePack messages, each behind its length. A length that
/// cannot be read, or that reaches behind the frame, ends it.
pub open spec fn events_of_frame(bytes: Seq<u8>) -> Seq<Event>
    decreases bytes.len(),
{
    if bytes.len() == 0 {
        Seq::empty()
    } else {
        match varint(bytes, 1) {
            None => Seq::empty(),
            Some((length, used)) => {
                let rest = bytes.skip(used as int);
                if used < 1 || used > bytes.len() || rest.len() < length {
                    Seq::empty()
                } else {
                    message_events(tree::packed_shape(rest.take(length as int))) + events_of_frame(
                        rest.skip(length as int),
                    )
                }
            },
        }
    }
}

/// The events of a message that was parsed, or none where it could not be.
pub open spec fn message_events(message: Result<tree::Shape, Seq<char>>) -> Seq<Event> {
    match message {
        Ok(message) => packed_events(message),
        Err(_) => Seq::empty(),
    }
}

/// The events of a binary frame.
pub fn binary_events(frame: &[u8]) -> (r: Vec<HubEvent>)
    ensures
        events_view(r@) == events_of_frame(frame@),
{
    let mut out: Vec<HubEvent> = Vec::new();
    let mut at: usize = 0;
    let size: usize = frame.len();
    assert(frame@.skip(0) =~= frame@);
    assert(events_view(out@) =~= Seq::<Event>::empty());
    assert(events_of_frame(frame@) =~= events_view(out@) + events_of_frame(frame@.skip(0)));
    while at < size
        invariant
            size == frame@.len(),
            at <= size,
            events_of_frame(frame@) == events_view(out@) + events_of_frame(frame@.skip(at as int)),
        decreases size - at,
    {
        let current = &frame[at..size];
        assert(current@ =~= frame@.skip(at as int));
        let (length, rest) = match read_varint(current) {
            Some(found) => found,
            None => {
                assert(events_of_frame(frame@) =~= events_view(out@));
                return out;
            },
        };
        proof {
            lemma_varint_bounds(current@, 1);
        }
        if (rest.len() as u64) < length {
            assert(events_of_frame(frame@) =~= events_view(out@));
            return out;
        }
        let count: usize = length as usize;
        let message = &rest[0..count];
        assert(message@ =~= rest@.take(count as int));
        let ghost before = out@;
        let ghost next = size - (rest@.len() - count);
        assert(rest@.skip(count as int) =~= frame@.skip(next));
        match tree::parse_packed(message) {
            Ok(tree) => {
                let more = read_packed_message(&tree);
                let ghost added = more@;
                append_events(&mut out, more);
                assert(events_view(out@) =~= events_view(before) + events_view(added));
                assert(events_of_frame(frame@) =~= events_view(out@) + events_of_frame(
                    frame@.skip(next),
                ));
            },
            Err(_) => {
                assert(events_of_frame(frame@) =~= events_view(out@) + events_of_frame(
                    frame@.skip(next),
                ));
            },
        }
        at = size - (rest.len() - count);
    }
    assert(frame@.skip(at as int) =~= Seq::<u8>::empty());
    assert(events_of_frame(frame@) =~= events_view(out@));
    out
}

// ---------------------------------------------------------------------------
// Steps of the conversation
// ---------------------------------------------------------------------------
/// A frame from the hub.
#[derive(Debug)]
pub enum Frame {
    Text(String),
    Binary(Vec<u8>),
    Ping,
    Close,
    Other,
}

/// What to do about a frame.
#[derive(Debug)]
pub enum HubAction {
    /// Close the connection: the agent is locked.
    Hangup,
    /// Act on these events.
    Process(Vec<HubEvent>),
    /// Answer the ping.
    Pong,
    /// The server closed the connection.
    Finish,
    /// Nothing.
    Ignore,
}

/// Decides what to do about a frame.
pub fn hub_step(locked: bool, frame: &Frame) -> (r: HubAction)
    ensures
        match *frame {
            _ if locked => r is Hangup,
            Frame::Text(t) => r matches HubAction::Process(events) && events_view(events@)
                == events_of_parts(text::split_on(t@, '\u{1E}')),
            Frame::Binary(b) => r matches HubAction::Process(events) && events_view(events@)
                == events_of_frame(b@),
            Frame::Ping => r is Pong,
            Frame::Close => r is Finish,
            Frame::Other => r is Ignore,
        },
{
    if locked {
        return HubAction::Hangup;
    }
    match frame {
        Frame::Text(t) => HubAction::Process(text_events(t)),
        Frame::Binary(b) => HubAction::Process(binary_events(b)),
        Frame::Ping => HubAction::Pong,
        Frame::Close => HubAction::Finish,
        Frame::Other => HubAction::Ignore,
    }
}

/// The seconds before the first new attempt to connect.
pub const FIRST_PAUSE: u64 = 10;

/// The longest pause between two attempts, in seconds.
pub const LONGEST_PAUSE: u64 = 300;

/// The pause, in seconds, before the attempt after one that failed: twice as long, up to the
/// longest.
pub open spec fn longer_pause(pause: nat) -> nat {
    if pause * 2 <= LONGEST_PAUSE {
        pause * 2
    } else {
        LONGEST_PAUSE as nat
    }
}

/// How long to wait now, and before the attempt after the next one.
pub fn next_pause(pause: u64, unlocked: bool, failed: bool) -> (r: (u64, u64))
    ensures
        r == if !unlocked {
            (5u64, FIRST_PAUSE)
        } else if failed {
            (pause, longer_pause(pause as nat) as u64)
        } else {
            (0u64, FIRST_PAUSE)
        },
        failed && unlocked ==> r.1 == longer_pause(pause as nat),
{
    if !unlocked {
        (5, FIRST_PAUSE)
    } else if failed {
        if pause <= 150 {
            (pause, pause * 2)
        } else {
            (pause, LONGEST_PAUSE)
        }
    } else {
        (0, FIRST_PAUSE)
    }
}

/// The pauses between attempts stay between the first and the longest.
pub proof fn pauses_stay_in_bounds(pause: nat)
    requires
        FIRST_PAUSE <= pause <= LONGEST_PAUSE,
    ensures
        FIRST_PAUSE <= longer_pause(pause) <= LONGEST_PAUSE,
        pause <= longer_pause(pause),
{
}

// ---------------------------------------------------------------------------
// Changes of one item
// ---------------------------------------------------------------------------
/// Whether all bytes of a key are zero.
pub open spec fn is_blank(key: Seq<u8>) -> bool {
    forall|i: int| 0 <= i < key.len() ==> key[i] == 0
}

fn check_blank(key: &[u8; 32]) -> (r: bool)
    ensures
        r == is_blank(key@),
{
    for i in 0..32usize
        invariant
            forall|j: int| 0 <= j < i ==> key@[j] == 0,
    {
        if key[i] != 0 {
            return false;
        }
    }
    true
}

/// Whether a single item may be fetched: the agent must hold the user's keys.
pub fn may_update(keys: &Option<KeysContext>) -> (r: Result<(), String>)
    ensures
        match *keys {
            None => r matches Err(e) && e@ == "Agent locked"@,
            Some(keys) => if is_blank(keys.enc_key@) {
                r matches Err(e) && e@
                    == "Decryption keys missing (agent was auto-unlocked from cache)"@
            } else {
                r is Ok
            },
        },
{
    match keys {
        None => Err("Agent locked".to_owned()),
        Some(keys) => {
            if check_blank(&keys.enc_key) {
                Err("Decryption keys missing (agent was auto-unlocked from cache)".to_owned())
            } else {
                Ok(())
            }
        },
    }
}

/// What to do to the cache for an item, given what the server answered for it: an item that
/// cannot be fetched or was deleted is deleted, any other is saved.
pub open spec fn update_plan(
    fetched: Result<CipherSync, String>,
    cipher_id: String,
    user_id: String,
) -> Seq<Statement> {
    match fetched {
        Ok(cipher) => if cipher.deleted_date is Some {
            seq![Statement::DeleteCipher(cipher_id)]
        } else {
            crate::storage::repository::cipher_plan(cipher, user_id)
        },
        Err(_) => seq![Statement::DeleteCipher(cipher_id)],
    }
}

/// Decides what to do to the cache for an item that changed.
pub fn handle_surgical_cipher_update(
    fetched: &Result<CipherSync, String>,
    cipher_id: &String,
    active_user: &Option<String>,
) -> (r: Result<Vec<Statement>, String>)
    ensures
        match *active_user {
            None => r matches Err(e) && e@ == "No active user logged in"@,
            Some(user_id) => r matches Ok(plan) && plan@ == update_plan(
                *fetched,
                *cipher_id,
                user_id,
            ),
        },
{
    let user_id = match active_user {
        Some(user_id) => user_id,
        None => {
            return Err("No active user logged in".to_owned());
        },
    };
    match fetched {
        Ok(cipher) => {
            if cipher.deleted_date.is_some() {
                let plan = vec![VaultRepository::delete_cipher(cipher_id)];
                assert(plan@ =~= update_plan(*fetched, *cipher_id, *user_id));
                Ok(plan)
            } else {
                Ok(VaultRepository::save_cipher(cipher, user_id))
            }
        },
        Err(_) => {
            let plan = vec![VaultRepository::delete_cipher(cipher_id)];
            assert(plan@ =~= update_plan(*fetched, *cipher_id, *user_id));
            Ok(plan)
        },
    }
}

proof fn lemma_parts_join(p: Seq<Seq<char>>, q: Seq<Seq<char>>)
    ensures
        events_of_parts(p + q) == events_of_parts(p) + events_of_parts(q),
    decreases q.len(),
{
    if q.len() == 0 {
        assert(p + q =~= p);
        assert(events_of_parts(p) + events_of_parts(q) =~= events_of_parts(p));
    } else {
        assert((p + q).drop_last() =~= p + q.drop_last());
        lemma_parts_join(p, q.drop_last());
        assert(events_of_parts(p + q) =~= events_of_parts(p) + events_of_parts(q));
    }
}

/// The messages of a text frame are read one by one: those before a separator do not bear on
/// those behind it.
pub proof fn text_messages_are_independent(a: Seq<char>, b: Seq<char>)
    ensures
        events_of_parts(text::split_on(a + seq!['\u{1e}'] + b, '\u{1e}')) == events_of_parts(
            text::split_on(a, '\u{1e}'),
        ) + events_of_parts(text::split_on(b, '\u{1e}')),
{
    text::splitting_is_local(a, b, '\u{1e}');
    lemma_parts_join(text::split_on(a, '\u{1e}'), text::split_on(b, '\u{1e}'));
}

/// The messages of a binary frame are read one by one: one that is whole does not keep those
/// behind it from being read, whatever it holds.
pub proof fn binary_messages_are_independent(bytes: Seq<u8>, length: nat, used: nat)
    requires
        bytes.len() > 0,
        varint(bytes, 1) == Some((length, used)),
        1 <= used <= bytes.len(),
        length <= bytes.len() - used,
    ensures
        events_of_frame(bytes) == message_events(
            tree::packed_shape(bytes.subrange(used as int, (used + length) as int)),
        ) + events_of_frame(bytes.skip((used + length) as int)),
{
    let rest = bytes.skip(used as int);
    assert(rest.take(length as int) =~= bytes.subrange(used as int, (used + length) as int));
    assert(rest.skip(length as int) =~= bytes.skip((used + length) as int));
}

} // verus!
