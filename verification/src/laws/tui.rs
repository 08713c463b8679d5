//! Laws of the terminal user interface.
use vstd::prelude::*;
use vstd::string::*;
use vstd::utf8::*;

use crate::api::{CipherSync, FieldSync, FolderSync, LoginSync, SshKeySync, SyncResponse};
use crate::config::Session;
use crate::crypto;
use crate::storage;
use crate::storage::vault;
use crate::storage::Keys;
use crate::text;
use crate::tui;
use crate::tui::shown;
use crate::tui::shown::DetailText;
use crate::tui::{ActivePanel, Key, Screen, Tui, Wish};

verus! {

// ---------------------------------------------------------------------------
// Which items are listed
// ---------------------------------------------------------------------------
/// The interface begins locked, with nothing in it but the server, on the first category, and with
/// secrets masked.
pub proof fn the_interface_begins_locked(server: Seq<char>)
    ensures
        ({
            let tui = tui::first_look(server);
            &&& tui.state is Lock
            &&& tui.active_panel == ActivePanel::Left
            &&& tui.email.len() == 0 && tui.password.len() == 0 && tui.query.len() == 0
            &&& tui.server == server
            &&& tui.focus == 0
            &&& tui.keys is None && tui.user_id is None && tui.status is None
            &&& tui.folders.len() == 0 && tui.ciphers.len() == 0 && tui.ssh_keys.len() == 0
            &&& tui.left == Some(0usize)
            &&& tui.middle is None
            &&& tui.mask
            &&& tui.valid()
        }),
        tui::CATEGORIES == 6,
        tui::chosen(None) == 0,
        forall|i: usize| tui::chosen(Some(i)) == i,
{
}

/// The six categories: everything, favorites, logins, cards, identities, secure notes. Behind them
/// stand the folders, each with the items that name it.
pub proof fn categories_and_folders_select_their_items(
    cipher: CipherSync,
    folders: Seq<FolderSync>,
    i: usize,
)
    ensures
        tui::in_selection(cipher, 0, folders),
        tui::in_selection(cipher, 1, folders) == cipher.favorite,
        tui::in_selection(cipher, 2, folders) == (cipher.kind == 1),
        tui::in_selection(cipher, 3, folders) == (cipher.kind == 3),
        tui::in_selection(cipher, 4, folders) == (cipher.kind == 4),
        tui::in_selection(cipher, 5, folders) == (cipher.kind == 2),
        6 <= i && i - 6 < folders.len() ==> tui::in_selection(cipher, i, folders) == (
        cipher.folder_id is Some && cipher.folder_id->0@ == folders[i - 6].id@),
        6 + folders.len() <= i ==> tui::in_selection(cipher, i, folders),
{
}

/// A search finds an item by any part of its name or of its username, in any case, and by nothing
/// else; an empty one finds every item.
pub proof fn a_search_finds_names_and_usernames(
    cipher: CipherSync,
    query: Seq<char>,
    a: Seq<char>,
    b: Seq<char>,
)
    ensures
        tui::found(cipher, Seq::empty()),
        cipher.name is Some && text::lowercase(cipher.name->0@) == a + text::lowercase(query) + b
            ==> tui::found(cipher, query),
        cipher.login is Some && cipher.login->0.username is Some && text::lowercase(
            cipher.login->0.username->0@,
        ) == a + text::lowercase(query) + b ==> tui::found(cipher, query),
        query.len() > 0 && (cipher.name is None || !text::has_text(
            text::lowercase(cipher.name->0@),
            text::lowercase(query),
        )) && (cipher.login is None || cipher.login->0.username is None || !text::has_text(
            text::lowercase(cipher.login->0.username->0@),
            text::lowercase(query),
        )) ==> !tui::found(cipher, query),
{
    super::text::texts_are_found_where_they_stand(a, text::lowercase(query), b);
}

/// An item is listed behind those before it where the selection and the search let it through.
pub proof fn items_are_listed_in_order(
    ciphers: Seq<CipherSync>,
    cipher: CipherSync,
    left: usize,
    folders: Seq<FolderSync>,
    query: Seq<char>,
)
    ensures
        tui::in_selection(cipher, left, folders) && tui::found(cipher, query) ==> tui::listed(
            ciphers.push(cipher),
            left,
            folders,
            query,
        ) == tui::listed(ciphers, left, folders, query).push(cipher),
        !tui::in_selection(cipher, left, folders) || !tui::found(cipher, query) ==> tui::listed(
            ciphers.push(cipher),
            left,
            folders,
            query,
        ) == tui::listed(ciphers, left, folders, query),
        tui::listed(Seq::empty(), left, folders, query).len() == 0,
{
    assert(ciphers.push(cipher).drop_last() =~= ciphers);
}

/// The middle panel lists the items of the selected line, or of the first where none is selected.
pub proof fn the_middle_panel_lists_the_selection(tui: Tui, i: usize)
    ensures
        tui.left == Some(i) ==> tui.items() == tui::listed(tui.ciphers, i, tui.folders, tui.query),
        tui.left is None ==> tui.items() == tui::listed(tui.ciphers, 0, tui.folders, tui.query),
{
}

// ---------------------------------------------------------------------------
// Keys
// ---------------------------------------------------------------------------
/// On every screen `q` with control quits, and changes nothing.
pub proof fn control_q_quits(tui: Tui, now: u128)
    ensures
        tui::on_key(tui, Key::Char('q'), true, now) == (tui, Wish::Quit),
{
}

/// On the login screen what is typed goes to the input that has the focus, and to no other.
pub proof fn typing_fills_the_input_with_the_focus(tui: Tui, c: char, now: u128)
    requires
        tui.state is Login,
    ensures
        ({
            let (after, wish) = tui::on_key(tui, Key::Char(c), false, now);
            &&& wish == Wish::Nothing
            &&& tui.focus == 0 ==> after == (Tui { email: tui.email.push(c), ..tui })
            &&& tui.focus == 1 ==> after == (Tui { password: tui.password.push(c), ..tui })
            &&& tui.focus == 2 ==> after == (Tui { server: tui.server.push(c), ..tui })
        }),
{
}

/// Backspace takes back what was typed last.
pub proof fn backspace_takes_back_what_was_typed(tui: Tui, c: char, now: u128)
    requires
        tui.valid(),
        tui.state is Login || tui.state is Lock,
    ensures
        tui::on_key(
            tui::on_key(tui, Key::Char(c), false, now).0,
            Key::Backspace,
            false,
            now,
        ) == (tui, Wish::Nothing),
        tui.state is Lock && tui.password.len() == 0 ==> tui::on_key(
            tui,
            Key::Backspace,
            false,
            now,
        ).0 == tui,
        tui.state is Login && tui.focus == 0 && tui.email.len() == 0 ==> tui::on_key(
            tui,
            Key::Backspace,
            false,
            now,
        ).0 == tui,
{
    assert(tui.email.push(c).drop_last() =~= tui.email);
    assert(tui.password.push(c).drop_last() =~= tui.password);
    assert(tui.server.push(c).drop_last() =~= tui.server);
    let typed = tui::on_key(tui, Key::Char(c), false, now).0;
    let after = tui::on_key(typed, Key::Backspace, false, now).0;
    assert(after =~= tui);
}

/// On the login screen the inputs follow one another, the first behind the last. The last one, or
/// control, logs in; escape quits.
pub proof fn the_inputs_follow_one_another(tui: Tui, now: u128)
    requires
        tui.valid(),
        tui.state is Login,
    ensures
        ({
            let next = if tui.focus == 0 {
                1usize
            } else if tui.focus == 1 {
                2usize
            } else {
                0usize
            };
            let previous = if tui.focus == 0 {
                2usize
            } else if tui.focus == 1 {
                0usize
            } else {
                1usize
            };
            &&& tui::on_key(tui, Key::Tab, false, now) == (Tui { focus: next, ..tui }, Wish::Nothing)
            &&& tui::on_key(tui, Key::BackTab, false, now) == (
                Tui { focus: previous, ..tui },
                Wish::Nothing,
            )
            &&& tui.focus < 2 ==> tui::on_key(tui, Key::Enter, false, now) == (
                Tui { focus: next, ..tui },
                Wish::Nothing,
            )
            &&& tui.focus == 2 ==> tui::on_key(tui, Key::Enter, false, now) == (tui, Wish::Login)
            &&& tui::on_key(tui, Key::Enter, true, now) == (tui, Wish::Login)
            &&& tui::on_key(tui, Key::Esc, false, now) == (tui, Wish::Quit)
        }),
{
}

/// On the lock screen what is typed is the password; enter unlocks, and escape logs out.
pub proof fn the_lock_screen_takes_the_password(tui: Tui, c: char, now: u128)
    requires
        tui.state is Lock,
    ensures
        tui::on_key(tui, Key::Char(c), false, now) == (
            Tui { password: tui.password.push(c), ..tui },
            Wish::Nothing,
        ),
        tui::on_key(tui, Key::Enter, false, now) == (tui, Wish::Unlock),
        ({
            let (after, wish) = tui::on_key(tui, Key::Esc, false, now);
            &&& wish == Wish::Logout
            &&& after.state is Login
            &&& after.keys is None && after.user_id is None
            &&& after.email.len() == 0 && after.password.len() == 0
            &&& after.ciphers.len() == 0 && after.folders.len() == 0 && after.ssh_keys.len() == 0
        }),
{
}

/// In the search input what is typed is searched for, and the list starts over; enter and escape
/// lead back to the list.
pub proof fn the_search_takes_what_is_typed(tui: Tui, c: char, now: u128)
    requires
        tui.state is Dashboard,
        tui.active_panel == ActivePanel::Search,
    ensures
        tui::on_key(tui, Key::Char(c), false, now) == (
            Tui { query: tui.query.push(c), middle: Some(0), ..tui },
            Wish::Nothing,
        ),
        tui.query.len() > 0 ==> tui::on_key(tui, Key::Backspace, false, now) == (
            Tui { query: tui.query.drop_last(), middle: Some(0), ..tui },
            Wish::Nothing,
        ),
        tui::on_key(tui, Key::Enter, false, now) == (
            Tui { active_panel: ActivePanel::Middle, ..tui },
            Wish::Nothing,
        ),
        tui::on_key(tui, Key::Esc, false, now) == (
            Tui { active_panel: ActivePanel::Middle, ..tui },
            Wish::Nothing,
        ),
{
}

/// The panels follow one another from left to right, and the search stands between the left panel
/// and the list.
pub proof fn the_panels_follow_one_another(tui: Tui, now: u128)
    requires
        tui.state is Dashboard,
    ensures
        tui.active_panel == ActivePanel::Left ==> tui::on_key(tui, Key::Tab, false, now)
            .0.active_panel == ActivePanel::Middle && tui::on_key(tui, Key::BackTab, false, now)
            .0.active_panel == ActivePanel::Right,
        tui.active_panel == ActivePanel::Middle ==> tui::on_key(tui, Key::Tab, false, now)
            .0.active_panel == ActivePanel::Right && tui::on_key(tui, Key::BackTab, false, now)
            .0.active_panel == ActivePanel::Left,
        tui.active_panel == ActivePanel::Right ==> tui::on_key(tui, Key::Tab, false, now)
            .0.active_panel == ActivePanel::Left && tui::on_key(tui, Key::BackTab, false, now)
            .0.active_panel == ActivePanel::Middle,
        tui::next_panel(ActivePanel::Search) == ActivePanel::Middle,
        tui::previous_panel(ActivePanel::Search) == ActivePanel::Left,
{
}

/// What the letters do on the dashboard, outside the search.
pub proof fn letters_have_their_meaning(tui: Tui, now: u128)
    requires
        tui.state is Dashboard,
        tui.active_panel != ActivePanel::Search,
    ensures
        tui::on_key(tui, Key::Char('q'), false, now) == (tui, Wish::Quit),
        tui::on_key(tui, Key::Esc, false, now) == (tui, Wish::Quit),
        tui::on_key(tui, Key::Char('/'), false, now) == (
            Tui { active_panel: ActivePanel::Search, ..tui },
            Wish::Nothing,
        ),
        tui::on_key(tui, Key::Char('s'), false, now) == (
            Tui { status: Some(("Syncing with Bitwarden server..."@, now)), ..tui },
            Wish::Sync,
        ),
        tui::on_key(tui, Key::Char('o'), false, now) == (
            Tui { mask: !tui.mask, ..tui },
            Wish::Nothing,
        ),
        tui::on_key(tui, Key::Char('l'), false, now) == (
            Tui {
                keys: None,
                state: Screen::Lock,
                status: Some(("Vault locked."@, now)),
                ..tui
            },
            Wish::Nothing,
        ),
        tui::on_key(tui, Key::Char('k'), false, now) == tui::on_key(tui, Key::Up, false, now),
        tui::on_key(tui, Key::Char('j'), false, now) == tui::on_key(tui, Key::Down, false, now),
        tui::on_key(tui, Key::Enter, false, now) == (tui, Wish::Nothing),
{
}

/// In the list a key moves the selection by one item, and not past either end; nothing else
/// changes. In the details it moves nothing.
pub proof fn the_list_moves_by_one(tui: Tui, i: usize, now: u128)
    requires
        tui.valid(),
        tui.state is Dashboard,
        tui.middle == Some(i),
        i < usize::MAX,
    ensures
        ({
            let (up, down) = (
                tui::on_key(tui, Key::Up, false, now),
                tui::on_key(tui, Key::Down, false, now),
            );
            &&& tui.active_panel == ActivePanel::Middle ==> {
                &&& up == (
                    Tui {
                        middle: Some(
                            if i == 0 {
                                0usize
                            } else {
                                (i - 1) as usize
                            },
                        ),
                        ..tui
                    },
                    Wish::Nothing,
                )
                &&& i + 1 < tui.items().len() ==> down == (
                    Tui { middle: Some((i + 1) as usize), ..tui },
                    Wish::Nothing,
                )
                &&& i + 1 >= tui.items().len() ==> down == (tui, Wish::Nothing)
            }
            &&& tui.active_panel == ActivePanel::Right ==> up == (tui, Wish::Nothing) && down == (
                tui,
                Wish::Nothing,
            )
        }),
{
}

/// Keys without a meaning change nothing and ask for nothing.
pub proof fn other_keys_do_nothing(tui: Tui, c: char, now: u128)
    ensures
        !(tui.state is Error) ==> tui::on_key(tui, Key::Other, false, now) == (tui, Wish::Nothing),
        tui.state is Login || tui.state is Lock ==> tui::on_key(tui, Key::Up, false, now) == (
            tui,
            Wish::Nothing,
        ) && tui::on_key(tui, Key::Down, false, now) == (tui, Wish::Nothing),
        tui.state is Lock ==> tui::on_key(tui, Key::Tab, false, now) == (tui, Wish::Nothing)
            && tui::on_key(tui, Key::BackTab, false, now) == (tui, Wish::Nothing),
        tui.state is Dashboard && tui.active_panel == ActivePanel::Search ==> tui::on_key(
            tui,
            Key::Up,
            false,
            now,
        ) == (tui, Wish::Nothing) && tui::on_key(tui, Key::Tab, false, now) == (tui, Wish::Nothing),
        tui.state is Dashboard && tui.active_panel != ActivePanel::Search && c != 'q' && c != '/' && c
            != 's' && c != 'o' && c != 'l' && c != 'L' && c != 'k' && c != 'j' ==> tui::on_key(
            tui,
            Key::Char(c),
            false,
            now,
        ) == (tui, Wish::Nothing),
        tui.state is Dashboard && tui.active_panel != ActivePanel::Search ==> tui::on_key(
            tui,
            Key::Backspace,
            false,
            now,
        ) == (tui, Wish::Nothing),
{
}

/// An error is left by any key, for the dashboard; escape and `q` quit.
pub proof fn errors_are_left_by_any_key(tui: Tui, key: Key, now: u128)
    requires
        tui.state is Error,
    ensures
        key == Key::Esc || key == Key::Char('q') ==> tui::on_key(tui, key, false, now) == (
            tui,
            Wish::Quit,
        ),
        key != Key::Esc && key != Key::Char('q') ==> tui::on_key(tui, key, false, now) == (
            Tui { state: Screen::Dashboard, ..tui },
            Wish::Nothing,
        ),
{
}

/// After a logout nothing of the user is left; the server, the search and the masking stay.
pub proof fn a_logout_leaves_nothing_of_the_user(tui: Tui, now: u128)
    ensures
        ({
            let after = tui::logged_out(tui, now);
            &&& after.state is Login
            &&& after.active_panel == ActivePanel::Left
            &&& after.email.len() == 0 && after.password.len() == 0
            &&& after.keys is None && after.user_id is None
            &&& after.folders.len() == 0 && after.ciphers.len() == 0 && after.ssh_keys.len() == 0
            &&& after.server == tui.server && after.focus == tui.focus && after.query == tui.query
            &&& after.left == tui.left && after.middle == tui.middle && after.mask == tui.mask
            &&& after.status == Some(("Logged out successfully."@, now))
        }),
{
}

// ---------------------------------------------------------------------------
// Finished work
// ---------------------------------------------------------------------------
/// A session of a user with saved keys opens the dashboard with those keys; without them the lock
/// screen waits for the password of that user.
pub proof fn a_session_is_taken_up(tui: Tui, keys: Keys, session: Session, email: String)
    requires
        session.email == Some(email),
    ensures
        ({
            let after = tui::resumed(tui, Some(keys), Some(session));
            &&& after.state is Dashboard
            &&& after.keys == Some(keys)
            &&& session.user_id matches Some(id) ==> after.user_id == Some(id@)
            &&& session.user_id is None ==> after.user_id is None
            &&& after == (Tui {
                state: after.state,
                keys: after.keys,
                user_id: after.user_id,
                ..tui
            })
        }),
        ({
            let after = tui::resumed(tui, None, Some(session));
            &&& after.state is Lock
            &&& after.email == email@
            &&& session.user_id matches Some(id) ==> after.user_id == Some(id@)
            &&& session.user_id is None ==> after.user_id is None
            &&& after == (Tui {
                state: after.state,
                email: after.email,
                user_id: after.user_id,
                ..tui
            })
        }),
        tui::is_signed_in(Some(session)),
{
}

/// Without a session, or with one of nobody, the login screen is shown.
pub proof fn without_a_session_the_login_is_shown(tui: Tui, saved: Option<Keys>, session: Session)
    requires
        session.email is None,
    ensures
        tui::resumed(tui, saved, None).state is Login,
        tui::resumed(tui, saved, Some(session)).state is Login,
        tui::resumed(tui, saved, None).user_id == tui.user_id,
        tui::resumed(tui, saved, Some(session)).user_id == tui.user_id,
        !tui::is_signed_in(None),
        !tui::is_signed_in(Some(session)),
{
}

/// The vault of an unlocked user is taken in: the folders, the items, and the SSH keys that its
/// keys open in the cached vault, where that could be loaded. Otherwise nothing changes.
pub proof fn an_unlocked_vault_is_taken_in(
    tui: Tui,
    keys: Keys,
    folders: Seq<FolderSync>,
    ciphers: Seq<CipherSync>,
    sync: SyncResponse,
    e: String,
)
    ensures
        tui.keys == Some(keys) && tui.user_id is Some ==> tui::filled(
            tui,
            folders,
            ciphers,
            Ok(sync),
        ) == (Tui {
            folders,
            ciphers,
            ssh_keys: vault::vault_ssh_keys(sync, (keys.0@, keys.1@)),
            ..tui
        }),
        tui.keys == Some(keys) && tui.user_id is Some ==> tui::filled(
            tui,
            folders,
            ciphers,
            Err(e),
        ) == (Tui { folders, ciphers, ..tui }),
        tui.keys is None || tui.user_id is None ==> tui::filled(tui, folders, ciphers, Ok(sync))
            == tui && tui::filled(tui, folders, ciphers, Err(e)) == tui,
{
}

/// A vault that was opened is shown with its keys, and the password is forgotten.
pub proof fn an_opened_vault_forgets_the_password(tui: Tui, keys: Keys)
    ensures
        ({
            let after = tui::opened(tui, keys);
            &&& after.state is Dashboard
            &&& after.keys == Some(keys)
            &&& after.password.len() == 0
            &&& after == (Tui {
                state: after.state,
                keys: after.keys,
                password: after.password,
                ..tui
            })
        }),
{
}

// ---------------------------------------------------------------------------
// What is shown
// ---------------------------------------------------------------------------
/// A text that the keys open is shown as it was before it was encrypted; any other is shown as it
/// is stored.
pub proof fn texts_that_open_are_shown_open(
    stored: Seq<char>,
    enc: Seq<u8>,
    mac: Seq<u8>,
    plain: Seq<char>,
)
    ensures
        crypto::cipher_plaintext(stored, enc, mac) == Ok::<Seq<u8>, Seq<char>>(encode_utf8(plain))
            ==> shown::readable(stored, Some((enc, mac))) == plain,
        crypto::cipher_plaintext(stored, enc, mac) is Err ==> shown::readable(
            stored,
            Some((enc, mac)),
        ) == stored,
        shown::readable(stored, None) == stored,
{
    encode_utf8_valid_utf8(plain);
    encode_utf8_decode_utf8(plain);
}

/// An item with a key of its own is opened with that, where the keys of the user open it to 64
/// bytes; else with the keys of the user.
pub proof fn items_are_shown_with_their_own_key(
    cipher: CipherSync,
    key: String,
    enc: Seq<u8>,
    mac: Seq<u8>,
    bytes: Seq<u8>,
    user: Option<(Seq<u8>, Seq<u8>)>,
)
    ensures
        cipher.key == Some(key) && crypto::cipher_plaintext(key@, enc, mac) == Ok::<
            Seq<u8>,
            Seq<char>,
        >(bytes) && bytes.len() == 64 ==> shown::item_keys(cipher, Some((enc, mac))) == Some(
            (bytes.take(32), bytes.skip(32)),
        ),
        cipher.key == Some(key) && crypto::cipher_plaintext(key@, enc, mac) == Ok::<
            Seq<u8>,
            Seq<char>,
        >(bytes) && bytes.len() != 64 ==> shown::item_keys(cipher, Some((enc, mac))) == Some(
            (enc, mac),
        ),
        cipher.key == Some(key) && crypto::cipher_plaintext(key@, enc, mac) is Err
            ==> shown::item_keys(cipher, Some((enc, mac))) == Some((enc, mac)),
        cipher.key is None ==> shown::item_keys(cipher, user) == user,
        shown::item_keys(cipher, None) is None,
{
    if bytes.len() == 64 {
        assert(bytes.subrange(0, 32) =~= bytes.take(32));
        assert(bytes.subrange(32, 64) =~= bytes.skip(32));
    }
}

/// Each kind of item has its name and its symbol.
pub proof fn kinds_have_names_and_symbols(kind: i32)
    ensures
        shown::kind_name(1) == "Login"@,
        shown::kind_name(2) == "Secure Note"@,
        shown::kind_name(3) == "Card"@,
        shown::kind_name(4) == "Identity"@,
        shown::kind_name(5) == "SSH Key"@,
        shown::kind_name(100) == "SSH Key"@,
        (kind < 1 || kind > 5) && kind != 100 ==> shown::kind_name(kind) == "Unknown"@,
        shown::kind_icon(1) == "🔑"@,
        shown::kind_icon(2) == "📝"@,
        shown::kind_icon(3) == "💳"@,
        shown::kind_icon(4) == "👤"@,
        shown::kind_icon(5) == "🗝️"@,
        shown::kind_icon(100) == "🗝️"@,
        (kind < 1 || kind > 5) && kind != 100 ==> shown::kind_icon(kind) == "📦"@,
{
}

/// An item without a name is shown as such.
pub proof fn items_without_a_name_are_shown_as_such(cipher: CipherSync)
    ensures
        cipher.name matches Some(name) ==> shown::stored_name(cipher) == name@,
        cipher.name is None ==> shown::stored_name(cipher) == "[No Name]"@,
{
}

/// The left panel shows the categories in the order in which they select, and the folders behind
/// them in theirs.
pub proof fn the_left_panel_shows_categories_and_folders(
    folders: Seq<FolderSync>,
    keys: Option<(Seq<u8>, Seq<u8>)>,
    i: int,
)
    requires
        0 <= i < folders.len(),
    ensures
        ({
            let lines = shown::left_lines(folders, keys);
            &&& lines.len() == 7 + folders.len()
            &&& lines[0] == "  ★  All Items"@
            &&& lines[1] == "  ★  Favorites"@
            &&& lines[2] == "  ★  Logins"@
            &&& lines[3] == "  ★  Cards"@
            &&& lines[4] == "  ★  Identities"@
            &&& lines[5] == "  ★  Secure Notes"@
            &&& lines[6] == "  -- Folders --"@
            &&& lines[7 + i] == "  📁  "@ + shown::readable(folders[i].name@, keys)
        }),
{
}

/// A field is shown where it has a value, and a secret one only while secrets are not masked.
pub proof fn secrets_are_shown_unmasked_only(label: Seq<char>, value: Seq<char>, secret: bool, mask: bool)
    ensures
        shown::field_line(label, Some(value), secret, false) == seq![
            DetailText::Field { label: label + ": "@, value, masked: false },
        ],
        shown::field_line(label, Some(value), false, mask) == seq![
            DetailText::Field { label: label + ": "@, value, masked: false },
        ],
        shown::field_line(label, Some(value), true, true) == seq![
            DetailText::Field { label: label + ": "@, value: "••••••••"@, masked: true },
        ],
        shown::field_line(label, None, secret, mask).len() == 0,
{
}

/// A part that is stored is shown as its text is; a part that is not there is not shown.
pub proof fn parts_are_shown_where_they_are_stored(stored: String, keys: Option<(Seq<u8>, Seq<u8>)>)
    ensures
        shown::readable_part(Some(stored), keys) == Some(shown::readable(stored@, keys)),
        shown::readable_part(None, keys) is None,
{
}

/// Of a login the username, the password and the address are shown, in that order; the password is
/// the secret.
pub proof fn a_login_is_shown(
    username: String,
    password: String,
    uri: String,
    own: Option<(Seq<u8>, Seq<u8>)>,
)
    ensures
        ({
            let login = LoginSync {
                username: Some(username),
                password: Some(password),
                uri: Some(uri),
            };
            let name = DetailText::Field {
                label: "Username"@ + ": "@,
                value: shown::readable(username@, own),
                masked: false,
            };
            let address = DetailText::Field {
                label: "URI/Website"@ + ": "@,
                value: shown::readable(uri@, own),
                masked: false,
            };
            &&& shown::login_details(login, own, false) == seq![
                name,
                DetailText::Field {
                    label: "Password"@ + ": "@,
                    value: shown::readable(password@, own),
                    masked: false,
                },
                address,
            ]
            &&& shown::login_details(login, own, true) == seq![
                name,
                DetailText::Field {
                    label: "Password"@ + ": "@,
                    value: "••••••••"@,
                    masked: true,
                },
                address,
            ]
            &&& shown::login_details(
                LoginSync { username: None, password: None, uri: None },
                own,
                true,
            ).len() == 0
        }),
{
}

/// The custom fields are shown in order, each under its name; those of type one are secret.
pub proof fn custom_fields_are_shown(
    fields: Seq<FieldSync>,
    field: FieldSync,
    value: String,
    own: Option<(Seq<u8>, Seq<u8>)>,
    mask: bool,
)
    requires
        field.value == Some(value),
    ensures
        ({
            let hidden = field.kind == 1 && mask;
            shown::field_details(fields.push(field), own, mask) == shown::field_details(
                fields,
                own,
                mask,
            ).push(
                DetailText::Field {
                    label: shown::readable(field.name@, own) + ": "@,
                    value: if hidden {
                        "••••••••"@
                    } else {
                        shown::readable(value@, own)
                    },
                    masked: hidden,
                },
            )
        }),
        shown::field_details(Seq::empty(), own, mask).len() == 0,
{
    assert(fields.push(field).drop_last() =~= fields);
}

/// Of an SSH key both parts are shown; the private one is the secret.
pub proof fn an_ssh_key_is_shown(private: String, public: String, own: Option<(Seq<u8>, Seq<u8>)>)
    ensures
        ({
            let ssh_key = SshKeySync { private_key: Some(private), public_key: Some(public) };
            let lines = shown::ssh_details(ssh_key, own, false);
            let masked = shown::ssh_details(ssh_key, own, true);
            &&& lines == seq![
                DetailText::Blank,
                DetailText::Heading("SSH Key Details:"@),
                DetailText::Field {
                    label: "Private Key"@ + ": "@,
                    value: shown::readable(private@, own),
                    masked: false,
                },
                DetailText::Field {
                    label: "Public Key"@ + ": "@,
                    value: shown::readable(public@, own),
                    masked: false,
                },
            ]
            &&& masked.len() == 4
            &&& masked[2] == DetailText::Field {
                label: "Private Key"@ + ": "@,
                value: "••••••••"@,
                masked: true,
            }
            &&& masked[3] == lines[3]
        }),
{
}

/// The SSH key of an item is found among those of the vault, wherever it stands.
pub proof fn the_key_of_an_item_is_found(keys: Seq<storage::KeyTexts>, i: int)
    requires
        0 <= i < keys.len(),
        forall|j: int| 0 <= j < i ==> (#[trigger] keys[j]).id != keys[i].id,
    ensures
        shown::key_of_item(keys, keys[i].id) == Some(keys[i]),
    decreases i,
{
    if i > 0 {
        let rest = keys.skip(1);
        assert(keys[0].id != keys[i].id);
        assert(rest[i - 1] == keys[i]);
        assert forall|j: int| 0 <= j < i - 1 implies (#[trigger] rest[j]).id != rest[i - 1].id by {
            assert(rest[j] == keys[j + 1]);
        }
        the_key_of_an_item_is_found(rest, i - 1);
    }
}

/// An item without an SSH key has none.
pub proof fn items_without_a_key_have_none(keys: Seq<storage::KeyTexts>, id: Seq<char>)
    requires
        forall|j: int| 0 <= j < keys.len() ==> (#[trigger] keys[j]).id != id,
    ensures
        shown::key_of_item(keys, id) is None,
    decreases keys.len(),
{
    if keys.len() > 0 {
        let rest = keys.skip(1);
        assert(keys[0].id != id);
        assert forall|j: int| 0 <= j < rest.len() implies (#[trigger] rest[j]).id != id by {
            assert(rest[j] == keys[j + 1]);
        }
        items_without_a_key_have_none(rest, id);
    }
}

/// An SSH key that was found in an item is shown, its private part as a secret.
pub proof fn a_found_key_is_shown(key: storage::KeyTexts)
    ensures
        shown::found_key_details(Some(key), false) == seq![
            DetailText::Blank,
            DetailText::Heading("SSH Private Key Detected:"@),
            DetailText::Field {
                label: "Private Key Type"@ + ": "@,
                value: "PEM / OpenSSH format"@,
                masked: false,
            },
            DetailText::Field {
                label: "Private Key Payload"@ + ": "@,
                value: key.private_key,
                masked: false,
            },
        ],
        shown::found_key_details(Some(key), true).last() == (DetailText::Field {
            label: "Private Key Payload"@ + ": "@,
            value: "••••••••"@,
            masked: true,
        }),
        shown::found_key_details(None, true).len() == 0,
{
}

/// The details begin with the name and the kind of the item, and go on with its login, its custom
/// fields, its notes, its SSH key and the one that was found in it, each opened with the keys of
/// the item.
pub proof fn the_details_show_every_part(
    cipher: CipherSync,
    keys: (Seq<u8>, Seq<u8>),
    ssh_keys: Seq<storage::KeyTexts>,
    mask: bool,
)
    ensures
        ({
            let own = shown::item_keys(cipher, Some(keys));
            let lines = shown::details(cipher, Some(keys), ssh_keys, mask);
            let login = shown::login_part(cipher, own, mask);
            let fields = shown::fields_part(cipher, own, mask);
            let notes = shown::notes_part(cipher, own);
            let ssh = shown::ssh_part(cipher, own, mask);
            let found = shown::found_key_details(
                shown::key_of_item(ssh_keys, cipher.id@),
                mask,
            );
            let a = (3 + login.len()) as int;
            let b = (a + fields.len()) as int;
            let c = (b + notes.len()) as int;
            let d = (c + ssh.len()) as int;
            &&& lines.len() == d + found.len()
            &&& cipher.name matches Some(name) ==> lines[0] == DetailText::Title(
                shown::readable(name@, own),
            )
            &&& cipher.name is None ==> lines[0] == DetailText::Title("[No Name]"@)
            &&& lines[1] == DetailText::Kind("Type: "@ + shown::kind_name(cipher.kind))
            &&& lines[2] == DetailText::Blank
            &&& lines.subrange(3, a) == login
            &&& lines.subrange(a, b) == fields
            &&& lines.subrange(b, c) == notes
            &&& lines.subrange(c, d) == ssh
            &&& lines.skip(d) == found
        }),
{
    let own = shown::item_keys(cipher, Some(keys));
    let lines = shown::details(cipher, Some(keys), ssh_keys, mask);
    let login = shown::login_part(cipher, own, mask);
    let fields = shown::fields_part(cipher, own, mask);
    let notes = shown::notes_part(cipher, own);
    let ssh = shown::ssh_part(cipher, own, mask);
    let found = shown::found_key_details(shown::key_of_item(ssh_keys, cipher.id@), mask);
    let a = (3 + login.len()) as int;
    let b = (a + fields.len()) as int;
    let c = (b + notes.len()) as int;
    let d = (c + ssh.len()) as int;
    assert(lines.subrange(3, a) =~= login);
    assert(lines.subrange(a, b) =~= fields);
    assert(lines.subrange(b, c) =~= notes);
    assert(lines.subrange(c, d) =~= ssh);
    assert(lines.skip(d) =~= found);
}

/// The parts of an item are shown where it has them: a login of an item of that kind, custom
/// fields, notes and an SSH key of any.
pub proof fn parts_are_shown_where_they_are(
    cipher: CipherSync,
    own: Option<(Seq<u8>, Seq<u8>)>,
    mask: bool,
)
    ensures
        cipher.login matches Some(login) ==> cipher.kind == 1 ==> shown::login_part(cipher, own, mask)
            == shown::login_details(login, own, mask),
        cipher.login is None || cipher.kind != 1 ==> shown::login_part(cipher, own, mask).len() == 0,
        cipher.fields matches Some(fields) ==> fields@.len() > 0 ==> shown::fields_part(
            cipher,
            own,
            mask,
        ) == seq![DetailText::Blank, DetailText::Heading("Custom Fields:"@)] + shown::field_details(
            fields@,
            own,
            mask,
        ),
        cipher.fields is None || cipher.fields->0@.len() == 0 ==> shown::fields_part(
            cipher,
            own,
            mask,
        ).len() == 0,
        cipher.notes matches Some(notes) ==> shown::notes_part(cipher, own) == seq![
            DetailText::Blank,
            DetailText::Heading("Notes:"@),
            DetailText::Text(shown::readable(notes@, own)),
        ],
        cipher.notes is None ==> shown::notes_part(cipher, own).len() == 0,
        cipher.ssh_key matches Some(ssh_key) ==> shown::ssh_part(cipher, own, mask)
            == shown::ssh_details(ssh_key, own, mask),
        cipher.ssh_key is None ==> shown::ssh_part(cipher, own, mask).len() == 0,
{
}

} // verus!
