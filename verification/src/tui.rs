//! The terminal user interface: its state, and what keys and finished work do to it.
use vstd::prelude::*;
use vstd::string::*;

use crate::api::{CipherSync, FolderSync, PreloginResponse, SyncResponse, TokenResponse};
use crate::commands;
use crate::commands::login;
use crate::config::{Session, TimeoutAction};
use crate::crypto;
use crate::storage;
use crate::storage::vault;
use crate::storage::{Keys, SshKeyItem};
use crate::text;

pub mod shown;

verus! {

// ---------------------------------------------------------------------------
// State
// ---------------------------------------------------------------------------
/// What the screen shows.
#[derive(Debug)]
pub enum AppState {
    Login,
    Lock,
    Dashboard,
    Error(String),
}

/// The part of the dashboard that takes the keys.
#[derive(Debug, Clone, Copy, PartialEq, Eq, Structural)]
pub enum ActivePanel {
    /// Categories and folders.
    Left,
    /// The items.
    Middle,
    /// The details of an item.
    Right,
    /// The search input.
    Search,
}

/// The state of the interface. `auth_focus` counts the inputs of the login screen: address,
/// password, server. The status message is kept with the time, in nanoseconds, at which it was
/// set.
#[derive(Debug)]
pub struct App {
    pub state: AppState,
    pub active_panel: ActivePanel,
    pub email_input: String,
    pub password_input: String,
    pub server_input: String,
    pub auth_focus: usize,
    pub keys: Option<Keys>,
    pub user_id: Option<String>,
    pub folders: Vec<FolderSync>,
    pub ciphers: Vec<CipherSync>,
    pub decrypted_keys: Vec<SshKeyItem>,
    pub search_query: String,
    pub left_selected: Option<usize>,
    pub middle_selected: Option<usize>,
    pub mask_secrets: bool,
    pub status_message: Option<(String, u128)>,
}

/// The value of an [`AppState`].
pub enum Screen {
    Login,
    Lock,
    Dashboard,
    Error(Seq<char>),
}

/// The value of an [`App`].
#[verifier::ext_equal]
pub struct Tui {
    pub state: Screen,
    pub active_panel: ActivePanel,
    pub email: Seq<char>,
    pub password: Seq<char>,
    pub server: Seq<char>,
    pub focus: usize,
    pub keys: Option<Keys>,
    pub user_id: Option<Seq<char>>,
    pub folders: Seq<FolderSync>,
    pub ciphers: Seq<CipherSync>,
    pub ssh_keys: Seq<storage::KeyTexts>,
    pub query: Seq<char>,
    pub left: Option<usize>,
    pub middle: Option<usize>,
    pub mask: bool,
    pub status: Option<(Seq<char>, u128)>,
}

impl View for AppState {
    type V = Screen;

    open spec fn view(&self) -> Screen {
        match *self {
            AppState::Login => Screen::Login,
            AppState::Lock => Screen::Lock,
            AppState::Dashboard => Screen::Dashboard,
            AppState::Error(e) => Screen::Error(e@),
        }
    }
}

impl View for App {
    type V = Tui;

    open spec fn view(&self) -> Tui {
        Tui {
            state: self.state@,
            active_panel: self.active_panel,
            email: self.email_input@,
            password: self.password_input@,
            server: self.server_input@,
            focus: self.auth_focus,
            keys: self.keys,
            user_id: text::option_view(self.user_id),
            folders: self.folders@,
            ciphers: self.ciphers@,
            ssh_keys: storage::seq_view(self.decrypted_keys@),
            query: self.search_query@,
            left: self.left_selected,
            middle: self.middle_selected,
            mask: self.mask_secrets,
            status: match self.status_message {
                Some((message, time)) => Some((message@, time)),
                None => None,
            },
        }
    }
}

impl Tui {
    /// The focus is on one of the three inputs, and the lines of the left panel can be counted.
    pub open spec fn valid(self) -> bool {
        self.focus < 3 && CATEGORIES + self.folders.len() <= usize::MAX
    }

    /// With a status message, set at `now`.
    pub open spec fn saying(self, message: Seq<char>, now: u128) -> Tui {
        Tui { status: Some((message, now)), ..self }
    }
}

/// The categories before the folders.
pub const CATEGORIES: usize = 6;

/// The interface before anything is loaded.
pub open spec fn first_look(server: Seq<char>) -> Tui {
    Tui {
        state: Screen::Lock,
        active_panel: ActivePanel::Left,
        email: Seq::empty(),
        password: Seq::empty(),
        server,
        focus: 0,
        keys: None,
        user_id: None,
        folders: Seq::empty(),
        ciphers: Seq::empty(),
        ssh_keys: Seq::empty(),
        query: Seq::empty(),
        left: Some(0),
        middle: None,
        mask: true,
        status: None,
    }
}

/// A key that was pressed.
#[derive(Debug, Clone, Copy, PartialEq, Eq, Structural)]
pub enum Key {
    Esc,
    Tab,
    BackTab,
    Enter,
    Backspace,
    Up,
    Down,
    Char(char),
    Other,
}

/// What a key asks of the world outside.
#[derive(Debug, Clone, Copy, PartialEq, Eq, Structural)]
pub enum Wish {
    Nothing,
    Quit,
    Login,
    Unlock,
    Logout,
    Sync,
}

// ---------------------------------------------------------------------------
// Which items are listed
// ---------------------------------------------------------------------------
/// The selected line of the left panel, the first where none is.
pub open spec fn chosen(selected: Option<usize>) -> usize {
    match selected {
        Some(i) => i,
        None => 0,
    }
}

/// Whether an item belongs to the selected category or folder.
pub open spec fn in_selection(cipher: CipherSync, left: usize, folders: Seq<FolderSync>) -> bool {
    if left < CATEGORIES {
        match left {
            0 => true,
            1 => cipher.favorite,
            2 => cipher.kind == 1,
            3 => cipher.kind == 3,
            4 => cipher.kind == 4,
            _ => cipher.kind == 2,
        }
    } else if left - CATEGORIES < folders.len() {
        cipher.folder_id matches Some(id) && id@ == folders[left - CATEGORIES].id@
    } else {
        true
    }
}

/// Whether a text holds the query, in any case.
pub open spec fn mentions(s: Option<String>, query: Seq<char>) -> bool {
    s matches Some(s) && text::has_text(text::lowercase(s@), text::lowercase(query))
}

/// Whether the search finds an item: by its name or by its username, as they are stored.
pub open spec fn found(cipher: CipherSync, query: Seq<char>) -> bool {
    query.len() == 0 || mentions(cipher.name, query) || (cipher.login matches Some(login)
        && mentions(login.username, query))
}

/// Whether an item is listed.
pub open spec fn is_listed(
    cipher: CipherSync,
    left: usize,
    folders: Seq<FolderSync>,
    query: Seq<char>,
) -> bool {
    in_selection(cipher, left, folders) && found(cipher, query)
}

/// The listed items, in the order of the vault.
pub open spec fn listed(
    ciphers: Seq<CipherSync>,
    left: usize,
    folders: Seq<FolderSync>,
    query: Seq<char>,
) -> Seq<CipherSync>
    decreases ciphers.len(),
{
    if ciphers.len() == 0 {
        Seq::empty()
    } else {
        let before = listed(ciphers.drop_last(), left, folders, query);
        if is_listed(ciphers.last(), left, folders, query) {
            before.push(ciphers.last())
        } else {
            before
        }
    }
}

impl Tui {
    /// The items that the middle panel lists.
    pub open spec fn items(self) -> Seq<CipherSync> {
        listed(self.ciphers, chosen(self.left), self.folders, self.query)
    }
}

// ---------------------------------------------------------------------------
// What keys do
// ---------------------------------------------------------------------------
/// A text without its last character.
pub open spec fn shortened(s: Seq<char>) -> Seq<char> {
    if s.len() > 0 {
        s.drop_last()
    } else {
        s
    }
}

/// Puts a text into the input that has the focus.
pub open spec fn with_input(tui: Tui, f: spec_fn(Seq<char>) -> Seq<char>) -> Tui {
    match tui.focus {
        0 => Tui { email: f(tui.email), ..tui },
        1 => Tui { password: f(tui.password), ..tui },
        2 => Tui { server: f(tui.server), ..tui },
        _ => tui,
    }
}

/// A key on the login screen.
pub open spec fn on_login_key(tui: Tui, key: Key, control: bool) -> (Tui, Wish) {
    match key {
        Key::Esc => (tui, Wish::Quit),
        Key::Tab => (Tui { focus: ((tui.focus + 1) % 3) as usize, ..tui }, Wish::Nothing),
        Key::BackTab => (Tui { focus: ((tui.focus + 2) % 3) as usize, ..tui }, Wish::Nothing),
        Key::Enter => if tui.focus == 2 || control {
            (tui, Wish::Login)
        } else {
            (Tui { focus: ((tui.focus + 1) % 3) as usize, ..tui }, Wish::Nothing)
        },
        Key::Char(c) => (with_input(tui, |s: Seq<char>| s.push(c)), Wish::Nothing),
        Key::Backspace => (with_input(tui, |s: Seq<char>| shortened(s)), Wish::Nothing),
        _ => (tui, Wish::Nothing),
    }
}

/// The interface after a logout: nothing of the user is left.
pub open spec fn logged_out(tui: Tui, now: u128) -> Tui {
    Tui {
        state: Screen::Login,
        active_panel: ActivePanel::Left,
        email: Seq::empty(),
        password: Seq::empty(),
        keys: None,
        user_id: None,
        folders: Seq::empty(),
        ciphers: Seq::empty(),
        ssh_keys: Seq::empty(),
        ..tui
    }.saying("Logged out successfully."@, now)
}

/// A key on the lock screen.
pub open spec fn on_lock_key(tui: Tui, key: Key, now: u128) -> (Tui, Wish) {
    match key {
        Key::Esc => (logged_out(tui, now), Wish::Logout),
        Key::Enter => (tui, Wish::Unlock),
        Key::Char(c) => (Tui { password: tui.password.push(c), ..tui }, Wish::Nothing),
        Key::Backspace => (Tui { password: shortened(tui.password), ..tui }, Wish::Nothing),
        _ => (tui, Wish::Nothing),
    }
}

/// A key in the search input.
pub open spec fn on_search_key(tui: Tui, key: Key) -> Tui {
    match key {
        Key::Esc | Key::Enter => Tui { active_panel: ActivePanel::Middle, ..tui },
        Key::Char(c) => Tui { query: tui.query.push(c), middle: Some(0), ..tui },
        Key::Backspace => Tui { query: shortened(tui.query), middle: Some(0), ..tui },
        _ => tui,
    }
}

/// The panel behind a panel.
pub open spec fn next_panel(panel: ActivePanel) -> ActivePanel {
    match panel {
        ActivePanel::Left => ActivePanel::Middle,
        ActivePanel::Middle => ActivePanel::Right,
        ActivePanel::Right => ActivePanel::Left,
        ActivePanel::Search => ActivePanel::Middle,
    }
}

/// The panel before a panel.
pub open spec fn previous_panel(panel: ActivePanel) -> ActivePanel {
    match panel {
        ActivePanel::Left => ActivePanel::Right,
        ActivePanel::Middle => ActivePanel::Left,
        ActivePanel::Right => ActivePanel::Middle,
        ActivePanel::Search => ActivePanel::Left,
    }
}

/// One line up in the active panel.
pub open spec fn moved_up(tui: Tui) -> Tui {
    match tui.active_panel {
        ActivePanel::Left => if chosen(tui.left) > 0 {
            Tui { left: Some((chosen(tui.left) - 1) as usize), middle: Some(0), ..tui }
        } else {
            tui
        },
        ActivePanel::Middle => if chosen(tui.middle) > 0 {
            Tui { middle: Some((chosen(tui.middle) - 1) as usize), ..tui }
        } else {
            tui
        },
        _ => tui,
    }
}

/// One line down in the active panel.
pub open spec fn moved_down(tui: Tui) -> Tui {
    match tui.active_panel {
        ActivePanel::Left => if chosen(tui.left) + 1 < CATEGORIES + tui.folders.len() {
            Tui { left: Some((chosen(tui.left) + 1) as usize), middle: Some(0), ..tui }
        } else {
            tui
        },
        ActivePanel::Middle => if chosen(tui.middle) + 1 < tui.items().len() {
            Tui { middle: Some((chosen(tui.middle) + 1) as usize), ..tui }
        } else {
            tui
        },
        _ => tui,
    }
}

/// The interface after the vault was locked: the keys are gone.
pub open spec fn locked(tui: Tui, now: u128) -> Tui {
    Tui { keys: None, state: Screen::Lock, ..tui }.saying("Vault locked."@, now)
}

/// A key on the dashboard.
pub open spec fn on_dashboard_key(tui: Tui, key: Key, now: u128) -> (Tui, Wish) {
    if tui.active_panel == ActivePanel::Search {
        (on_search_key(tui, key), Wish::Nothing)
    } else {
        match key {
            Key::Esc => (tui, Wish::Quit),
            Key::Tab => (
                Tui { active_panel: next_panel(tui.active_panel), ..tui },
                Wish::Nothing,
            ),
            Key::BackTab => (
                Tui { active_panel: previous_panel(tui.active_panel), ..tui },
                Wish::Nothing,
            ),
            Key::Up => (moved_up(tui), Wish::Nothing),
            Key::Down => (moved_down(tui), Wish::Nothing),
            Key::Char(c) => if c == 'q' {
                (tui, Wish::Quit)
            } else if c == '/' {
                (Tui { active_panel: ActivePanel::Search, ..tui }, Wish::Nothing)
            } else if c == 's' {
                (tui.saying("Syncing with Bitwarden server..."@, now), Wish::Sync)
            } else if c == 'o' {
                (Tui { mask: !tui.mask, ..tui }, Wish::Nothing)
            } else if c == 'l' {
                (locked(tui, now), Wish::Nothing)
            } else if c == 'L' {
                (logged_out(tui, now), Wish::Logout)
            } else if c == 'k' {
                (moved_up(tui), Wish::Nothing)
            } else if c == 'j' {
                (moved_down(tui), Wish::Nothing)
            } else {
                (tui, Wish::Nothing)
            },
            _ => (tui, Wish::Nothing),
        }
    }
}

/// A key on the error screen.
pub open spec fn on_error_key(tui: Tui, key: Key) -> (Tui, Wish) {
    if key == Key::Esc || key == Key::Char('q') {
        (tui, Wish::Quit)
    } else {
        (Tui { state: Screen::Dashboard, ..tui }, Wish::Nothing)
    }
}

/// A key, pressed at `now`.
pub open spec fn on_key(tui: Tui, key: Key, control: bool, now: u128) -> (Tui, Wish) {
    if key == Key::Char('q') && control {
        (tui, Wish::Quit)
    } else {
        match tui.state {
            Screen::Login => on_login_key(tui, key, control),
            Screen::Lock => on_lock_key(tui, key, now),
            Screen::Dashboard => on_dashboard_key(tui, key, now),
            Screen::Error(_) => on_error_key(tui, key),
        }
    }
}

/// Takes the last character off a text.
fn shorten(s: &mut String)
    ensures
        final(s)@ == shortened(old(s)@),
{
    let chars = text::chars_of(s);
    if chars.len() > 0 {
        *s = text::string_of(&chars, 0, chars.len() - 1);
        assert(s@ =~= old(s)@.drop_last());
    }
}

fn holds_query(s: &Option<String>, query: &str) -> (r: bool)
    ensures
        r == mentions(*s, query@),
{
    match s {
        Some(s) => text::contains(&s.as_str().to_lowercase(), &query.to_lowercase()),
        None => false,
    }
}

fn list_line(selected: Option<usize>) -> (r: usize)
    ensures
        r == chosen(selected),
{
    match selected {
        Some(i) => i,
        None => 0,
    }
}

impl App {
    /// The interface before anything is loaded.
    pub fn new(server_url: &str) -> (r: App)
        ensures
            r@ == first_look(server_url@),
            r@.valid(),
    {
        let app = App {
            state: AppState::Lock,
            active_panel: ActivePanel::Left,
            email_input: String::new(),
            password_input: String::new(),
            server_input: server_url.to_owned(),
            auth_focus: 0,
            keys: None,
            user_id: None,
            folders: Vec::new(),
            ciphers: Vec::new(),
            decrypted_keys: Vec::new(),
            search_query: String::new(),
            left_selected: Some(0),
            middle_selected: None,
            mask_secrets: true,
            status_message: None,
        };
        assert(app@ =~= first_look(server_url@));
        app
    }

    /// Shows a status message.
    pub fn set_status(&mut self, message: &str, now: u128)
        ensures
            final(self)@ == old(self)@.saying(message@, now),
    {
        self.status_message = Some((message.to_owned(), now));
    }

    /// Drops a status message that was shown for more than four seconds.
    pub fn check_status_expiry(&mut self, now: u128)
        ensures
            final(self)@ == match old(self)@.status {
                Some((_, time)) => if now - time > 4_000_000_000 {
                    Tui { status: None, ..old(self)@ }
                } else {
                    old(self)@
                },
                None => old(self)@,
            },
    {
        let expired = match &self.status_message {
            Some((_, time)) => now > *time && now - *time > 4_000_000_000,
            None => false,
        };
        if expired {
            self.status_message = None;
        }
    }

    fn matches_filter(&self, cipher: &CipherSync) -> (r: bool)
        ensures
            r == in_selection(*cipher, chosen(self@.left), self@.folders),
    {
        let left: usize = list_line(self.left_selected);
        if left < CATEGORIES {
            if left == 0 {
                true
            } else if left == 1 {
                cipher.favorite
            } else if left == 2 {
                cipher.kind == 1
            } else if left == 3 {
                cipher.kind == 3
            } else if left == 4 {
                cipher.kind == 4
            } else {
                cipher.kind == 2
            }
        } else if left - CATEGORIES < self.folders.len() {
            match &cipher.folder_id {
                Some(id) => text::same(id, &self.folders[left - CATEGORIES].id),
                None => false,
            }
        } else {
            true
        }
    }

    fn is_listed(&self, cipher: &CipherSync) -> (r: bool)
        ensures
            r == is_listed(*cipher, chosen(self@.left), self@.folders, self@.query),
    {
        if !self.matches_filter(cipher) {
            return false;
        }
        if text::chars_of(&self.search_query).len() == 0 {
            return true;
        }
        holds_query(&cipher.name, &self.search_query) || match &cipher.login {
            Some(login) => holds_query(&login.username, &self.search_query),
            None => false,
        }
    }

    /// The items of the selected category or folder that the search finds.
    pub fn get_filtered_ciphers(&self) -> (r: Vec<&CipherSync>)
        ensures
            r@.map_values(|c: &CipherSync| *c) == self@.items(),
    {
        let ghost left = chosen(self@.left);
        let ghost folders = self@.folders;
        let ghost query = self@.query;
        let mut items: Vec<&CipherSync> = Vec::new();
        assert(self@.ciphers.take(0) =~= Seq::<CipherSync>::empty());
        assert(items@.map_values(|c: &CipherSync| *c) =~= Seq::<CipherSync>::empty());
        for i in 0..self.ciphers.len()
            invariant
                left == chosen(self@.left),
                folders == self@.folders,
                query == self@.query,
                items@.map_values(|c: &CipherSync| *c) == listed(
                    self@.ciphers.take(i as int),
                    left,
                    folders,
                    query,
                ),
        {
            assert(self@.ciphers.take(i + 1).drop_last() =~= self@.ciphers.take(i as int));
            let cipher = &self.ciphers[i];
            if self.is_listed(cipher) {
                let ghost before = items@.map_values(|c: &CipherSync| *c);
                items.push(cipher);
                assert(items@.map_values(|c: &CipherSync| *c) =~= before.push(*cipher));
            }
        }
        assert(self@.ciphers.take(self.ciphers@.len() as int) =~= self@.ciphers);
        items
    }

    /// Forgets the user.
    pub fn handle_tui_logout(&mut self, now: u128)
        ensures
            final(self)@ == logged_out(old(self)@, now),
    {
        self.keys = None;
        self.user_id = None;
        self.ciphers = Vec::new();
        self.folders = Vec::new();
        self.decrypted_keys = Vec::new();
        self.email_input = String::new();
        self.password_input = String::new();
        self.state = AppState::Login;
        self.active_panel = ActivePanel::Left;
        self.set_status("Logged out successfully.", now);
        assert(self@ =~= logged_out(old(self)@, now));
    }

    fn handle_login_keys(&mut self, key: Key, control: bool) -> (r: Wish)
        requires
            old(self)@.valid(),
        ensures
            (final(self)@, r) == on_login_key(old(self)@, key, control),
    {
        match key {
            Key::Esc => {
                return Wish::Quit;
            },
            Key::Tab => {
                self.auth_focus = (self.auth_focus + 1) % 3;
            },
            Key::BackTab => {
                self.auth_focus = (self.auth_focus + 2) % 3;
            },
            Key::Enter => {
                if self.auth_focus == 2 || control {
                    return Wish::Login;
                }
                self.auth_focus = (self.auth_focus + 1) % 3;
            },
            Key::Char(c) => {
                if self.auth_focus == 0 {
                    self.email_input.push(c);
                } else if self.auth_focus == 1 {
                    self.password_input.push(c);
                } else {
                    self.server_input.push(c);
                }
            },
            Key::Backspace => {
                if self.auth_focus == 0 {
                    shorten(&mut self.email_input);
                } else if self.auth_focus == 1 {
                    shorten(&mut self.password_input);
                } else {
                    shorten(&mut self.server_input);
                }
            },
            _ => {},
        }
        Wish::Nothing
    }

    fn handle_lock_keys(&mut self, key: Key, now: u128) -> (r: Wish)
        ensures
            (final(self)@, r) == on_lock_key(old(self)@, key, now),
    {
        match key {
            Key::Esc => {
                self.handle_tui_logout(now);
                return Wish::Logout;
            },
            Key::Enter => {
                return Wish::Unlock;
            },
            Key::Char(c) => {
                self.password_input.push(c);
            },
            Key::Backspace => {
                shorten(&mut self.password_input);
            },
            _ => {},
        }
        Wish::Nothing
    }

    fn handle_search_keys(&mut self, key: Key)
        ensures
            final(self)@ == on_search_key(old(self)@, key),
    {
        match key {
            Key::Esc | Key::Enter => {
                self.active_panel = ActivePanel::Middle;
            },
            Key::Char(c) => {
                self.search_query.push(c);
                self.middle_selected = Some(0);
            },
            Key::Backspace => {
                shorten(&mut self.search_query);
                self.middle_selected = Some(0);
            },
            _ => {},
        }
    }

    fn move_up(&mut self)
        ensures
            final(self)@ == moved_up(old(self)@),
    {
        match self.active_panel {
            ActivePanel::Left => {
                let line: usize = list_line(self.left_selected);
                if line > 0 {
                    self.left_selected = Some(line - 1);
                    self.middle_selected = Some(0);
                }
            },
            ActivePanel::Middle => {
                let line: usize = list_line(self.middle_selected);
                if line > 0 {
                    self.middle_selected = Some(line - 1);
                }
            },
            _ => {},
        }
    }

    fn move_down(&mut self)
        requires
            old(self)@.valid(),
        ensures
            final(self)@ == moved_down(old(self)@),
    {
        match self.active_panel {
            ActivePanel::Left => {
                let line: usize = list_line(self.left_selected);
                if line < CATEGORIES - 1 || line - (CATEGORIES - 1) < self.folders.len() {
                    self.left_selected = Some(line + 1);
                    self.middle_selected = Some(0);
                }
            },
            ActivePanel::Middle => {
                let line: usize = list_line(self.middle_selected);
                let count: usize = {
                    let items = self.get_filtered_ciphers();
                    assert(items@.len() == items@.map_values(|c: &CipherSync| *c).len());
                    items.len()
                };
                if count > 0 && line < count - 1 {
                    self.middle_selected = Some(line + 1);
                }
            },
            _ => {},
        }
    }

    fn handle_dashboard_keys(&mut self, key: Key, now: u128) -> (r: Wish)
        requires
            old(self)@.valid(),
        ensures
            (final(self)@, r) == on_dashboard_key(old(self)@, key, now),
    {
        if self.active_panel == ActivePanel::Search {
            self.handle_search_keys(key);
            return Wish::Nothing;
        }
        match key {
            Key::Esc => {
                return Wish::Quit;
            },
            Key::Tab => {
                self.active_panel = match self.active_panel {
                    ActivePanel::Left => ActivePanel::Middle,
                    ActivePanel::Middle => ActivePanel::Right,
                    ActivePanel::Right => ActivePanel::Left,
                    ActivePanel::Search => ActivePanel::Middle,
                };
            },
            Key::BackTab => {
                self.active_panel = match self.active_panel {
                    ActivePanel::Left => ActivePanel::Right,
                    ActivePanel::Middle => ActivePanel::Left,
                    ActivePanel::Right => ActivePanel::Middle,
                    ActivePanel::Search => ActivePanel::Left,
                };
            },
            Key::Up => {
                self.move_up();
            },
            Key::Down => {
                self.move_down();
            },
            Key::Char(c) => {
                if c == 'q' {
                    return Wish::Quit;
                } else if c == '/' {
                    self.active_panel = ActivePanel::Search;
                } else if c == 's' {
                    self.set_status("Syncing with Bitwarden server...", now);
                    return Wish::Sync;
                } else if c == 'o' {
                    self.mask_secrets = !self.mask_secrets;
                } else if c == 'l' {
                    self.keys = None;
                    self.state = AppState::Lock;
                    self.set_status("Vault locked.", now);
                } else if c == 'L' {
                    self.handle_tui_logout(now);
                    return Wish::Logout;
                } else if c == 'k' {
                    self.move_up();
                } else if c == 'j' {
                    self.move_down();
                }
            },
            _ => {},
        }
        Wish::Nothing
    }

    /// Takes a key that was pressed at `now`.
    pub fn handle_key_input(&mut self, key: Key, control: bool, now: u128) -> (r: Wish)
        requires
            old(self)@.valid(),
        ensures
            (final(self)@, r) == on_key(old(self)@, key, control, now),
            final(self)@.valid(),
    {
        if key == Key::Char('q') && control {
            return Wish::Quit;
        }
        match &self.state {
            AppState::Login => self.handle_login_keys(key, control),
            AppState::Lock => self.handle_lock_keys(key, now),
            AppState::Dashboard => self.handle_dashboard_keys(key, now),
            AppState::Error(_) => {
                if key == Key::Esc || key == Key::Char('q') {
                    return Wish::Quit;
                }
                self.state = AppState::Dashboard;
                Wish::Nothing
            },
        }
    }
}

// ---------------------------------------------------------------------------
// What finished work does
// ---------------------------------------------------------------------------
/// Whether a session is that of a user: one without an address is not.
pub open spec fn is_signed_in(session: Option<Session>) -> bool {
    session matches Some(session) && session.email is Some
}

/// The interface once the saved keys and the session were looked up: with both the dashboard is
/// open, with a session of a user alone the lock screen, else the login screen.
pub open spec fn resumed(tui: Tui, saved: Option<Keys>, session: Option<Session>) -> Tui {
    let keys = match saved {
        Some(keys) => Some(keys),
        None => tui.keys,
    };
    match session {
        Some(session) => if session.email is None {
            Tui { keys, state: Screen::Login, ..tui }
        } else if saved is Some {
            Tui {
                keys,
                user_id: text::option_view(session.user_id),
                state: Screen::Dashboard,
                ..tui
            }
        } else {
            Tui {
                email: match session.email {
                    Some(email) => email@,
                    None => Seq::empty(),
                },
                user_id: text::option_view(session.user_id),
                state: Screen::Lock,
                ..tui
            }
        },
        None => Tui { keys, state: Screen::Login, ..tui },
    }
}

/// The interface with a vault in it: nothing changes without keys or without a user; SSH keys
/// are only replaced by those of a vault that could be loaded.
pub open spec fn filled(
    tui: Tui,
    folders: Seq<FolderSync>,
    ciphers: Seq<CipherSync>,
    vault: Result<SyncResponse, String>,
) -> Tui {
    match (tui.keys, tui.user_id) {
        (Some(keys), Some(_)) => Tui {
            folders,
            ciphers,
            ssh_keys: match vault {
                Ok(sync) => vault::vault_ssh_keys(sync, (keys.0@, keys.1@)),
                Err(_) => tui.ssh_keys,
            },
            ..tui
        },
        _ => tui,
    }
}

/// The interface once the vault is open.
pub open spec fn opened(tui: Tui, keys: Keys) -> Tui {
    Tui { keys: Some(keys), password: Seq::empty(), state: Screen::Dashboard, ..tui }
}

/// Whether a text is blank.
fn is_blank(s: &str) -> (r: bool)
    ensures
        r == (text::trimmed(s@).len() == 0),
{
    text::chars_of(&text::trim(s)).len() == 0
}

impl App {
    /// Takes up the saved keys and the session; whether the dashboard is open.
    pub fn try_load_saved_keys(&mut self, saved: Option<Keys>, session: &Option<Session>) -> (r:
        bool)
        ensures
            final(self)@ == resumed(old(self)@, saved, *session),
            r == (saved is Some && is_signed_in(*session)),
    {
        let unlocked = saved.is_some();
        if unlocked {
            self.keys = saved;
        }
        let session = match session {
            Some(session) => session,
            None => {
                self.state = AppState::Login;
                return false;
            },
        };
        let email = match &session.email {
            Some(email) => email,
            None => {
                self.state = AppState::Login;
                return false;
            },
        };
        self.user_id = text::copy_option(&session.user_id);
        if unlocked {
            self.state = AppState::Dashboard;
        } else {
            self.email_input = email.clone();
            self.state = AppState::Lock;
        }
        unlocked
    }

    /// Takes in the folders and items of the user, and the SSH keys of the cached vault.
    pub fn load_vault_data(
        &mut self,
        folders: Vec<FolderSync>,
        ciphers: Vec<CipherSync>,
        vault: &Result<SyncResponse, String>,
    )
        requires
            old(self)@.valid(),
            CATEGORIES + folders@.len() <= usize::MAX,
        ensures
            final(self)@ == filled(old(self)@, folders@, ciphers@, *vault),
            final(self)@.valid(),
    {
        let keys: Keys = match self.keys {
            Some(keys) => keys,
            None => {
                return;
            },
        };
        if self.user_id.is_none() {
            return;
        }
        self.folders = folders;
        self.ciphers = ciphers;
        match vault {
            Ok(sync) => {
                self.decrypted_keys = vault::decrypt_ssh_keys(sync, &keys.0, &keys.1);
            },
            Err(_) => {},
        }
    }

    /// Refuses a login without an address or a password.
    pub fn check_login_inputs(&self) -> (r: Result<(), String>)
        ensures
            text::result_view(r) == if text::trimmed(self@.email).len() == 0 || text::trimmed(
                self@.password,
            ).len() == 0 {
                Err("Email and Password cannot be empty"@)
            } else {
                Ok(())
            },
    {
        if is_blank(&self.email_input) || is_blank(&self.password_input) {
            Err("Email and Password cannot be empty".to_owned())
        } else {
            Ok(())
        }
    }

    /// Refuses to unlock without a password.
    pub fn check_unlock_input(&self) -> (r: Result<(), String>)
        ensures
            text::result_view(r) == if text::trimmed(self@.password).len() == 0 {
                Err("Password cannot be empty"@)
            } else {
                Ok(())
            },
    {
        if is_blank(&self.password_input) {
            Err("Password cannot be empty".to_owned())
        } else {
            Ok(())
        }
    }

    /// Shows an error.
    pub fn fail(&mut self, error: String)
        ensures
            final(self)@ == (Tui { state: Screen::Error(error@), ..old(self)@ }),
    {
        self.state = AppState::Error(error);
    }

    /// Opens the dashboard after a login.
    pub fn handle_tui_login(&mut self, keys: Keys, user_id: Option<String>)
        ensures
            final(self)@ == opened(
                Tui { user_id: text::option_view(user_id), ..old(self)@ },
                keys,
            ),
    {
        self.keys = Some(keys);
        self.user_id = user_id;
        self.password_input = String::new();
        self.state = AppState::Dashboard;
        assert(self.password_input@ =~= Seq::<char>::empty());
    }

    /// Opens the dashboard after the vault was unlocked.
    pub fn handle_tui_unlock(&mut self, keys: Keys)
        ensures
            final(self)@ == opened(old(self)@, keys),
    {
        self.keys = Some(keys);
        self.password_input = String::new();
        self.state = AppState::Dashboard;
        assert(self.password_input@ =~= Seq::<char>::empty());
    }

    /// Shows how a sync ended.
    pub fn finish_sync(&mut self, result: &Result<(), String>, now: u128)
        ensures
            final(self)@ == match *result {
                Ok(_) => old(self)@.saying("Sync completed successfully."@, now),
                Err(e) => Tui { state: Screen::Error("Sync failed: "@ + e@), ..old(self)@ },
            },
    {
        match result {
            Ok(_) => {
                self.set_status("Sync completed successfully.", now);
            },
            Err(e) => {
                self.state = AppState::Error(text::join2("Sync failed: ", e));
            },
        }
    }
}

/// What an unlock needs next.
#[derive(Debug)]
pub enum UnlockStep {
    /// Prove the password to the server by its hash; the master key unwraps what it answers.
    Verify { master_key: [u8; 32], hash: String },
    /// Open the cached vault: the server did not answer.
    ReadCache,
}

/// The session that an unlock is for.
pub fn session_to_unlock(session: Option<Session>) -> (r: Result<Session, String>)
    ensures
        match session {
            Some(session) => r == Ok::<Session, String>(session),
            None => r matches Err(e) && e@ == "No session found. Please log in first."@,
        },
{
    match session {
        Some(session) => Ok(session),
        None => Err("No session found. Please log in first.".to_owned()),
    }
}

/// Chooses how to unlock, once the server was asked for its key derivation settings.
pub fn choose_unlock(
    reply: &Result<PreloginResponse, String>,
    password: &str,
    email: &str,
) -> (r: Result<UnlockStep, String>)
    requires
        commands::online_costs_fit(*reply),
    ensures
        match *reply {
            Err(_) => r matches Ok(UnlockStep::ReadCache),
            Ok(kdf) => match crypto::master_key(
                password@,
                email@,
                kdf.kdf,
                kdf.kdf_iterations,
                kdf.kdf_memory,
                kdf.kdf_parallelism,
            ) {
                Ok(key) => r matches Ok(UnlockStep::Verify { master_key, hash }) && master_key@
                    == key && hash@ == crypto::login_hash(key, password@),
                Err(fault) => r matches Err(e) && e@ == fault,
            },
        },
{
    match reply {
        Err(_) => Ok(UnlockStep::ReadCache),
        Ok(kdf) => match login::password_credentials(password, email, kdf) {
            Ok((master_key, hash)) => Ok(UnlockStep::Verify { master_key, hash }),
            Err(e) => Err(e),
        },
    }
}

/// The keys that the answer of the server to the proof of the password brings.
pub fn accept_verification(
    master_key: &[u8; 32],
    reply: &Result<TokenResponse, String>,
) -> (r: Result<Keys, String>)
    ensures
        crypto::keys_result_view(r) == match *reply {
            Ok(resp) => crypto::symmetric_key(master_key@, resp.key@),
            Err(e) => Err("Password verification failed: "@ + e@),
        },
{
    match reply {
        Ok(resp) => crypto::decrypt_symmetric_key(master_key, &resp.key),
        Err(e) => Err(text::join2("Password verification failed: ", e)),
    }
}

/// The timeout of a session that begins in the interface.
pub const DEFAULT_TIMEOUT: &'static str = "15m";

/// The session of a login in the interface: the timeout and its action are kept from a session
/// before it.
pub fn begin_session(
    existing: &Option<Session>,
    email: &String,
    device_id: String,
    resp: &TokenResponse,
    server_url: &String,
) -> (r: Session)
    ensures
        r.user_id is None,
        r.email == Some(*email),
        r.device_id == device_id,
        r.access_token == Some(resp.access_token),
        r.refresh_token == resp.refresh_token,
        r.last_sync_time is None,
        r.server_url == Some(*server_url),
        r.timeout@ == match *existing {
            Some(session) => session.timeout@,
            None => DEFAULT_TIMEOUT@,
        },
        r.timeout_action == match *existing {
            Some(session) => session.timeout_action,
            None => TimeoutAction::Lock,
        },
{
    let (timeout, timeout_action) = match existing {
        Some(session) => (session.timeout.clone(), session.timeout_action),
        None => (DEFAULT_TIMEOUT.to_owned(), TimeoutAction::Lock),
    };
    Session {
        user_id: None,
        email: Some(email.clone()),
        device_id,
        access_token: Some(resp.access_token.clone()),
        refresh_token: text::copy_option(&resp.refresh_token),
        last_sync_time: None,
        server_url: Some(server_url.clone()),
        timeout,
        timeout_action,
    }
}

// ---------------------------------------------------------------------------
// Laws
// ---------------------------------------------------------------------------
/// Only items of the vault are listed, only where the selection and the search let them, and no
/// more than the vault holds.
pub proof fn only_matching_items_are_listed(
    ciphers: Seq<CipherSync>,
    left: usize,
    folders: Seq<FolderSync>,
    query: Seq<char>,
    i: int,
)
    requires
        0 <= i < listed(ciphers, left, folders, query).len(),
    ensures
        is_listed(listed(ciphers, left, folders, query)[i], left, folders, query),
        ciphers.contains(listed(ciphers, left, folders, query)[i]),
        listed(ciphers, left, folders, query).len() <= ciphers.len(),
    decreases ciphers.len(),
{
    let before = listed(ciphers.drop_last(), left, folders, query);
    if before.len() > 0 {
        let j = if i < before.len() {
            i
        } else {
            0
        };
        only_matching_items_are_listed(ciphers.drop_last(), left, folders, query, j);
    }
    if i < before.len() {
        let k = choose|k: int|
            0 <= k < ciphers.drop_last().len() && ciphers.drop_last()[k] == before[i];
        assert(ciphers[k] == before[i]);
    } else {
        assert(ciphers[ciphers.len() - 1] == ciphers.last());
    }
}

/// Every item that the selection and the search let through is listed.
pub proof fn matching_items_are_listed(
    ciphers: Seq<CipherSync>,
    left: usize,
    folders: Seq<FolderSync>,
    query: Seq<char>,
    k: int,
)
    requires
        0 <= k < ciphers.len(),
        is_listed(ciphers[k], left, folders, query),
    ensures
        listed(ciphers, left, folders, query).contains(ciphers[k]),
    decreases ciphers.len(),
{
    let before = listed(ciphers.drop_last(), left, folders, query);
    let after = listed(ciphers, left, folders, query);
    if k < ciphers.len() - 1 {
        matching_items_are_listed(ciphers.drop_last(), left, folders, query, k);
        let i = choose|i: int| 0 <= i < before.len() && before[i] == ciphers[k];
        assert(after[i] == ciphers[k]);
    } else {
        assert(after.last() == ciphers[k]);
    }
}

/// The first category without a search lists the whole vault.
pub proof fn all_items_are_listed(ciphers: Seq<CipherSync>, folders: Seq<FolderSync>)
    ensures
        listed(ciphers, 0, folders, Seq::empty()) == ciphers,
    decreases ciphers.len(),
{
    if ciphers.len() > 0 {
        all_items_are_listed(ciphers.drop_last(), folders);
        assert(ciphers.drop_last().push(ciphers.last()) =~= ciphers);
    }
}

/// A step back undoes a step to the next input, and to the next panel.
pub proof fn stepping_back_undoes_stepping_on(tui: Tui, now: u128)
    requires
        tui.valid(),
    ensures
        on_login_key(on_login_key(tui, Key::Tab, false).0, Key::BackTab, false).0 == tui,
        tui.active_panel != ActivePanel::Search ==> on_dashboard_key(
            on_dashboard_key(tui, Key::Tab, now).0,
            Key::BackTab,
            now,
        ).0 == tui,
{
}

/// Showing and masking secrets again changes nothing.
pub proof fn masking_twice_changes_nothing(tui: Tui, now: u128)
    requires
        tui.active_panel != ActivePanel::Search,
    ensures
        on_dashboard_key(on_dashboard_key(tui, Key::Char('o'), now).0, Key::Char('o'), now).0
            == tui,
{
}

/// No key brings keys of the vault: after any key they are the same or gone.
pub proof fn keys_never_come_from_the_keyboard(tui: Tui, key: Key, control: bool, now: u128)
    ensures
        on_key(tui, key, control, now).0.keys == tui.keys || on_key(tui, key, control, now).0.keys
            is None,
{
}

/// Locking and logging out drop the keys; logging out leaves nothing of the user's vault.
pub proof fn leaving_drops_the_keys(tui: Tui, now: u128)
    requires
        tui.state is Dashboard,
        tui.active_panel != ActivePanel::Search,
    ensures
        on_key(tui, Key::Char('l'), false, now).0.keys is None,
        on_key(tui, Key::Char('l'), false, now).0.state is Lock,
        ({
            let (after, wish) = on_key(tui, Key::Char('L'), false, now);
            &&& wish == Wish::Logout
            &&& after.state is Login
            &&& after.keys is None
            &&& after.user_id is None
            &&& after.email.len() == 0
            &&& after.password.len() == 0
            &&& after.ciphers.len() == 0
            &&& after.folders.len() == 0
            &&& after.ssh_keys.len() == 0
        }),
{
}

/// The selection of the left panel stays on a category or a folder.
pub proof fn the_selection_stays_in_bounds(tui: Tui, key: Key, control: bool, now: u128)
    requires
        chosen(tui.left) < CATEGORIES + tui.folders.len(),
        on_key(tui, key, control, now).1 != Wish::Logout,
    ensures
        ({
            let after = on_key(tui, key, control, now).0;
            chosen(after.left) < CATEGORIES + after.folders.len()
        }),
{
}

/// The key moves a selection one line up.
pub open spec fn goes_up(key: Key) -> bool {
    key == Key::Up || key == Key::Char('k')
}

/// The key moves a selection one line down.
pub open spec fn goes_down(key: Key) -> bool {
    key == Key::Down || key == Key::Char('j')
}

/// In the left panel a key moves the selection by one line, and not past either end; the middle
/// panel starts over exactly when the selection changed, and nothing else changes.
pub proof fn the_left_selection_moves_by_one(tui: Tui, i: usize, key: Key, now: u128)
    requires
        tui.valid(),
        tui.state is Dashboard,
        tui.active_panel == ActivePanel::Left,
        tui.left == Some(i),
        i < CATEGORIES + tui.folders.len(),
        goes_up(key) || goes_down(key),
    ensures
        ({
            let (after, wish) = on_key(tui, key, false, now);
            let last = CATEGORIES + tui.folders.len() - 1;
            &&& wish == Wish::Nothing
            &&& goes_up(key) ==> after.left == Some(
                if i == 0 {
                    0usize
                } else {
                    (i - 1) as usize
                },
            )
            &&& goes_down(key) ==> after.left == Some(
                if i == last {
                    i
                } else {
                    (i + 1) as usize
                },
            )
            &&& chosen(after.left) <= last
            &&& after.middle == if after.left == tui.left {
                tui.middle
            } else {
                Some(0usize)
            }
            &&& after == (Tui { left: after.left, middle: after.middle, ..tui })
        }),
{
}

} // verus!
