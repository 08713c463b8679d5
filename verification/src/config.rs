//! Settings of the user, the session with a server, and what both say of time.
use std::str::FromStr;
use vstd::prelude::*;
use vstd::string::*;
use vstd::utf8::*;

use crate::api::RefreshTokenResponse;
use crate::number;
use crate::primitives;
use crate::storage;
use crate::text;
use crate::tree;
use crate::tree::Tree;

verus! {

// ---------------------------------------------------------------------------
// Timeout settings
// ---------------------------------------------------------------------------
/// What happens to an unlocked vault after the timeout.
#[derive(Debug, Clone, Copy, PartialEq, Eq, Structural)]
pub enum TimeoutAction {
    Lock,
    Logout,
}

/// The action that a text names.
pub open spec fn action_named(s: Seq<char>) -> Result<TimeoutAction, Seq<char>> {
    if text::lowercase(s) == "lock"@ {
        Ok(TimeoutAction::Lock)
    } else if text::lowercase(s) == "logout"@ {
        Ok(TimeoutAction::Logout)
    } else {
        Err("Invalid timeout action '"@ + s + "'. Expected 'lock' or 'logout'"@)
    }
}

/// The name of an action.
pub open spec fn action_name(action: TimeoutAction) -> Seq<char> {
    match action {
        TimeoutAction::Lock => "Lock"@,
        TimeoutAction::Logout => "Logout"@,
    }
}

impl TimeoutAction {
    /// Reads an action, in any case.
    pub fn parse(s: &str) -> (r: Result<TimeoutAction, String>)
        ensures
            match r {
                Ok(action) => action_named(s@) == Ok::<TimeoutAction, Seq<char>>(action),
                Err(e) => action_named(s@) == Err::<TimeoutAction, Seq<char>>(e@),
            },
    {
        let lowered = s.to_lowercase();
        if text::same(&lowered, "lock") {
            Ok(TimeoutAction::Lock)
        } else if text::same(&lowered, "logout") {
            Ok(TimeoutAction::Logout)
        } else {
            Err(text::join3("Invalid timeout action '", s, "'. Expected 'lock' or 'logout'"))
        }
    }

    /// The name of the action.
    pub fn name(self) -> (r: String)
        ensures
            r@ == action_name(self),
    {
        match self {
            TimeoutAction::Lock => "Lock".to_owned(),
            TimeoutAction::Logout => "Logout".to_owned(),
        }
    }
}

impl FromStr for TimeoutAction {
    type Err = String;

    fn from_str(s: &str) -> (r: Result<Self, String>)
        ensures
            match r {
                Ok(action) => action_named(s@) == Ok::<TimeoutAction, Seq<char>>(action),
                Err(e) => action_named(s@) == Err::<TimeoutAction, Seq<char>>(e@),
            },
    {
        TimeoutAction::parse(s)
    }
}

/// A setting without the white space around it, in lower case.
pub open spec fn normalized(s: Seq<char>) -> Seq<char> {
    text::lowercase(text::trimmed(s))
}

/// Takes the white space around a setting away and lowers it.
pub fn normalize(s: &str) -> (r: String)
    ensures
        r@ == normalized(s@),
{
    text::trim(s).as_str().to_lowercase()
}

/// The digits of a duration and the seconds that its unit has; minutes where no unit is given.
pub open spec fn duration_parts(s: Seq<char>) -> (Seq<char>, nat) {
    if s.len() > 0 && s.last() == 's' {
        (s.drop_last(), 1)
    } else if s.len() > 0 && s.last() == 'm' {
        (s.drop_last(), 60)
    } else if s.len() > 0 && s.last() == 'h' {
        (s.drop_last(), 3600)
    } else if s.len() > 0 && s.last() == 'd' {
        (s.drop_last(), 86400)
    } else {
        (s, 60)
    }
}

/// The seconds of a number that `unit` multiplies, with `label` before the fault.
pub open spec fn scaled_seconds(label: Seq<char>, digits: Seq<char>, unit: nat) -> Result<
    Option<nat>,
    Seq<char>,
> {
    match number::unsigned_value(digits, u64::MAX as nat) {
        Ok(value) => Ok(Some(value * unit)),
        Err(fault) => Err(label + digits + "': "@ + number::fault_message(fault)),
    }
}

/// The seconds that a normalized timeout setting stands for; none for `never`, and none for
/// `on logout`, which holds until the user logs out.
pub open spec fn timeout_seconds(s: Seq<char>) -> Result<Option<nat>, Seq<char>> {
    if s == "never"@ || s == "on logout"@ {
        Ok(None)
    } else if s == "immediately"@ {
        Ok(Some(0))
    } else if text::found_at(s, "custom "@, 0) {
        scaled_seconds("Invalid custom seconds '"@, s.skip("custom "@.len() as int), 1)
    } else {
        let (digits, unit) = duration_parts(s);
        scaled_seconds("Invalid timeout duration value '"@, digits, unit)
    }
}

/// The seconds of a timeout setting, where there are any, fit in 64 bits.
pub open spec fn timeout_fits(s: Seq<char>) -> bool {
    timeout_seconds(s) matches Ok(Some(seconds)) ==> seconds <= u64::MAX
}

/// The outcome of reading a timeout, by its value.
pub open spec fn seconds_view(r: Result<Option<u64>, String>) -> Result<Option<nat>, Seq<char>> {
    match r {
        Ok(Some(seconds)) => Ok(Some(seconds as nat)),
        Ok(None) => Ok(None),
        Err(e) => Err(e@),
    }
}

/// The digits of a duration and the seconds of its unit.
fn split_duration(s: &str) -> (r: (String, u64))
    ensures
        r.0@ == duration_parts(s@).0,
        r.1 == duration_parts(s@).1,
        1 <= r.1 <= 86400,
{
    let chars = text::chars_of(s);
    let size: usize = chars.len();
    if size == 0 {
        return (s.to_owned(), 60);
    }
    let last = chars[size - 1];
    let unit: u64 = if last == 's' {
        1
    } else if last == 'm' {
        60
    } else if last == 'h' {
        3600
    } else if last == 'd' {
        86400
    } else {
        return (s.to_owned(), 60);
    };
    assert(s@.subrange(0, size - 1) =~= s@.drop_last());
    (text::string_of(&chars, 0, size - 1), unit)
}

/// Reads a number of units, or says that its seconds do not fit in 64 bits.
fn read_scaled(label: &str, digits: &str, unit: u64) -> (r: Option<Result<Option<u64>, String>>)
    requires
        unit >= 1,
    ensures
        match r {
            Some(outcome) => seconds_view(outcome) == scaled_seconds(label@, digits@, unit as nat),
            None => scaled_seconds(label@, digits@, unit as nat) matches Ok(Some(seconds))
                && seconds > u64::MAX,
        },
{
    match number::parse_unsigned(digits, u64::MAX) {
        Ok(value) => match value.checked_mul(unit) {
            Some(seconds) => Some(Ok(Some(seconds))),
            None => None,
        },
        Err(fault) => {
            let mut e = text::join3(label, digits, "': ");
            e.append(&number::fault_text(fault));
            Some(Err(e))
        },
    }
}

/// Reads a normalized timeout setting, or says that its seconds do not fit in 64 bits.
pub fn checked_duration(s: &str) -> (r: Option<Result<Option<u64>, String>>)
    ensures
        match r {
            Some(outcome) => seconds_view(outcome) == timeout_seconds(s@),
            None => !timeout_fits(s@),
        },
{
    if text::same(s, "never") || text::same(s, "on logout") {
        return Some(Ok(None));
    }
    if text::same(s, "immediately") {
        return Some(Ok(Some(0)));
    }
    if text::starts_with(s, "custom ") {
        let chars = text::chars_of(s);
        let prefix = text::chars_of("custom ");
        let digits = text::string_of(&chars, prefix.len(), chars.len());
        assert(digits@ =~= s@.skip("custom "@.len() as int));
        return read_scaled("Invalid custom seconds '", &digits, 1);
    }
    let (digits, unit) = split_duration(s);
    read_scaled("Invalid timeout duration value '", &digits, unit)
}

/// Reads a normalized timeout setting.
pub fn parse_duration(s: &str) -> (r: Result<Option<u64>, String>)
    requires
        timeout_fits(s@),
    ensures
        seconds_view(r) == timeout_seconds(s@),
{
    match checked_duration(s) {
        Some(outcome) => outcome,
        None => Ok(None),
    }
}

/// The timeout under which the agent runs: the seconds of the setting, or none where the
/// setting is `never` or `on logout` or cannot be read.
pub open spec fn effective_seconds(timeout: Seq<char>) -> Option<nat> {
    match timeout_seconds(normalized(timeout)) {
        Ok(seconds) => seconds,
        Err(_) => None,
    }
}

/// The timeout under which the agent runs, or nothing where its seconds do not fit in 64 bits.
pub fn effective_timeout(timeout: &str) -> (r: Option<Option<u64>>)
    ensures
        match r {
            Some(seconds) => effective_seconds(timeout@) == match seconds {
                Some(seconds) => Some(seconds as nat),
                None => None,
            },
            None => !timeout_fits(normalized(timeout@)),
        },
{
    match checked_duration(&normalize(timeout)) {
        Some(Ok(seconds)) => Some(seconds),
        Some(Err(_)) => Some(None),
        None => None,
    }
}

/// Whether the setting keeps the keys on disk.
pub fn keeps_keys(timeout: &str) -> (r: bool)
    ensures
        r == (normalized(timeout@) == "unlocked"@),
{
    text::same(&normalize(timeout), "unlocked")
}

/// Whether the setting never locks.
pub fn never_locks(timeout: &str) -> (r: bool)
    ensures
        r == (normalized(timeout@) == "never"@),
{
    text::same(&normalize(timeout), "never")
}

// ---------------------------------------------------------------------------
// Tokens
// ---------------------------------------------------------------------------
/// The number of padding characters that a Base64 text of `size` bytes lacks.
pub open spec fn padding(size: nat) -> nat {
    ((4 - size % 4) % 4) as nat
}

/// The payload of a web token in the standard Base64 alphabet, padded.
pub open spec fn token_payload(token: Seq<char>) -> Option<Seq<char>> {
    let parts = text::split_on(token, '.');
    if parts.len() < 2 {
        None
    } else {
        let padded = parts[1] + text::repeated('=', padding(encode_utf8(parts[1]).len()));
        Some(text::with_char_replaced(text::with_char_replaced(padded, '-', '+'), '_', '/'))
    }
}

/// Takes the payload out of a web token.
pub fn find_token_payload(token: &str) -> (r: Option<String>)
    ensures
        text::option_view(r) == token_payload(token@),
{
    let parts = text::split(token, '.');
    if parts.len() < 2 {
        return None;
    }
    assert(parts.deep_view()[1] == parts@[1]@);
    let payload = &parts[1];
    let size: usize = payload.as_str().as_bytes().len();
    let missing: usize = (4 - size % 4) % 4;
    let padded = text::join2(payload, &text::repeat('=', missing));
    Some(text::replace_char(&text::replace_char(&padded, '-', '+'), '_', '/'))
}

/// Whether claims have run out at `now`: without an expiry they have, and with one they run
/// out a minute before it.
pub open spec fn claims_expired(claims: Option<tree::Shape>, now: i64) -> bool {
    match claims {
        None => true,
        Some(claims) => match tree::member_number(claims, "exp"@) {
            Some(exp) => now >= exp - 60,
            None => true,
        },
    }
}

/// Whether claims have run out at `now`.
pub fn check_claims(claims: &Option<Tree>, now: i64) -> (r: bool)
    ensures
        r == claims_expired(
            match *claims {
                Some(claims) => Some(tree::shape(claims)),
                None => None,
            },
            now,
        ),
{
    match claims {
        None => true,
        Some(claims) => match claims.get_number("exp") {
            Some(exp) => (now as i128) >= (exp as i128) - 60,
            None => true,
        },
    }
}

/// The claims of a web token.
pub open spec fn token_claims(token: Seq<char>) -> Option<tree::Shape> {
    match token_payload(token) {
        None => None,
        Some(payload) => match primitives::base64_decoded(payload) {
            Err(_) => None,
            Ok(bytes) => tree::json_bytes_shape(bytes),
        },
    }
}

/// Whether a token has run out at `now`; no token has.
pub open spec fn token_expired(token: Option<Seq<char>>, now: i64) -> bool {
    match token {
        None => true,
        Some(token) => claims_expired(token_claims(token), now),
    }
}

/// Whether a token has run out at `now`.
pub fn check_token(token: &Option<String>, now: i64) -> (r: bool)
    ensures
        r == token_expired(text::option_view(*token), now),
{
    let token = match token {
        None => {
            return true;
        },
        Some(token) => token,
    };
    match find_token_payload(token) {
        None => true,
        Some(payload) => match primitives::base64_decode(&payload) {
            Err(_) => true,
            Ok(bytes) => check_claims(&tree::parse_json_bytes(&bytes), now),
        },
    }
}

/// What to do for a valid access token.
#[derive(Debug)]
pub enum TokenStep {
    /// The token at hand is valid.
    Ready(String),
    /// The token has run out; this refresh token gets another.
    Refresh(String),
    /// There is no way to a valid token.
    Refused(String),
}

/// The texts of a [`TokenStep`].
pub enum TokenPlan {
    Ready(Seq<char>),
    Refresh(Seq<char>),
    Refused(Seq<char>),
}

impl View for TokenStep {
    type V = TokenPlan;

    open spec fn view(&self) -> TokenPlan {
        match *self {
            TokenStep::Ready(t) => TokenPlan::Ready(t@),
            TokenStep::Refresh(t) => TokenPlan::Refresh(t@),
            TokenStep::Refused(e) => TokenPlan::Refused(e@),
        }
    }
}

/// What to do for a valid access token, given whether the one at hand has run out.
pub open spec fn token_plan(
    access: Option<Seq<char>>,
    refresh: Option<Seq<char>>,
    expired: bool,
) -> TokenPlan {
    match (access, refresh) {
        (None, _) => TokenPlan::Refused("Not logged in"@),
        (Some(access), _) if !expired => TokenPlan::Ready(access),
        (Some(_), Some(refresh)) => TokenPlan::Refresh(refresh),
        (Some(_), None) => TokenPlan::Refused(
            "Access token is expired and no refresh token is available."@,
        ),
    }
}

/// Decides what to do for a valid access token, given whether the one at hand has run out.
pub fn plan_token(access: &Option<String>, refresh: &Option<String>, expired: bool) -> (r:
    TokenStep)
    ensures
        r@ == token_plan(text::option_view(*access), text::option_view(*refresh), expired),
{
    match access {
        None => TokenStep::Refused("Not logged in".to_owned()),
        Some(access) => {
            if !expired {
                return TokenStep::Ready(access.clone());
            }
            match refresh {
                Some(refresh) => TokenStep::Refresh(refresh.clone()),
                None => TokenStep::Refused(
                    "Access token is expired and no refresh token is available.".to_owned(),
                ),
            }
        },
    }
}

/// Takes over what the server answered to a refresh: the new tokens, or the fault.
fn accept_refresh(
    access: &mut Option<String>,
    refresh: &mut Option<String>,
    reply: Result<RefreshTokenResponse, String>,
) -> (r: Result<String, String>)
    ensures
        match reply {
            Ok(tokens) => {
                &&& r == Ok::<String, String>(tokens.access_token)
                &&& *final(access) == Some(tokens.access_token)
                &&& *final(refresh) == match tokens.refresh_token {
                    Some(token) => Some(token),
                    None => *old(refresh),
                }
            },
            Err(e) => {
                &&& r matches Err(f) && f@ == "Failed to refresh token: "@ + e@
                &&& *final(access) == *old(access)
                &&& *final(refresh) == *old(refresh)
            },
        },
{
    match reply {
        Ok(tokens) => {
            *access = Some(tokens.access_token.clone());
            match tokens.refresh_token {
                Some(token) => {
                    *refresh = Some(token);
                },
                None => {},
            }
            Ok(tokens.access_token)
        },
        Err(e) => Err(text::join2("Failed to refresh token: ", &e)),
    }
}

// ---------------------------------------------------------------------------
// Generated values
// ---------------------------------------------------------------------------
/// A new device id: a random UUID.
pub fn generate_device_id() -> (r: String)
    ensures
        exists|bytes: Seq<u8>|
            bytes.len() == 16 && bytes[6] / 16 == 4 && bytes[8] / 64 == 2 && r@
                == #[trigger] primitives::uuid_hyphenated(bytes),
{
    let bytes = primitives::new_uuid();
    assert(bytes@.len() == 16);
    primitives::uuid_text(bytes)
}

/// The cache salt that 16 bytes make.
pub fn cache_salt(bytes: [u8; 16]) -> (r: String)
    ensures
        r@ == primitives::base64_text(bytes@, false),
{
    primitives::base64_encode(&bytes)
}

/// Whether `salt` is a cache salt: 16 bytes in Base64.
pub open spec fn is_salt(salt: Seq<char>) -> bool {
    exists|bytes: Seq<u8>|
        bytes.len() == 16 && salt == #[trigger] primitives::base64_text(bytes, false)
}

/// A new cache salt: 16 random bytes in Base64.
pub fn generate_cache_salt() -> (r: String)
    ensures
        is_salt(r@),
{
    let bytes = match primitives::random_salt() {
        Some(bytes) => bytes,
        None => primitives::new_uuid(),
    };
    assert(bytes@.len() == 16);
    cache_salt(bytes)
}

// ---------------------------------------------------------------------------
// Settings
// ---------------------------------------------------------------------------
/// The settings of the user.
#[derive(Debug, Clone)]
pub struct Config {
    pub server_url: String,
    pub email: Option<String>,
    pub client_id: Option<String>,
    pub client_secret: Option<String>,
    pub timeout: String,
    pub timeout_action: TimeoutAction,
    pub socket_path: Option<String>,
    pub vault_cache_path: Option<String>,
    pub device_id: String,
    pub access_token: Option<String>,
    pub refresh_token: Option<String>,
    pub cache_salt: Option<String>,
    pub last_sync_time: Option<String>,
    pub local_key_count: Option<usize>,
    pub ssh_agent_auto_start: bool,
}

impl Default for Config {
    fn default() -> (r: Self)
        ensures
            r.server_url@ == "https://api.bitwarden.com"@,
            r.timeout@ == "15m"@,
            r.timeout_action == TimeoutAction::Lock,
            r.email is None && r.client_id is None && r.client_secret is None,
            r.socket_path is None && r.vault_cache_path is None,
            r.access_token is None && r.refresh_token is None,
            exists|bytes: Seq<u8>|
                bytes.len() == 16 && bytes[6] / 16 == 4 && bytes[8] / 64 == 2 && r.device_id@
                    == #[trigger] primitives::uuid_hyphenated(bytes),
            r.cache_salt matches Some(salt) && is_salt(salt@),
            r.last_sync_time is None && r.local_key_count is None,
            !r.ssh_agent_auto_start,
    {
        Config {
            server_url: "https://api.bitwarden.com".to_owned(),
            email: None,
            client_id: None,
            client_secret: None,
            timeout: "15m".to_owned(),
            timeout_action: TimeoutAction::Lock,
            socket_path: None,
            vault_cache_path: None,
            device_id: generate_device_id(),
            access_token: None,
            refresh_token: None,
            cache_salt: Some(generate_cache_salt()),
            last_sync_time: None,
            local_key_count: None,
            ssh_agent_auto_start: false,
        }
    }
}

impl Config {
    /// Reads the timeout: the seconds, or none where it is `never` or `on logout`. The seconds
    /// must fit in 64 bits.
    pub fn parse_timeout_duration(&self) -> (r: Result<Option<u64>, String>)
        requires
            timeout_fits(normalized(self.timeout@)),
        ensures
            seconds_view(r) == timeout_seconds(normalized(self.timeout@)),
    {
        parse_duration(&normalize(&self.timeout))
    }

    /// Reads the timeout, or hands out nothing where its seconds do not fit in 64 bits.
    pub fn checked_timeout(&self) -> (r: Option<Result<Option<u64>, String>>)
        ensures
            match r {
                Some(outcome) => seconds_view(outcome) == timeout_seconds(
                    normalized(self.timeout@),
                ),
                None => !timeout_fits(normalized(self.timeout@)),
            },
    {
        match checked_duration(&normalize(&self.timeout)) {
            Some(_) => {
                assert(timeout_fits(normalized(self.timeout@)));
                Some(self.parse_timeout_duration())
            },
            None => None,
        }
    }

    /// The path of the settings under the configuration directory, where there is one.
    pub fn config_path(config_dir: &Option<String>) -> (r: Option<String>)
        ensures
            text::option_view(r) == match *config_dir {
                Some(dir) => Some(storage::file_in(dir@, "config.toml"@)),
                None => None,
            },
    {
        match config_dir {
            Some(dir) => Some(storage::join_path(dir, "config.toml")),
            None => None,
        }
    }

    /// Gives loaded settings a cache salt where they have none, and says whether they are to
    /// be saved for it.
    pub fn ensure_cache_salt(&mut self) -> (r: bool)
        ensures
            r == (old(self).cache_salt is None),
            old(self).cache_salt is Some ==> *final(self) == *old(self),
            old(self).cache_salt is None ==> (final(self).cache_salt matches Some(salt) && is_salt(
                salt@,
            )),
            *final(self) == (Config { cache_salt: final(self).cache_salt, ..*old(self) }),
    {
        if self.cache_salt.is_some() {
            return false;
        }
        self.cache_salt = Some(generate_cache_salt());
        true
    }

    /// Whether the access token has run out, or is about to, at `now`.
    pub fn is_token_expired(&self, now: i64) -> (r: bool)
        ensures
            r == token_expired(text::option_view(self.access_token), now),
    {
        check_token(&self.access_token, now)
    }

    /// What to do for a valid access token at `now`.
    pub fn get_valid_token(&self, now: i64) -> (r: TokenStep)
        ensures
            r@ == token_plan(
                text::option_view(self.access_token),
                text::option_view(self.refresh_token),
                token_expired(text::option_view(self.access_token), now),
            ),
    {
        plan_token(&self.access_token, &self.refresh_token, self.is_token_expired(now))
    }

    /// Takes over what the server answered to a refresh: the new tokens, or the fault.
    pub fn accept_refresh(&mut self, reply: Result<RefreshTokenResponse, String>) -> (r: Result<
        String,
        String,
    >)
        ensures
            match reply {
                Ok(tokens) => {
                    &&& r == Ok::<String, String>(tokens.access_token)
                    &&& *final(self) == (Config {
                        access_token: Some(tokens.access_token),
                        refresh_token: match tokens.refresh_token {
                            Some(token) => Some(token),
                            None => old(self).refresh_token,
                        },
                        ..*old(self)
                    })
                },
                Err(e) => {
                    &&& r matches Err(f) && f@ == "Failed to refresh token: "@ + e@
                    &&& *final(self) == *old(self)
                },
            },
    {
        accept_refresh(&mut self.access_token, &mut self.refresh_token, reply)
    }
}

// ---------------------------------------------------------------------------
// The session
// ---------------------------------------------------------------------------
/// The session with a server.
#[derive(Debug)]
pub struct Session {
    pub user_id: Option<String>,
    pub email: Option<String>,
    pub device_id: String,
    pub access_token: Option<String>,
    pub refresh_token: Option<String>,
    pub last_sync_time: Option<String>,
    pub server_url: Option<String>,
    pub timeout: String,
    pub timeout_action: TimeoutAction,
}

impl Session {
    /// A session before any login, on the device and with the timeout of the settings.
    pub fn start(config: &Config) -> (r: Session)
        ensures
            r == fresh_session(*config),
    {
        Session {
            user_id: None,
            email: None,
            device_id: config.device_id.clone(),
            access_token: None,
            refresh_token: None,
            last_sync_time: None,
            server_url: None,
            timeout: config.timeout.clone(),
            timeout_action: config.timeout_action,
        }
    }

    /// Whether the access token has run out, or is about to, at `now`.
    pub fn is_token_expired(&self, now: i64) -> (r: bool)
        ensures
            r == token_expired(text::option_view(self.access_token), now),
    {
        check_token(&self.access_token, now)
    }

    /// What to do for a valid access token at `now`.
    pub fn get_valid_token(&self, now: i64) -> (r: TokenStep)
        ensures
            r@ == token_plan(
                text::option_view(self.access_token),
                text::option_view(self.refresh_token),
                token_expired(text::option_view(self.access_token), now),
            ),
    {
        plan_token(&self.access_token, &self.refresh_token, self.is_token_expired(now))
    }

    /// Takes over what the server answered to a refresh: the new tokens, or the fault.
    pub fn accept_refresh(&mut self, reply: Result<RefreshTokenResponse, String>) -> (r: Result<
        String,
        String,
    >)
        ensures
            match reply {
                Ok(tokens) => {
                    &&& r == Ok::<String, String>(tokens.access_token)
                    &&& *final(self) == (Session {
                        access_token: Some(tokens.access_token),
                        refresh_token: match tokens.refresh_token {
                            Some(token) => Some(token),
                            None => old(self).refresh_token,
                        },
                        ..*old(self)
                    })
                },
                Err(e) => {
                    &&& r matches Err(f) && f@ == "Failed to refresh token: "@ + e@
                    &&& *final(self) == *old(self)
                },
            },
    {
        accept_refresh(&mut self.access_token, &mut self.refresh_token, reply)
    }
}

/// A session before any login.
pub open spec fn fresh_session(config: Config) -> Session {
    Session {
        user_id: None,
        email: None,
        device_id: config.device_id,
        access_token: None,
        refresh_token: None,
        last_sync_time: None,
        server_url: None,
        timeout: config.timeout,
        timeout_action: config.timeout_action,
    }
}

impl Clone for Session {
    fn clone(&self) -> (r: Self)
        ensures
            r == *self,
    {
        Session {
            user_id: text::copy_option(&self.user_id),
            email: text::copy_option(&self.email),
            device_id: self.device_id.clone(),
            access_token: text::copy_option(&self.access_token),
            refresh_token: text::copy_option(&self.refresh_token),
            last_sync_time: text::copy_option(&self.last_sync_time),
            server_url: text::copy_option(&self.server_url),
            timeout: self.timeout.clone(),
            timeout_action: self.timeout_action,
        }
    }
}

// ---------------------------------------------------------------------------
// Laws
// ---------------------------------------------------------------------------
/// A token that has run out stays so: time does not renew it.
pub proof fn expiry_is_final(token: Option<Seq<char>>, earlier: i64, later: i64)
    requires
        earlier <= later,
        token_expired(token, earlier),
    ensures
        token_expired(token, later),
{
}

/// Every number of seconds, minutes, hours or days is read as a timeout, and so are `custom` with
/// a number of seconds, `immediately`, `never` and `on logout`.
pub proof fn the_supported_timeouts_are_read(n: u64)
    ensures
        timeout_seconds("custom "@ + number::decimal(n as nat)) == Ok::<Option<nat>, Seq<char>>(
            Some(n as nat),
        ),
        timeout_seconds(number::decimal(n as nat).push('s')) == Ok::<Option<nat>, Seq<char>>(
            Some(n as nat),
        ),
        timeout_seconds(number::decimal(n as nat).push('m')) == Ok::<Option<nat>, Seq<char>>(
            Some(n as nat * 60),
        ),
        timeout_seconds(number::decimal(n as nat).push('h')) == Ok::<Option<nat>, Seq<char>>(
            Some(n as nat * 3600),
        ),
        timeout_seconds(number::decimal(n as nat).push('d')) == Ok::<Option<nat>, Seq<char>>(
            Some(n as nat * 86400),
        ),
        timeout_seconds("immediately"@) == Ok::<Option<nat>, Seq<char>>(Some(0)),
        timeout_seconds("never"@) == Ok::<Option<nat>, Seq<char>>(None),
        timeout_seconds("on logout"@) == Ok::<Option<nat>, Seq<char>>(None),
{
    let digits = number::decimal(n as nat);
    number::written_numbers_are_read_back(n as nat, u64::MAX as nat);
    reveal_strlit("custom ");
    reveal_strlit("never");
    reveal_strlit("on logout");
    reveal_strlit("immediately");
    let custom = "custom "@ + digits;
    assert(custom[0] == 'c');
    assert("never"@[0] == 'n' && "on logout"@[0] == 'o' && "immediately"@[0] == 'i');
    assert(custom.subrange(0, "custom "@.len() as int) =~= "custom "@);
    assert(custom.skip("custom "@.len() as int) =~= digits);
    lemma_duration(digits, 's');
    lemma_duration(digits, 'm');
    lemma_duration(digits, 'h');
    lemma_duration(digits, 'd');
}

proof fn lemma_duration(digits: Seq<char>, unit: char)
    requires
        digits.len() > 0,
        number::is_digit(digits[0]),
    ensures
        ({
            let s = digits.push(unit);
            &&& timeout_seconds(s) == scaled_seconds(
                "Invalid timeout duration value '"@,
                duration_parts(s).0,
                duration_parts(s).1,
            )
            &&& s.drop_last() == digits
        }),
{
    reveal_strlit("custom ");
    reveal_strlit("never");
    reveal_strlit("on logout");
    reveal_strlit("immediately");
    let s = digits.push(unit);
    assert(s[0] == digits[0]);
    assert("never"@[0] == 'n' && "on logout"@[0] == 'o' && "immediately"@[0] == 'i');
    assert(s.drop_last() =~= digits);
    if text::found_at(s, "custom "@, 0) {
        assert(s.subrange(0, "custom "@.len() as int)[0] == s[0]);
        assert("custom "@[0] == 'c');
    }
}

} // verus!
