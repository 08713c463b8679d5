//! Laws of the commands: synchronization, login, settings, status.
use vstd::prelude::*;
use vstd::string::*;

use crate::api;
use crate::api::{MasterPasswordUnlockJson, PreloginResponse, SyncResponse, TokenResponse};
use crate::cli::SettingsArgs;
use crate::commands;
use crate::commands::flow;
use crate::commands::flow::{LoginFlow, LoginSetup, LoginWish, Stage};
use crate::commands::login;
use crate::commands::settings;
use crate::commands::settings::{Change, KeysChore};
use crate::commands::status;
use crate::config;
use crate::config::{Config, Session, TimeoutAction};
use crate::crypto;
use crate::daemon::ControlResponse;
use crate::number;
use crate::storage::vault;
use crate::storage::Keys;
use crate::text;
use crate::url;

verus! {

// ---------------------------------------------------------------------------
// Synchronization and unlocking
// ---------------------------------------------------------------------------
/// After a synchronization the session names the user of the vault and the time; the tokens, the
/// device and the settings stay.
pub proof fn a_sync_names_the_user(session: Session, sync: SyncResponse, time: String)
    ensures
        ({
            let after = commands::synced_session(session, sync, time);
            &&& after.user_id == Some(sync.profile.id)
            &&& after.email == Some(sync.profile.email)
            &&& after.last_sync_time == Some(time)
            &&& after.device_id == session.device_id
            &&& after.access_token == session.access_token
            &&& after.refresh_token == session.refresh_token
            &&& after.server_url == session.server_url
            &&& after.timeout == session.timeout
            &&& after.timeout_action == session.timeout_action
        }),
{
}

/// An answer of the agent is a success exactly where its status is `ok`; otherwise its error is
/// handed on behind the prefix.
pub proof fn only_ok_is_a_success(status: Seq<char>, e: Seq<char>, prefix: Seq<char>)
    ensures
        commands::outcome(status, Some(e), prefix) is Ok <==> status == "ok"@,
        commands::outcome(status, None, prefix) is Ok <==> status == "ok"@,
        status != "ok"@ ==> commands::outcome(status, Some(e), prefix) == Err::<(), Seq<char>>(
            prefix + e,
        ),
        status != "ok"@ ==> commands::outcome(status, None, prefix) == Err::<(), Seq<char>>(prefix),
{
    assert(prefix + Seq::<char>::empty() =~= prefix);
}

/// The agent is told the user of the session, and nobody where it has none.
pub proof fn the_agent_is_told_the_user(id: String)
    ensures
        commands::user_of(Some(id)) == id@,
        commands::user_of(None).len() == 0,
{
}

/// The settings of the server derive the master key where it answered and they can be used.
pub proof fn the_server_settings_derive_the_key(
    kdf: PreloginResponse,
    password: Seq<char>,
    email: Seq<char>,
    key: Seq<u8>,
    e: String,
)
    ensures
        ({
            let made = crypto::master_key(
                password,
                email,
                kdf.kdf,
                kdf.kdf_iterations,
                kdf.kdf_memory,
                kdf.kdf_parallelism,
            );
            let online = commands::online_master_key(Ok(kdf), password, email);
            &&& made == Ok::<Seq<u8>, Seq<char>>(key) ==> online == Some(key)
            &&& made is Err ==> online is None
        }),
        commands::online_master_key(Err(e), password, email) is None,
        commands::online_costs_fit(Ok(kdf)) == crypto::kdf_costs_fit(
            kdf.kdf,
            kdf.kdf_memory,
            kdf.kdf_parallelism,
        ),
        commands::online_costs_fit(Err(e)),
{
}

/// A master key that was derived unwraps the user key of the cached vault; without one the cached
/// settings do. Without a vault there are no keys.
pub proof fn the_vault_is_unlocked_by_the_key_at_hand(
    key: Seq<u8>,
    sync: SyncResponse,
    password: Seq<char>,
    keys: (Seq<u8>, Seq<u8>),
    e: String,
    fault: Seq<char>,
    derived: Option<Seq<u8>>,
)
    ensures
        crypto::symmetric_key(key, sync.profile.key@) == Ok::<(Seq<u8>, Seq<u8>), Seq<char>>(keys)
            ==> commands::vault_keys(Some(key), Ok(sync), password) == Ok::<
            (Seq<u8>, Seq<u8>),
            Seq<char>,
        >(keys),
        crypto::symmetric_key(key, sync.profile.key@) == Err::<(Seq<u8>, Seq<u8>), Seq<char>>(fault)
            ==> commands::vault_keys(Some(key), Ok(sync), password) == Err::<
            (Seq<u8>, Seq<u8>),
            Seq<char>,
        >("Failed to decrypt symmetric keys: "@ + fault),
        commands::vault_keys(None, Ok(sync), password) == vault::offline_keys(sync, password),
        commands::vault_keys(derived, Err(e), password) == Err::<(Seq<u8>, Seq<u8>), Seq<char>>(e@),
{
}

// ---------------------------------------------------------------------------
// Login
// ---------------------------------------------------------------------------
/// An option goes before a setting, and the setting stands in where there is no option.
pub proof fn options_go_before_settings(a: String, b: Option<String>)
    ensures
        login::first_of(Some(a), b) == Some(a),
        login::first_of(None, b) == b,
{
}

/// A server that hands out a token is signed on to as a browser, through the page of that server;
/// another one leads back to this machine.
pub proof fn sign_on_goes_through_the_server_that_wants_it(
    server: Seq<char>,
    slashes: nat,
    token: Seq<char>,
)
    requires
        server.len() > 0 ==> server.last() != '/',
    ensures
        login::sso_client(Some(token)) == "web"@,
        login::sso_client(None) == "cli"@,
        login::sso_redirect(server + text::repeated('/', slashes), Some(token)) == server
            + "/sso-connector.html"@,
        login::sso_redirect(server, None) == "http://localhost:8081/sso-callback"@,
{
    super::text::trailing_runs_are_taken_off(server, '/', slashes);
}

/// The address of a sign-on lies on the server and carries the challenge, the state, the
/// organization and, where the server gave one, the token.
pub proof fn the_sign_on_address_carries_what_it_needs(
    server: Seq<char>,
    slashes: nat,
    token: Seq<char>,
    challenge: Seq<char>,
    state: Seq<char>,
    org_id: Seq<char>,
)
    requires
        server.len() > 0 ==> server.last() != '/',
    ensures
        login::authorize_url(
            server + text::repeated('/', slashes),
            Some(token),
            challenge,
            state,
            org_id,
        ) == server
            + "/identity/connect/authorize?response_type=code&scope=api%20offline_access"@
            + "&client_id="@ + "web"@ + "&redirect_uri="@ + url::percent_encoded(
            server + "/sso-connector.html"@,
        ) + "&code_challenge="@ + challenge + "&code_challenge_method=S256"@
            + "&response_mode=query&state="@ + url::percent_encoded(state) + "&_identifier="@ + org_id
            + "&ssoToken="@ + url::percent_encoded(token),
        login::authorize_url(
            server + text::repeated('/', slashes),
            None,
            challenge,
            state,
            org_id,
        ) == server
            + "/identity/connect/authorize?response_type=code&scope=api%20offline_access"@
            + "&client_id="@ + "cli"@ + "&redirect_uri="@ + url::percent_encoded(
            "http://localhost:8081/sso-callback"@,
        ) + "&code_challenge="@ + challenge + "&code_challenge_method=S256"@ + "&state="@
            + url::percent_encoded(state) + "&acr_values=idp:sso&organizationId="@ + org_id,
{
    super::text::trailing_runs_are_taken_off(server, '/', slashes);
}

/// A code that was pasted alone is taken as it is.
pub proof fn bare_codes_are_taken(input: Seq<char>)
    requires
        !text::has_text(input, "code="@),
    ensures
        login::pasted_code(input) == Ok::<Seq<char>, Seq<char>>(input),
{
}

/// A pair of another name before the code is passed over, and without a code there is none.
pub proof fn the_code_is_found_among_the_pairs(
    name: Seq<char>,
    value: Seq<char>,
    pairs: Seq<Seq<char>>,
)
    requires
        !name.contains('='),
        !value.contains('='),
    ensures
        name == "code"@ ==> login::code_in(seq![name + seq!['='] + value] + pairs) == Some(value),
        name != "code"@ ==> login::code_in(seq![name + seq!['='] + value] + pairs)
            == login::code_in(pairs),
        login::code_in(Seq::empty()) is None,
{
    let pair = name + seq!['='] + value;
    text::splitting_is_local(name, value, '=');
    text::unseparated_texts_are_whole(name, '=');
    text::unseparated_texts_are_whole(value, '=');
    assert(text::split_on(pair, '=') =~= seq![name, value]);
    let all = seq![pair] + pairs;
    assert(all[0] == pair);
    assert(all.skip(1) =~= pairs);
}

/// A pair that is no name and value is passed over, whatever it holds.
pub proof fn pairs_have_a_name_and_a_value(
    word: Seq<char>,
    a: Seq<char>,
    b: Seq<char>,
    pairs: Seq<Seq<char>>,
)
    requires
        !word.contains('='),
        !a.contains('='),
        !b.contains('='),
    ensures
        login::code_in(seq![word] + pairs) == login::code_in(pairs),
        login::code_in(seq![word + seq!['='] + a + seq!['='] + b] + pairs) == login::code_in(pairs),
{
    text::unseparated_texts_are_whole(word, '=');
    text::unseparated_texts_are_whole(a, '=');
    text::unseparated_texts_are_whole(b, '=');
    text::splitting_is_local(word, a, '=');
    text::splitting_is_local(word + seq!['='] + a, b, '=');
    let pair = word + seq!['='] + a + seq!['='] + b;
    assert((seq![word] + pairs)[0] == word);
    assert((seq![word] + pairs).skip(1) =~= pairs);
    assert((seq![pair] + pairs)[0] == pair);
    assert((seq![pair] + pairs).skip(1) =~= pairs);
}

/// A code is read from a redirect whatever other pair stands behind it, and a redirect that speaks
/// of a code without holding one is refused.
pub proof fn the_code_is_read_among_other_pairs(
    address: Seq<char>,
    code: Seq<char>,
    more: Seq<char>,
)
    requires
        !more.contains('?'),
    ensures
        login::pasted_code(
            address + "?code="@ + url::percent_encoded(code) + seq!['&'] + more,
        ) == Ok::<Seq<char>, Seq<char>>(code),
        login::pasted_code(address + "?xcode="@) == Err::<Seq<char>, Seq<char>>(
            "Authorization code not found in URL"@,
        ),
{
    let value = url::percent_encoded(code);
    let pair = "code="@ + value;
    let query = pair + seq!['&'] + more;
    let input = address + "?code="@ + value + seq!['&'] + more;
    reveal_strlit("?code=");
    reveal_strlit("code=");
    reveal_strlit("code");
    reveal_strlit("?xcode=");
    reveal_strlit("xcode");
    let at = address.len() as int + 1;
    assert(input.subrange(at, at + 5) =~= "code="@);
    assert(text::found_at(input, "code="@, at));
    url::encoded_texts_hold_no_separators(code);
    assert forall|i: int| 0 <= i < query.len() implies query[i] != '?' by {
        if 5 <= i < pair.len() {
            assert(query[i] == value[i - 5]);
        } else if i > pair.len() {
            assert(more.contains(more[i - pair.len() - 1]));
            assert(query[i] == more[i - pair.len() - 1]);
        }
    }
    assert forall|i: int| 0 <= i < pair.len() implies pair[i] != '&' by {
        if i >= 5 {
            assert(pair[i] == value[i - 5]);
        }
    }
    assert(input =~= address + seq!['?'] + query);
    text::splitting_is_local(address, query, '?');
    text::unseparated_texts_are_whole(query, '?');
    assert(text::split_on(input, '?').last() == query);
    text::splitting_is_local(pair, more, '&');
    text::unseparated_texts_are_whole(pair, '&');
    assert(pair =~= "code"@ + seq!['='] + value);
    the_code_is_found_among_the_pairs("code"@, value, text::split_on(more, '&'));
    url::encoded_texts_are_read_back(code);
    let other = address + "?xcode="@;
    assert(other.subrange(at + 1, at + 6) =~= "code="@);
    assert(text::found_at(other, "code="@, at + 1));
    let tail = "xcode"@ + seq!['='];
    assert(other =~= address + seq!['?'] + tail);
    text::splitting_is_local(address, tail, '?');
    text::unseparated_texts_are_whole(tail, '?');
    assert(text::split_on(other, '?').last() == tail);
    text::unseparated_texts_are_whole(tail, '&');
    assert(tail =~= "xcode"@ + seq!['='] + Seq::<char>::empty());
    the_code_is_found_among_the_pairs("xcode"@, Seq::empty(), Seq::empty());
    assert(seq![tail] + Seq::<Seq<char>>::empty() =~= seq![tail]);
    assert("xcode"@.len() != "code"@.len());
}

/// The answer to a login is proved by a password whose master key, derived with the settings and
/// the salt of that answer, unwraps the user key in it. The address is that of the options, of the
/// session, or the salt.
pub proof fn a_login_is_proved_by_its_password(
    resp: TokenResponse,
    data: MasterPasswordUnlockJson,
    password: Seq<char>,
    email: Option<String>,
    session_email: Option<String>,
    context: Seq<char>,
    key: Seq<u8>,
)
    requires
        resp.user_decryption_options matches Some(options) && options.master_password_unlock == Some(
            data,
        ),
    ensures
        login::unlock_data(resp, context) == Ok::<MasterPasswordUnlockJson, Seq<char>>(data),
        ({
            let made = crypto::master_key(
                password,
                data.salt@,
                data.kdf.kdf_type,
                data.kdf.iterations,
                data.kdf.memory,
                data.kdf.parallelism,
            );
            let verified = login::verified_login(resp, password, email, session_email, context);
            let account = match (email, session_email) {
                (Some(email), _) => email@,
                (None, Some(email)) => email@,
                (None, None) => data.salt@,
            };
            &&& made == Ok::<Seq<u8>, Seq<char>>(key) && crypto::symmetric_key(
                key,
                resp.key@,
            ) is Ok ==> verified == Ok::<(Seq<u8>, Seq<char>), Seq<char>>((key, account))
            &&& made == Ok::<Seq<u8>, Seq<char>>(key) && crypto::symmetric_key(
                key,
                resp.key@,
            ) is Err ==> verified is Err
            &&& made is Err ==> verified is Err
        }),
        login::login_costs_fit(resp, context) == crypto::kdf_costs_fit(
            data.kdf.kdf_type,
            data.kdf.memory,
            data.kdf.parallelism,
        ),
{
}

/// An answer without unlock data is refused, with what is missing.
pub proof fn answers_without_unlock_data_are_refused(
    resp: TokenResponse,
    password: Seq<char>,
    email: Option<String>,
    session_email: Option<String>,
    context: Seq<char>,
)
    ensures
        resp.user_decryption_options is None ==> login::unlock_data(resp, context) == Err::<
            MasterPasswordUnlockJson,
            Seq<char>,
        >(
            "UserDecryptionOptions missing from "@ + context
                + ". Ensure your account is fully set up."@,
        ) && login::verified_login(resp, password, email, session_email, context) is Err
            && login::login_costs_fit(resp, context),
        resp.user_decryption_options matches Some(options) && options.master_password_unlock is None
            ==> login::unlock_data(resp, context) == Err::<MasterPasswordUnlockJson, Seq<char>>(
            "MasterPasswordUnlock data missing from response."@,
        ) && login::verified_login(resp, password, email, session_email, context) is Err
            && login::login_costs_fit(resp, context),
{
}

/// The requests of a login go to the server of the login and carry what belongs to it.
pub proof fn login_requests_go_to_the_server(
    setup: LoginSetup,
    id: Seq<char>,
    secret: Seq<char>,
    redirect: Seq<char>,
    code: Seq<char>,
    email: Seq<char>,
    hash: Seq<char>,
)
    ensures
        flow::code_request(setup, id, redirect, code) == (api::Sent {
            url: setup.client.identity_url@ + "/connect/token"@,
            bearer: None,
            body: api::Content::Form(
                api::sso_form(id, code, setup.verifier@, redirect, setup.device_id@),
            ),
        }),
        flow::kdf_request(setup, email) == (api::Sent {
            url: setup.client.api_url@ + "/accounts/prelogin"@,
            bearer: None,
            body: api::Content::Email(email),
        }),
        flow::password_request(setup, email, hash) == (api::Sent {
            url: setup.client.identity_url@ + "/connect/token"@,
            bearer: None,
            body: api::Content::Form(
                api::password_form(email, hash, setup.device_id@, "bitter_client"@),
            ),
        }),
        flow::api_key_request(setup, id, secret) == (api::Sent {
            url: setup.client.identity_url@ + "/connect/token"@,
            bearer: None,
            body: api::Content::Form(
                api::api_key_form(id, secret, setup.device_id@, "bitter_client"@),
            ),
        }),
{
}

/// Once the address is known, the server is asked for the key derivation settings of that account
/// where the options hold the password, and the password is asked for where they do not.
pub proof fn the_address_leads_to_the_password(flow: LoginFlow, wish: LoginWish, email: Seq<char>)
    requires
        flow::asks_after_email(flow, wish, email),
    ensures
        flow.setup.args.password matches Some(password) ==> {
            &&& wish matches LoginWish::FetchKdf(request) && request@.body == api::Content::Email(email)
                && request@.url == flow.setup.client.api_url@ + "/accounts/prelogin"@
            &&& flow.stage matches Stage::Kdf { email: e, password: p } && e@ == email && p@
                == password@
        },
        flow.setup.args.password is None ==> {
            &&& wish matches LoginWish::AskPassword { proving } && !proving
            &&& flow.stage matches Stage::Password { email: e } && e@ == email
        },
{
}

/// Without an organization a single sign-on fails; with one the server is asked for its token.
pub proof fn the_organization_leads_to_the_server(
    flow: LoginFlow,
    wish: LoginWish,
    org_id: Seq<char>,
)
    requires
        flow::asks_after_organization(flow, wish, org_id),
    ensures
        wish is Fail <==> org_id.len() == 0,
        org_id.len() == 0 ==> flow.stage is Over && (wish matches LoginWish::Fail(e) && e@
            == "Organization Identifier is required for SSO login."@),
        org_id.len() > 0 ==> {
            &&& wish matches LoginWish::Prevalidate(request) && request@.url
                == flow.setup.client.identity_url@ + "/sso/prevalidate"@ && request@.bearer is None
                && request@.body == api::Content::Get
            &&& flow.stage matches Stage::Prevalidation { org_id: o } && o@ == org_id
        },
{
}

/// A password that proves an answer ends the login: with the master key and the answer where it
/// is the right one, with the fault where it is not.
pub proof fn a_proof_ends_the_login(
    flow: LoginFlow,
    wish: LoginWish,
    resp: TokenResponse,
    context: Seq<char>,
    password: Seq<char>,
)
    requires
        flow::proves(flow, wish, resp, context, password),
    ensures
        ({
            let verified = login::verified_login(
                resp,
                password,
                flow.setup.args.email,
                flow.setup.session_email,
                context,
            );
            &&& flow.stage is Over
            &&& wish is Finish <==> verified is Ok
            &&& wish is Fail <==> verified is Err
            &&& verified matches Ok((key, email)) ==> (wish matches LoginWish::Finish {
                resp: given,
                master_key,
                email: account,
            } && given == resp && master_key@ == key && account@ == email)
            &&& verified matches Err(e) ==> (wish matches LoginWish::Fail(f) && f@ == e)
        }),
{
}

/// An answer without unlock data ends the login. One with them is proved at once where the options
/// hold the password; otherwise the password is asked for, and the answer is kept for it.
pub proof fn an_answer_has_to_be_proved(
    flow: LoginFlow,
    wish: LoginWish,
    resp: TokenResponse,
    context: Seq<char>,
)
    requires
        flow::asks_after_grant(flow, wish, resp, context),
    ensures
        login::unlock_data(resp, context) matches Err(e) ==> flow.stage is Over && (wish matches
            LoginWish::Fail(f) && f@ == e),
        login::unlock_data(resp, context) is Ok && flow.setup.args.password is None ==> {
            &&& wish matches LoginWish::AskPassword { proving } && proving
            &&& flow.stage matches Stage::Proof { resp: kept, context: c } && kept == resp && c@
                == context
        },
        login::unlock_data(resp, context) is Ok ==> (flow.setup.args.password matches Some(password)
            ==> flow::proves(flow, wish, resp, context, password@)),
{
}

// ---------------------------------------------------------------------------
// Settings
// ---------------------------------------------------------------------------
/// The master password is asked for exactly where a user who is logged in wants the keys kept.
pub proof fn keeping_the_keys_wants_the_password(timeout: Seq<char>, session: Session)
    ensures
        settings::wants_password(timeout, session) <==> (config::normalized(timeout) == "unlocked"@
            && session.email is Some),
{
}

/// A password is verified against the cached vault: where there is one, it was loaded and the
/// password opens it, the keys are those it opens; otherwise there are none.
pub proof fn a_password_is_verified_by_the_cache(
    sync: SyncResponse,
    password: Seq<char>,
    keys: (Seq<u8>, Seq<u8>),
    exists: bool,
    e: String,
)
    ensures
        vault::offline_keys(sync, password) == Ok::<(Seq<u8>, Seq<u8>), Seq<char>>(keys)
            ==> settings::cached_keys(true, Ok(sync), password) == Some(keys),
        vault::offline_keys(sync, password) is Err ==> settings::cached_keys(
            true,
            Ok(sync),
            password,
        ) is None,
        settings::cached_keys(false, Ok(sync), password) is None,
        settings::cached_keys(exists, Err(e), password) is None,
{
}

/// A password is verified with the settings of the server: the keys are those that the master key
/// unwraps in the cached vault.
pub proof fn a_password_is_verified_by_the_server(
    kdf: PreloginResponse,
    sync: SyncResponse,
    password: Seq<char>,
    email: Seq<char>,
    key: Seq<u8>,
    keys: (Seq<u8>, Seq<u8>),
    e: String,
)
    ensures
        ({
            let made = crypto::master_key(
                password,
                email,
                kdf.kdf,
                kdf.kdf_iterations,
                kdf.kdf_memory,
                kdf.kdf_parallelism,
            );
            let found = settings::server_keys(kdf, Ok(sync), password, email);
            &&& made == Ok::<Seq<u8>, Seq<char>>(key) && crypto::symmetric_key(
                key,
                sync.profile.key@,
            ) == Ok::<(Seq<u8>, Seq<u8>), Seq<char>>(keys) ==> found == Some(keys)
            &&& made == Ok::<Seq<u8>, Seq<char>>(key) && crypto::symmetric_key(
                key,
                sync.profile.key@,
            ) is Err ==> found is None
            &&& made is Err ==> found is None
        }),
        settings::server_keys(kdf, Err(e), password, email) is None,
{
}

/// A timeout that is set is that of the session from then on, and it is said so. One that keeps the
/// keys of a user who is logged in saves the verified ones; any other removes them. Nothing else of
/// the session, and nothing of the settings, changes.
pub proof fn the_timeout_is_set(change: Change, timeout: String, verified: Option<Keys>)
    ensures
        ({
            let after = settings::set_timeout(change, timeout, verified);
            let keeps = config::normalized(timeout@) == "unlocked"@;
            let refused = keeps && change.session.email is Some && verified is None;
            &&& after.config == change.config
            &&& refused ==> after.session == change.session && after.lines == change.lines
                && after.chore == change.chore && after.updated == change.updated && after.error
                == Some("Incorrect Master Password. Timeout setting remains unchanged."@)
            &&& !refused ==> {
                &&& after.session == (Session { timeout, ..change.session })
                &&& after.updated
                &&& after.error == change.error
                &&& after.lines.len() > change.lines.len()
                &&& after.lines[change.lines.len() as int] == "Timeout updated to: "@ + timeout@
                &&& after.lines.take(change.lines.len() as int) == change.lines
            }
            &&& !refused && keeps && change.session.email is Some ==> after.chore
                == KeysChore::Save(verified->0) && after.lines.len() == change.lines.len() + 2
                && after.lines.last() == "Saving decryption keys to database..."@
            &&& keeps && change.session.email is None ==> after.chore == change.chore
                && after.lines.len() == change.lines.len() + 1
            &&& !keeps ==> after.chore is Clear && after.lines.len() == change.lines.len() + 1
        }),
{
    let after = settings::set_timeout(change, timeout, verified);
    let keeps = config::normalized(timeout@) == "unlocked"@;
    if !(keeps && change.session.email is Some && verified is None) {
        assert(after.lines.take(change.lines.len() as int) =~= change.lines);
    }
}

/// An action that is set is that of the session from then on, and it is said so; a name that is
/// none is a fault and changes nothing.
pub proof fn the_action_is_set(change: Change, name: Seq<char>, action: TimeoutAction, e: Seq<char>)
    ensures
        config::action_named(name) == Ok::<TimeoutAction, Seq<char>>(action)
            ==> settings::set_action(change, name) == (Change {
            session: Session { timeout_action: action, ..change.session },
            lines: change.lines.push("Timeout action updated to: "@ + config::action_name(action)),
            updated: true,
            ..change
        }),
        config::action_named(name) == Err::<TimeoutAction, Seq<char>>(e) ==> settings::set_action(
            change,
            name,
        ) == (Change { error: Some(e), ..change }),
{
}

/// A server that is set is that of the settings from then on, and it is said so.
pub proof fn the_server_is_set(change: Change, server_url: String)
    ensures
        ({
            let after = settings::set_server(change, server_url);
            &&& after.config.server_url == server_url
            &&& after.config == (Config { server_url, ..change.config })
            &&& after.session == change.session
            &&& after.lines == change.lines.push("Server URL updated to: "@ + server_url@)
            &&& after.chore == change.chore
            &&& after.updated
            &&& after.error == change.error
        }),
{
}

/// A truth value is named by three words each; white space and case do not matter.
pub proof fn truth_values_have_three_names_each(s: Seq<char>)
    ensures
        ({
            let name = text::lowercase(text::trimmed(s));
            &&& name == "true"@ || name == "yes"@ || name == "1"@ ==> settings::flag_named(s) == Some(
                true,
            )
            &&& name == "false"@ || name == "no"@ || name == "0"@ ==> settings::flag_named(s)
                == Some(false)
            &&& name != "true"@ && name != "yes"@ && name != "1"@ && name != "false"@ && name
                != "no"@ && name != "0"@ ==> settings::flag_named(s) is None
        }),
        settings::flag_name(true) == "true"@,
        settings::flag_name(false) == "false"@,
{
    reveal_strlit("true");
    reveal_strlit("yes");
    reveal_strlit("1");
    reveal_strlit("false");
    reveal_strlit("no");
    reveal_strlit("0");
    assert("true"@[0] == 't' && "yes"@[0] == 'y' && "1"@[0] == '1');
    assert("false"@[0] == 'f' && "no"@[0] == 'n' && "0"@[0] == '0');
}

/// Whether the SSH agent starts with the daemon is set by a truth value, and it is said so; a name
/// that is none is a fault and changes nothing.
pub proof fn the_auto_start_is_set(change: Change, name: Seq<char>, flag: bool)
    ensures
        settings::flag_named(name) == Some(flag) ==> settings::set_auto_start(change, name)
            == (Change {
            config: Config { ssh_agent_auto_start: flag, ..change.config },
            lines: change.lines.push(
                "SSH Agent auto-start updated to: "@ + if flag {
                    "true"@
                } else {
                    "false"@
                },
            ),
            updated: true,
            ..change
        }),
        settings::flag_named(name) is None ==> settings::set_auto_start(change, name) == (Change {
            error: Some("Invalid value for ssh_agent_auto_start. Use 'true' or 'false'."@),
            ..change
        }),
{
}

/// Every option that is given is carried out, after those before it and unless one of them failed.
pub proof fn every_option_is_carried_out(
    change: Change,
    timeout: Option<String>,
    action: Option<String>,
    server: Option<String>,
    auto_start: Option<String>,
    verified: Option<Keys>,
    value: String,
)
    ensures
        ({
            let without = settings::changed(
                change,
                SettingsArgs {
                    timeout,
                    timeout_action: action,
                    server_url: server,
                    ssh_agent_auto_start: None,
                },
                verified,
            );
            let with = settings::changed(
                change,
                SettingsArgs {
                    timeout,
                    timeout_action: action,
                    server_url: server,
                    ssh_agent_auto_start: Some(value),
                },
                verified,
            );
            &&& without.error is Some ==> with == without
            &&& without.error is None ==> with == settings::set_auto_start(without, value@)
        }),
        ({
            let none = SettingsArgs {
                timeout,
                timeout_action: action,
                server_url: None,
                ssh_agent_auto_start: None,
            };
            let without = settings::changed(change, none, verified);
            let with = settings::changed(
                change,
                SettingsArgs { server_url: Some(value), ..none },
                verified,
            );
            &&& without.error is Some ==> with == without
            &&& without.error is None ==> with == settings::set_server(without, value)
        }),
        ({
            let none = SettingsArgs {
                timeout,
                timeout_action: None,
                server_url: None,
                ssh_agent_auto_start: None,
            };
            let without = settings::changed(change, none, verified);
            let with = settings::changed(
                change,
                SettingsArgs { timeout_action: Some(value), ..none },
                verified,
            );
            &&& without.error is Some ==> with == without
            &&& without.error is None ==> with == settings::set_action(without, value@)
        }),
        ({
            let none = SettingsArgs {
                timeout: None,
                timeout_action: None,
                server_url: None,
                ssh_agent_auto_start: None,
            };
            &&& settings::changed(change, none, verified) == change
            &&& settings::changed(
                change,
                SettingsArgs { timeout: Some(value), ..none },
                verified,
            ) == settings::set_timeout(change, value, verified)
        }),
{
}

/// Before any change nothing was said or done.
pub proof fn changes_start_from_the_settings(config: Config, session: Session)
    ensures
        ({
            let change = settings::unchanged(config, session);
            &&& change.config == config
            &&& change.session == session
            &&& change.lines.len() == 0
            &&& change.chore is Leave
            &&& !change.updated
            &&& change.error is None
        }),
{
}

/// The settings are shown with the server, the address, the timeout, its action and the auto-start.
pub proof fn the_settings_are_shown(config: Config, session: Session)
    ensures
        ({
            let lines = settings::shown_settings(config, session);
            &&& lines.len() == 6
            &&& lines[0] == "Current settings:"@
            &&& lines[1] == "  Server URL:     "@ + config.server_url@
            &&& session.email matches Some(email) ==> lines[2] == "  Email:          "@ + email@
            &&& session.email is None ==> lines[2] == "  Email:          "@ + "<not logged in>"@
            &&& lines[3] == "  Session Timeout: "@ + session.timeout@
            &&& session.timeout_action is Lock ==> lines[4] == "  Timeout Action:  "@ + "Lock"@
            &&& session.timeout_action is Logout ==> lines[4] == "  Timeout Action:  "@ + "Logout"@
            &&& config.ssh_agent_auto_start ==> lines[5] == "  SSH Agent Auto-Start: "@ + "true"@
            &&& !config.ssh_agent_auto_start ==> lines[5] == "  SSH Agent Auto-Start: "@ + "false"@
        }),
{
}

// ---------------------------------------------------------------------------
// Status
// ---------------------------------------------------------------------------
/// The time until the agent locks is shown in minutes and seconds, and in seconds alone below a
/// minute.
pub proof fn the_time_is_shown_in_minutes_and_seconds(minutes: u64, seconds: u64)
    requires
        seconds < 60,
        minutes <= 0x100_0000_0000,
    ensures
        minutes > 0 ==> status::lock_time((minutes * 60 + seconds) as u64) == number::decimal(
            minutes as nat,
        ) + "m "@ + number::decimal(seconds as nat) + "s"@,
        status::lock_time(seconds) == number::decimal(seconds as nat) + "s"@,
{
    let all = (minutes * 60 + seconds) as u64;
    assert(all / 60 == minutes && all % 60 == seconds);
}

/// The status shows who is logged in, and how.
pub proof fn the_status_shows_the_login(config: Config, session: Session)
    ensures
        ({
            let lines = status::login_lines(config, session);
            &&& session.email is None ==> lines == seq!["  Login Status:   Not Logged In"@]
            &&& session.email matches Some(email) ==> lines.len() == 3 && lines[0]
                == "  Login Status:   Logged In"@ && lines[1] == "  Logged in User: "@ + email@
            &&& session.email is Some && config.client_id is Some ==> lines[2]
                == "  Login Method:   API Key"@
            &&& session.email is Some && config.client_id is None ==> lines[2]
                == "  Login Method:   Master Password"@
        }),
{
}

/// The status shows whether the agent runs, and what it answered: whether the vault is unlocked,
/// how many items it holds, and the time that is left.
pub proof fn the_status_shows_the_agent(response: ControlResponse, e: String)
    ensures
        status::agent_lines(None) == seq!["  Daemon Status:   Not Running"@],
        status::agent_lines(Some(Err(e))) == seq![
            "  Daemon Status:   Running"@,
            "  Agent Details:  Could not query (Error: "@ + e@ + ")"@,
        ],
        ({
            let lines = status::agent_lines(Some(Ok(response)));
            &&& lines.len() >= 3
            &&& lines[0] == "  Daemon Status:   Running"@
            &&& response.unlocked == Some(true) ==> lines[1] == "  Daemon Vault:    Unlocked"@
            &&& response.unlocked != Some(true) ==> lines[1] == "  Daemon Vault:    Locked"@
            &&& response.key_count matches Some(count) ==> lines[2] == "  Keys in vault: "@
                + number::decimal(count as nat)
            &&& response.key_count is None ==> lines[2] == "  Keys in vault: "@ + number::decimal(0)
            &&& response.time_to_lock is None ==> lines.len() == 3
            &&& response.time_to_lock matches Some(seconds) ==> lines.len() == 4 && lines[3]
                == "  Time to Auto-Lock: "@ + status::lock_time(seconds)
        }),
{
}

/// The status begins with the server, that of the session before that of the settings, and ends
/// with the timeout, its action, the auto-start and the time of the last synchronization.
pub proof fn the_status_is_shown(
    config: Config,
    session: Session,
    agent: Option<Result<ControlResponse, String>>,
)
    ensures
        ({
            let lines = status::shown_status(config, session, agent);
            let login = status::login_lines(config, session);
            let daemon = status::agent_lines(agent);
            let n = (2 + login.len() + daemon.len()) as int;
            let m = (2 + login.len()) as int;
            &&& lines.len() == n + 4
            &&& lines[0] == "bitter Status:"@
            &&& session.server_url matches Some(server) ==> lines[1] == "  Server URL:     "@ + server@
            &&& session.server_url is None ==> lines[1] == "  Server URL:     "@ + config.server_url@
            &&& lines.subrange(2, m) == login
            &&& lines.subrange(m, n) == daemon
            &&& lines[n] == "  Timeout Setting: "@ + session.timeout@
            &&& lines[n + 1] == "  Timeout Action:  "@ + config::action_name(session.timeout_action)
            &&& lines[n + 2] == "  SSH Agent Auto-Start: "@ + settings::flag_name(
                config.ssh_agent_auto_start,
            )
            &&& session.last_sync_time matches Some(time) ==> lines[n + 3] == "  Last Synced:    "@
                + time@
            &&& session.last_sync_time is None ==> lines[n + 3] == "  Last Synced:    "@ + "Never"@
        }),
{
    let lines = status::shown_status(config, session, agent);
    let login = status::login_lines(config, session);
    let daemon = status::agent_lines(agent);
    let n = (2 + login.len() + daemon.len()) as int;
    let m = (2 + login.len()) as int;
    assert(lines.subrange(2, m) =~= login);
    assert(lines.subrange(m, n) =~= daemon);
}

} // verus!
