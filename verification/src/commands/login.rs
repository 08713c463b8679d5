//! Logging in: the method, the single sign-on, and the keys that the answer brings.
use vstd::prelude::*;
use vstd::string::*;

use crate::api::{MasterPasswordUnlockJson, PreloginResponse, TokenResponse};
use crate::cli::LoginArgs;
use crate::config::{Config, Session};
use crate::crypto;
use crate::storage::Keys;
use crate::text;
use crate::url;

verus! {

// ---------------------------------------------------------------------------
// Method
// ---------------------------------------------------------------------------
/// How a user logs in.
#[derive(Debug)]
pub enum LoginMethod {
    /// By single sign-on.
    Sso,
    /// With a personal API key.
    ApiKey { client_id: String, client_secret: String },
    /// With the master password.
    Password,
}

/// The first of two texts that is there.
pub open spec fn first_of(a: Option<String>, b: Option<String>) -> Option<String> {
    match a {
        Some(_) => a,
        None => b,
    }
}

fn pick(a: &Option<String>, b: &Option<String>) -> (r: Option<String>)
    ensures
        r == first_of(*a, *b),
{
    match a {
        Some(_) => text::copy_option(a),
        None => text::copy_option(b),
    }
}

/// How the options and the settings log a user in: by single sign-on where it is asked for, with
/// a personal API key where both its parts are known, else with the master password. An option
/// goes before a setting.
pub fn choose_method(args: &LoginArgs, config: &Config) -> (r: LoginMethod)
    ensures
        r == if args.sso {
            LoginMethod::Sso
        } else {
            match (
                first_of(args.client_id, config.client_id),
                first_of(args.client_secret, config.client_secret),
            ) {
                (Some(client_id), Some(client_secret)) => LoginMethod::ApiKey {
                    client_id,
                    client_secret,
                },
                _ => LoginMethod::Password,
            }
        },
{
    if args.sso {
        return LoginMethod::Sso;
    }
    match (
        pick(&args.client_id, &config.client_id),
        pick(&args.client_secret, &config.client_secret),
    ) {
        (Some(client_id), Some(client_secret)) => LoginMethod::ApiKey { client_id, client_secret },
        _ => LoginMethod::Password,
    }
}

/// The server to log in to: that of the options, else that of the settings.
pub fn choose_server(args: &LoginArgs, config: &Config) -> (r: String)
    ensures
        r == match args.server {
            Some(server) => server,
            None => config.server_url,
        },
{
    match &args.server {
        Some(server) => server.clone(),
        None => config.server_url.clone(),
    }
}

/// The address to log in with, where it is known: that of the options, else that of the session.
pub fn choose_email(args: &LoginArgs, session: &Session) -> (r: Option<String>)
    ensures
        r == first_of(args.email, session.email),
{
    pick(&args.email, &session.email)
}

// ---------------------------------------------------------------------------
// Single sign-on
// ---------------------------------------------------------------------------
/// The organization of a single sign-on, from what was typed or given.
pub fn check_organization(org_id: &str) -> (r: Result<(), String>)
    ensures
        text::result_view(r) == if org_id@.len() == 0 {
            Err("Organization Identifier is required for SSO login."@)
        } else {
            Ok(())
        },
{
    if text::chars_of(org_id).len() == 0 {
        Err("Organization Identifier is required for SSO login.".to_owned())
    } else {
        Ok(())
    }
}

/// The name that the client signs on with: a server that hands out a token takes it for a
/// browser.
pub open spec fn sso_client(token: Option<Seq<char>>) -> Seq<char> {
    match token {
        Some(_) => "web"@,
        None => "cli"@,
    }
}

/// Where a single sign-on leads back to.
pub open spec fn sso_redirect(server: Seq<char>, token: Option<Seq<char>>) -> Seq<char> {
    match token {
        Some(_) => text::without_trailing(server, '/') + "/sso-connector.html"@,
        None => "http://localhost:8081/sso-callback"@,
    }
}

/// The name of the client and the redirect of a single sign-on.
pub fn sso_target(server_url: &str, token: &Option<String>) -> (r: (String, String))
    ensures
        r.0@ == sso_client(text::option_view(*token)),
        r.1@ == sso_redirect(server_url@, text::option_view(*token)),
{
    match token {
        Some(_) => (
            "web".to_owned(),
            text::join2(&text::trim_end_matches(server_url, '/'), "/sso-connector.html"),
        ),
        None => ("cli".to_owned(), "http://localhost:8081/sso-callback".to_owned()),
    }
}

/// The start of the address at which a user signs on, up to what depends on the server.
pub open spec fn authorize_stem(
    server: Seq<char>,
    token: Option<Seq<char>>,
    challenge: Seq<char>,
) -> Seq<char> {
    text::without_trailing(server, '/')
        + "/identity/connect/authorize?response_type=code&scope=api%20offline_access"@
        + "&client_id="@ + sso_client(token) + "&redirect_uri="@ + url::percent_encoded(
        sso_redirect(server, token),
    ) + "&code_challenge="@ + challenge + "&code_challenge_method=S256"@
}

/// The address at which a user signs on.
pub open spec fn authorize_url(
    server: Seq<char>,
    token: Option<Seq<char>>,
    challenge: Seq<char>,
    state: Seq<char>,
    org_id: Seq<char>,
) -> Seq<char> {
    match token {
        Some(sso_token) => authorize_stem(server, token, challenge)
            + "&response_mode=query&state="@ + url::percent_encoded(state) + "&_identifier="@
            + org_id + "&ssoToken="@ + url::percent_encoded(sso_token),
        None => authorize_stem(server, token, challenge) + "&state="@ + url::percent_encoded(state)
            + "&acr_values=idp:sso&organizationId="@ + org_id,
    }
}

/// Builds the address at which a user signs on.
pub fn build_authorize_url(
    server_url: &str,
    token: &Option<String>,
    challenge: &str,
    state: &str,
    org_id: &str,
) -> (r: String)
    ensures
        r@ == authorize_url(
            server_url@,
            text::option_view(*token),
            challenge@,
            state@,
            org_id@,
        ),
{
    let (client_id, redirect_uri) = sso_target(server_url, token);
    let server = text::trim_end_matches(server_url, '/');
    let start = text::join3(
        &server,
        "/identity/connect/authorize?response_type=code&scope=api%20offline_access",
        "&client_id=",
    );
    let start = text::join3(&start, &client_id, "&redirect_uri=");
    let start = text::join3(&start, &url::percent_encode(&redirect_uri), "&code_challenge=");
    let stem = text::join3(&start, challenge, "&code_challenge_method=S256");
    match token {
        Some(sso_token) => {
            let address = text::join3(
                &stem,
                "&response_mode=query&state=",
                &url::percent_encode(state),
            );
            let address = text::join3(&address, "&_identifier=", org_id);
            text::join3(&address, "&ssoToken=", &url::percent_encode(sso_token))
        },
        None => {
            let address = text::join3(&stem, "&state=", &url::percent_encode(state));
            text::join3(&address, "&acr_values=idp:sso&organizationId=", org_id)
        },
    }
}

/// The value of the first pair of a query that names a code.
pub open spec fn code_in(pairs: Seq<Seq<char>>) -> Option<Seq<char>>
    decreases pairs.len(),
{
    if pairs.len() == 0 {
        None
    } else {
        let parts = text::split_on(pairs[0], '=');
        if parts.len() == 2 && parts[0] == "code"@ {
            Some(parts[1])
        } else {
            code_in(pairs.skip(1))
        }
    }
}

/// The code in what a user pasted: the whole text, or, where it speaks of a code, the value of
/// that name behind the last question mark.
pub open spec fn pasted_code(input: Seq<char>) -> Result<Seq<char>, Seq<char>> {
    if text::has_text(input, "code="@) {
        match code_in(text::split_on(text::split_on(input, '?').last(), '&')) {
            Some(value) => url::percent_decoded(value),
            None => Err("Authorization code not found in URL"@),
        }
    } else {
        Ok(input)
    }
}

/// Reads the code that a user pasted.
pub fn parse_auth_code(input: &str) -> (r: Result<String, String>)
    ensures
        text::result_view(r) == pasted_code(input@),
{
    if !text::contains(input, "code=") {
        return Ok(input.to_owned());
    }
    let parts = text::split(input, '?');
    let query = &parts[parts.len() - 1];
    let pairs = text::split(query, '&');
    let ghost all = pairs.deep_view();
    assert(parts.deep_view().last() == query@);
    assert(all.skip(0) =~= all);
    for i in 0..pairs.len()
        invariant
            all == pairs.deep_view(),
            pasted_code(input@) == match code_in(all.skip(i as int)) {
                Some(value) => url::percent_decoded(value),
                None => Err("Authorization code not found in URL"@),
            },
    {
        assert(all.skip(i as int).skip(1) =~= all.skip(i + 1));
        assert(all.skip(i as int)[0] == pairs@[i as int]@);
        let pair = text::split(&pairs[i], '=');
        assert(pair.deep_view().len() == pair@.len());
        if pair.len() == 2 && text::same(&pair[0], "code") {
            assert(pair.deep_view()[0] == pair@[0]@ && pair.deep_view()[1] == pair@[1]@);
            return url::percent_decode(&pair[1]);
        }
        assert(pair@.len() == 2 ==> pair.deep_view()[0] == pair@[0]@);
    }
    Err("Authorization code not found in URL".to_owned())
}

/// A code that a redirect brings back is read from it: whatever address the redirect leads to,
/// the code behind it comes out as it was.
pub proof fn redirected_codes_are_read(address: Seq<char>, code: Seq<char>)
    ensures
        pasted_code(address + "?code="@ + url::percent_encoded(code)) == Ok::<
            Seq<char>,
            Seq<char>,
        >(code),
{
    let value = url::percent_encoded(code);
    let input = address + "?code="@ + value;
    let query = "code="@ + value;
    reveal_strlit("?code=");
    reveal_strlit("code=");
    reveal_strlit("code");
    let at = address.len() as int + 1;
    assert(input.subrange(at, at + 5) =~= "code="@);
    assert(text::found_at(input, "code="@, at));
    url::encoded_texts_hold_no_separators(code);
    assert forall|i: int| 0 <= i < query.len() implies query[i] != '?' && query[i] != '&' by {
        if i >= 5 {
            assert(query[i] == value[i - 5]);
        }
    }
    assert(input =~= address + seq!['?'] + query);
    text::splitting_is_local(address, query, '?');
    text::unseparated_texts_are_whole(query, '?');
    assert(text::split_on(input, '?').last() == query);
    text::unseparated_texts_are_whole(query, '&');
    assert(query =~= "code"@ + seq!['='] + value);
    text::splitting_is_local("code"@, value, '=');
    text::unseparated_texts_are_whole("code"@, '=');
    text::unseparated_texts_are_whole(value, '=');
    assert(text::split_on(query, '=') =~= seq!["code"@, value]);
    assert(code_in(seq![query]) == Some(value));
    url::encoded_texts_are_read_back(code);
}

// ---------------------------------------------------------------------------
// Keys
// ---------------------------------------------------------------------------
/// The unlock data in the answer to a login.
pub open spec fn unlock_data(resp: TokenResponse, context: Seq<char>) -> Result<
    MasterPasswordUnlockJson,
    Seq<char>,
> {
    match resp.user_decryption_options {
        None => Err(
            "UserDecryptionOptions missing from "@ + context
                + ". Ensure your account is fully set up."@,
        ),
        Some(options) => match options.master_password_unlock {
            None => Err("MasterPasswordUnlock data missing from response."@),
            Some(data) => Ok(data),
        },
    }
}

/// Finds the unlock data in the answer to a login.
pub fn find_unlock_data<'a>(resp: &'a TokenResponse, context: &str) -> (r: Result<
    &'a MasterPasswordUnlockJson,
    String,
>)
    ensures
        match r {
            Ok(data) => unlock_data(*resp, context@) == Ok::<
                MasterPasswordUnlockJson,
                Seq<char>,
            >(*data),
            Err(e) => unlock_data(*resp, context@) == Err::<
                MasterPasswordUnlockJson,
                Seq<char>,
            >(e@),
        },
{
    match &resp.user_decryption_options {
        None => Err(
            text::join3(
                "UserDecryptionOptions missing from ",
                context,
                ". Ensure your account is fully set up.",
            ),
        ),
        Some(options) => match &options.master_password_unlock {
            None => Err("MasterPasswordUnlock data missing from response.".to_owned()),
            Some(data) => Ok(data),
        },
    }
}

/// The master key that a password gives with the answer to a login, once it unwraps the user
/// key, and the address of the account.
pub open spec fn verified_login(
    resp: TokenResponse,
    password: Seq<char>,
    email: Option<String>,
    session_email: Option<String>,
    context: Seq<char>,
) -> Result<(Seq<u8>, Seq<char>), Seq<char>> {
    match unlock_data(resp, context) {
        Err(e) => Err(e),
        Ok(data) => match crypto::master_key(
            password,
            data.salt@,
            data.kdf.kdf_type,
            data.kdf.iterations,
            data.kdf.memory,
            data.kdf.parallelism,
        ) {
            Err(e) => Err(e),
            Ok(key) => match crypto::symmetric_key(key, resp.key@) {
                Err(e) => Err(e),
                Ok(_) => Ok(
                    (
                        key,
                        match first_of(email, session_email) {
                            Some(email) => email@,
                            None => data.salt@,
                        },
                    ),
                ),
            },
        },
    }
}

/// Whether the Argon2 costs in the answer to a login, where they matter, fit in 32 bits.
pub open spec fn login_costs_fit(resp: TokenResponse, context: Seq<char>) -> bool {
    unlock_data(resp, context) matches Ok(data) ==> crypto::kdf_costs_fit(
        data.kdf.kdf_type,
        data.kdf.memory,
        data.kdf.parallelism,
    )
}

/// Derives the master key after a login and checks that it unwraps the user key.
pub fn derive_and_verify_keys_from_response(
    resp: &TokenResponse,
    password: &str,
    email: &Option<String>,
    session_email: &Option<String>,
    error_context: &str,
) -> (r: Result<([u8; 32], String), String>)
    requires
        login_costs_fit(*resp, error_context@),
    ensures
        (match r {
            Ok((key, email)) => Ok((key@, email@)),
            Err(e) => Err(e@),
        }) == verified_login(*resp, password@, *email, *session_email, error_context@),
{
    let data = match find_unlock_data(resp, error_context) {
        Ok(data) => data,
        Err(e) => {
            return Err(e);
        },
    };
    let account = match pick(email, session_email) {
        Some(email) => email,
        None => data.salt.clone(),
    };
    let key = match crypto::prompt_and_derive_master_key(
        password,
        &data.salt,
        data.kdf.kdf_type,
        data.kdf.iterations,
        data.kdf.memory,
        data.kdf.parallelism,
    ) {
        Ok(key) => key,
        Err(e) => {
            return Err(e);
        },
    };
    match crypto::decrypt_symmetric_key(&key, &resp.key) {
        Ok(_) => Ok((key, account)),
        Err(e) => Err(e),
    }
}

/// The master key of a login with the master password, and the hash that stands for the password
/// before the server.
pub fn password_credentials(password: &str, email: &str, kdf: &PreloginResponse) -> (r: Result<
    ([u8; 32], String),
    String,
>)
    requires
        crypto::kdf_costs_fit(kdf.kdf, kdf.kdf_memory, kdf.kdf_parallelism),
    ensures
        (match r {
            Ok((key, hash)) => Ok((key@, hash@)),
            Err(e) => Err(e@),
        }) == match crypto::master_key(
            password@,
            email@,
            kdf.kdf,
            kdf.kdf_iterations,
            kdf.kdf_memory,
            kdf.kdf_parallelism,
        ) {
            Ok(key) => Ok((key, crypto::login_hash(key, password@))),
            Err(e) => Err(e),
        },
{
    match crypto::prompt_and_derive_master_key(
        password,
        email,
        kdf.kdf,
        kdf.kdf_iterations,
        kdf.kdf_memory,
        kdf.kdf_parallelism,
    ) {
        Ok(key) => {
            let hash = crypto::derive_login_hash(&key, password);
            Ok((key, hash))
        },
        Err(e) => Err(e),
    }
}

// ---------------------------------------------------------------------------
// What a login leaves
// ---------------------------------------------------------------------------
/// Keeps a personal API key in the settings.
pub fn keep_api_key(config: &mut Config, client_id: String, client_secret: String)
    ensures
        *final(config) == (Config {
            client_id: Some(client_id),
            client_secret: Some(client_secret),
            ..*old(config)
        }),
{
    config.client_id = Some(client_id);
    config.client_secret = Some(client_secret);
}

/// Keeps the server, the tokens and the address of a login.
pub fn record_login(
    config: &mut Config,
    session: &mut Session,
    server_url: &String,
    resp: &TokenResponse,
    email: String,
)
    ensures
        *final(config) == (Config { server_url: *server_url, ..*old(config) }),
        *final(session) == (Session {
            access_token: Some(resp.access_token),
            refresh_token: resp.refresh_token,
            email: Some(email),
            server_url: Some(*server_url),
            ..*old(session)
        }),
{
    config.server_url = server_url.clone();
    session.access_token = Some(resp.access_token.clone());
    session.refresh_token = text::copy_option(&resp.refresh_token);
    session.email = Some(email);
    session.server_url = Some(server_url.clone());
}

/// Keeps a login, and unwraps the user's keys with the master key it was made with.
pub fn finish_login(
    config: &mut Config,
    session: &mut Session,
    server_url: &String,
    resp: &TokenResponse,
    master_key: &[u8; 32],
    email: String,
) -> (r: Result<Keys, String>)
    ensures
        *final(config) == (Config { server_url: *server_url, ..*old(config) }),
        *final(session) == (Session {
            access_token: Some(resp.access_token),
            refresh_token: resp.refresh_token,
            email: Some(email),
            server_url: Some(*server_url),
            ..*old(session)
        }),
        crypto::keys_result_view(r) == match crypto::symmetric_key(master_key@, resp.key@) {
            Ok(keys) => Ok(keys),
            Err(e) => Err("Failed to decrypt symmetric keys: "@ + e),
        },
{
    record_login(config, session, server_url, resp, email);
    match crypto::decrypt_symmetric_key(master_key, &resp.key) {
        Ok(keys) => Ok(keys),
        Err(e) => Err(text::join2("Failed to decrypt symmetric keys: ", &e)),
    }
}

/// A login that was verified opens the vault: the master key unwraps the user's keys.
pub proof fn a_verified_login_opens_the_vault(
    resp: TokenResponse,
    password: Seq<char>,
    email: Option<String>,
    session_email: Option<String>,
    context: Seq<char>,
)
    requires
        verified_login(resp, password, email, session_email, context) is Ok,
    ensures
        crypto::symmetric_key(
            verified_login(resp, password, email, session_email, context)->Ok_0.0,
            resp.key@,
        ) is Ok,
{
}

} // verus!
