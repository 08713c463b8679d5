//! The course of a login: what is asked next, and what the answers lead to.
use vstd::prelude::*;
use vstd::string::*;

use super::login;
use super::login::LoginMethod;
use crate::api;
use crate::api::{ApiClient, Call, PreloginResponse, Request, TokenResponse};
use crate::cli::LoginArgs;
use crate::config::{Config, Session};
use crate::crypto;
use crate::text;

verus! {

// ---------------------------------------------------------------------------
// State
// ---------------------------------------------------------------------------
/// What a login waits for.
#[derive(Debug)]
pub enum Stage {
    /// The organization of a single sign-on.
    Organization,
    /// The token that a server may want before a single sign-on.
    Prevalidation { org_id: String },
    /// The code of a single sign-on.
    Code { client_id: String, redirect_uri: String },
    /// The answer to the code of a single sign-on, or to a personal API key.
    Grant { context: &'static str },
    /// The master password that proves the answer.
    Proof { resp: TokenResponse, context: &'static str },
    /// The address of the account.
    Email,
    /// The master password to log in with.
    Password { email: String },
    /// The key derivation settings of the account.
    Kdf { email: String, password: String },
    /// The answer to the master password.
    PasswordGrant { email: String, master_key: [u8; 32] },
    /// Nothing: the login is over.
    Over,
}

/// What a login asks for next.
#[derive(Debug)]
pub enum LoginWish {
    AskOrganization,
    AskEmail,
    /// Ask for the master password; where it proves an answer, the prompt says so.
    AskPassword { proving: bool },
    /// Send the user to `url`, and ask for what the redirect to `redirect_uri` brings.
    AskCode { url: String, redirect_uri: String },
    /// Ask the server for the token before a single sign-on.
    Prevalidate(Request),
    /// Ask the server for the key derivation settings.
    FetchKdf(Request),
    /// Ask the server for an access token.
    FetchToken(Call, Request),
    /// The login succeeded.
    Finish { resp: TokenResponse, master_key: [u8; 32], email: String },
    /// The login failed.
    Fail(String),
}

/// What does not change during a login: the options, the account and the device that are known,
/// the server, the personal API key where it is used, and what was drawn for a single sign-on.
#[derive(Debug)]
pub struct LoginSetup {
    pub args: LoginArgs,
    pub session_email: Option<String>,
    pub device_id: String,
    pub server_url: String,
    pub client: ApiClient,
    pub api_key: Option<(String, String)>,
    pub verifier: String,
    pub challenge: String,
    pub nonce: String,
}

/// A login under way.
#[derive(Debug)]
pub struct LoginFlow {
    pub setup: LoginSetup,
    pub stage: Stage,
}

/// What the server is asked to exchange a code for.
pub open spec fn code_request(
    setup: LoginSetup,
    client_id: Seq<char>,
    redirect_uri: Seq<char>,
    code: Seq<char>,
) -> api::Sent {
    api::Sent {
        url: setup.client.identity_url@ + "/connect/token"@,
        bearer: None,
        body: api::Content::Form(
            api::sso_form(client_id, code, setup.verifier@, redirect_uri, setup.device_id@),
        ),
    }
}

/// What the server is asked about an account.
pub open spec fn kdf_request(setup: LoginSetup, email: Seq<char>) -> api::Sent {
    api::Sent {
        url: setup.client.api_url@ + "/accounts/prelogin"@,
        bearer: None,
        body: api::Content::Email(email),
    }
}

/// How the server is asked for a token with the hash of the master password.
pub open spec fn password_request(setup: LoginSetup, email: Seq<char>, hash: Seq<char>) -> api::Sent {
    api::Sent {
        url: setup.client.identity_url@ + "/connect/token"@,
        bearer: None,
        body: api::Content::Form(
            api::password_form(email, hash, setup.device_id@, "bitter_client"@),
        ),
    }
}

/// How the server is asked for a token with a personal API key.
pub open spec fn api_key_request(setup: LoginSetup, id: Seq<char>, secret: Seq<char>) -> api::Sent {
    api::Sent {
        url: setup.client.identity_url@ + "/connect/token"@,
        bearer: None,
        body: api::Content::Form(
            api::api_key_form(id, secret, setup.device_id@, "bitter_client"@),
        ),
    }
}

/// The master password of the options, if it is there, comes before any that is typed.
pub open spec fn asks_after_email(flow: LoginFlow, wish: LoginWish, email: Seq<char>) -> bool {
    match flow.setup.args.password {
        Some(password) => {
            &&& flow.stage matches Stage::Kdf { email: e, password: p } && e@ == email && p@
                == password@
            &&& wish matches LoginWish::FetchKdf(request) && request@ == kdf_request(
                flow.setup,
                email,
            )
        },
        None => {
            &&& flow.stage matches Stage::Password { email: e } && e@ == email
            &&& wish matches LoginWish::AskPassword { proving } && !proving
        },
    }
}

/// What follows once the organization is known.
pub open spec fn asks_after_organization(flow: LoginFlow, wish: LoginWish, org_id: Seq<char>) -> bool {
    if org_id.len() == 0 {
        &&& flow.stage is Over
        &&& wish matches LoginWish::Fail(e) && e@
            == "Organization Identifier is required for SSO login."@
    } else {
        &&& flow.stage matches Stage::Prevalidation { org_id: o } && o@ == org_id
        &&& wish matches LoginWish::Prevalidate(request) && request@ == (api::Sent {
            url: flow.setup.client.identity_url@ + "/sso/prevalidate"@,
            bearer: None,
            body: api::Content::Get,
        })
    }
}

/// What follows an answer that a master password is to prove: it has to hold unlock data.
pub open spec fn proves(
    flow: LoginFlow,
    wish: LoginWish,
    resp: TokenResponse,
    context: Seq<char>,
    password: Seq<char>,
) -> bool {
    let verified = login::verified_login(
        resp,
        password,
        flow.setup.args.email,
        flow.setup.session_email,
        context,
    );
    &&& flow.stage is Over
    &&& match verified {
        Ok((key, email)) => wish matches LoginWish::Finish { resp: r, master_key, email: e } && r
            == resp && master_key@ == key && e@ == email,
        Err(e) => wish matches LoginWish::Fail(f) && f@ == e,
    }
}

/// What follows an answer to a single sign-on or a personal API key.
pub open spec fn asks_after_grant(
    flow: LoginFlow,
    wish: LoginWish,
    resp: TokenResponse,
    context: Seq<char>,
) -> bool {
    match login::unlock_data(resp, context) {
        Err(e) => flow.stage is Over && (wish matches LoginWish::Fail(f) && f@ == e),
        Ok(_) => match flow.setup.args.password {
            Some(password) => proves(flow, wish, resp, context, password@),
            None => {
                &&& flow.stage matches Stage::Proof { resp: r, context: c } && r == resp && c@
                    == context
                &&& wish matches LoginWish::AskPassword { proving } && proving
            },
        },
    }
}

// ---------------------------------------------------------------------------
// Steps
// ---------------------------------------------------------------------------
impl LoginFlow {
    /// Begins a login. A single sign-on needs a verifier and its challenge, and a text that
    /// tells this sign-on from others.
    pub fn begin(
        args: LoginArgs,
        config: &Config,
        session: &Session,
        pkce: (String, String),
        nonce: String,
    ) -> (r: (LoginFlow, LoginWish))
        ensures
            r.0.setup.args == args,
            r.0.setup.session_email == session.email,
            r.0.setup.device_id == session.device_id,
            r.0.setup.server_url == match args.server {
                Some(server) => server,
                None => config.server_url,
            },
            (r.0.setup.client.api_url@, r.0.setup.client.identity_url@) == api::endpoints_of(
                r.0.setup.server_url@,
            ),
            r.0.setup.verifier == pkce.0,
            r.0.setup.challenge == pkce.1,
            r.0.setup.nonce == nonce,
            ({
                let id = login::first_of(args.client_id, config.client_id);
                let secret = login::first_of(args.client_secret, config.client_secret);
                if args.sso {
                    &&& r.0.setup.api_key is None
                    &&& match args.org_id {
                        Some(org_id) => asks_after_organization(r.0, r.1, org_id@),
                        None => r.0.stage is Organization && r.1 is AskOrganization,
                    }
                } else if id is Some && secret is Some {
                    &&& r.0.setup.api_key == Some((id->Some_0, secret->Some_0))
                    &&& r.0.stage matches Stage::Grant { context } && context@
                        == "API Key response"@
                    &&& r.1 matches LoginWish::FetchToken(call, request) && call == Call::ApiKey
                        && request@ == api_key_request(r.0.setup, id->Some_0@, secret->Some_0@)
                } else {
                    &&& r.0.setup.api_key is None
                    &&& match login::first_of(args.email, session.email) {
                        Some(email) => asks_after_email(r.0, r.1, email@),
                        None => r.0.stage is Email && r.1 is AskEmail,
                    }
                }
            }),
    {
        let server_url = login::choose_server(&args, config);
        let method = login::choose_method(&args, config);
        let known_email = login::choose_email(&args, session);
        let org_id = text::copy_option(&args.org_id);
        let mut flow = LoginFlow {
            setup: LoginSetup {
                args,
                session_email: text::copy_option(&session.email),
                device_id: session.device_id.clone(),
                client: ApiClient::new(&server_url),
                server_url,
                api_key: None,
                verifier: pkce.0,
                challenge: pkce.1,
                nonce,
            },
            stage: Stage::Over,
        };
        match method {
            LoginMethod::Sso => match org_id {
                Some(org_id) => {
                    let wish = flow.take_organization(org_id);
                    (flow, wish)
                },
                None => {
                    flow.stage = Stage::Organization;
                    (flow, LoginWish::AskOrganization)
                },
            },
            LoginMethod::ApiKey { client_id, client_secret } => {
                let request = flow.setup.client.login_api_key(
                    &client_id,
                    &client_secret,
                    &flow.setup.device_id,
                    "bitter_client",
                );
                flow.setup.api_key = Some((client_id, client_secret));
                flow.stage = Stage::Grant { context: "API Key response" };
                (flow, LoginWish::FetchToken(Call::ApiKey, request))
            },
            LoginMethod::Password => match known_email {
                Some(email) => {
                    let wish = flow.take_email(email);
                    (flow, wish)
                },
                None => {
                    flow.stage = Stage::Email;
                    (flow, LoginWish::AskEmail)
                },
            },
        }
    }

    fn take_organization(&mut self, org_id: String) -> (r: LoginWish)
        ensures
            final(self).setup == old(self).setup,
            asks_after_organization(*final(self), r, org_id@),
    {
        match login::check_organization(&org_id) {
            Ok(_) => {
                self.stage = Stage::Prevalidation { org_id };
                LoginWish::Prevalidate(self.setup.client.fetch_sso_prevalidate_token())
            },
            Err(e) => {
                self.stage = Stage::Over;
                LoginWish::Fail(e)
            },
        }
    }

    fn take_email(&mut self, email: String) -> (r: LoginWish)
        ensures
            final(self).setup == old(self).setup,
            asks_after_email(*final(self), r, email@),
    {
        match text::copy_option(&self.setup.args.password) {
            Some(password) => {
                let request = self.setup.client.prelogin(&email);
                self.stage = Stage::Kdf { email, password };
                LoginWish::FetchKdf(request)
            },
            None => {
                self.stage = Stage::Password { email };
                LoginWish::AskPassword { proving: false }
            },
        }
    }

    fn prove(&mut self, resp: TokenResponse, context: &'static str, password: &str) -> (r: LoginWish)
        requires
            login::login_costs_fit(resp, context@),
        ensures
            final(self).setup == old(self).setup,
            proves(*final(self), r, resp, context@, password@),
    {
        let verified = login::derive_and_verify_keys_from_response(
            &resp,
            password,
            &self.setup.args.email,
            &self.setup.session_email,
            context,
        );
        self.stage = Stage::Over;
        match verified {
            Ok((master_key, email)) => LoginWish::Finish { resp, master_key, email },
            Err(e) => LoginWish::Fail(e),
        }
    }

    /// Takes the organization that was typed.
    pub fn on_organization(&mut self, typed: &str) -> (r: LoginWish)
        requires
            old(self).stage is Organization,
        ensures
            final(self).setup == old(self).setup,
            asks_after_organization(*final(self), r, text::trimmed(typed@)),
    {
        self.take_organization(text::trim(typed))
    }

    /// Takes the address that was typed.
    pub fn on_email(&mut self, typed: &str) -> (r: LoginWish)
        requires
            old(self).stage is Email,
        ensures
            final(self).setup == old(self).setup,
            asks_after_email(*final(self), r, text::trimmed(typed@)),
    {
        self.take_email(text::trim(typed))
    }

    /// Takes the token before a single sign-on, where the server gave one.
    pub fn on_prevalidated(&mut self, token: &Option<String>) -> (r: LoginWish)
        requires
            old(self).stage is Prevalidation,
        ensures
            final(self).setup == old(self).setup,
            ({
                let setup = old(self).setup;
                let seen = text::option_view(*token);
                let redirect = login::sso_redirect(setup.server_url@, seen);
                &&& final(self).stage matches Stage::Code { client_id, redirect_uri } && client_id@
                    == login::sso_client(seen) && redirect_uri@ == redirect
                &&& r matches LoginWish::AskCode { url, redirect_uri } && redirect_uri@ == redirect
                    && url@ == login::authorize_url(
                    setup.server_url@,
                    seen,
                    setup.challenge@,
                    setup.nonce@,
                    old(self).stage->Prevalidation_org_id@,
                )
            }),
    {
        let org_id = match &self.stage {
            Stage::Prevalidation { org_id } => org_id.clone(),
            _ => String::new(),
        };
        let url = login::build_authorize_url(
            &self.setup.server_url,
            token,
            &self.setup.challenge,
            &self.setup.nonce,
            &org_id,
        );
        let (client_id, redirect_uri) = login::sso_target(&self.setup.server_url, token);
        self.stage = Stage::Code { client_id, redirect_uri: redirect_uri.clone() };
        LoginWish::AskCode { url, redirect_uri }
    }

    /// Takes what the user pasted of a redirect.
    pub fn on_code(&mut self, typed: &str) -> (r: LoginWish)
        requires
            old(self).stage is Code,
        ensures
            final(self).setup == old(self).setup,
            match login::pasted_code(text::trimmed(typed@)) {
                Ok(code) => {
                    &&& final(self).stage matches Stage::Grant { context } && context@
                        == "SSO response"@
                    &&& r matches LoginWish::FetchToken(call, request) && call == Call::SsoCode
                        && request@ == code_request(
                        old(self).setup,
                        old(self).stage->client_id@,
                        old(self).stage->redirect_uri@,
                        code,
                    )
                },
                Err(e) => final(self).stage is Over && (r matches LoginWish::Fail(f) && f@ == e),
            },
    {
        let (client_id, redirect_uri) = match &self.stage {
            Stage::Code { client_id, redirect_uri } => (client_id.clone(), redirect_uri.clone()),
            _ => (String::new(), String::new()),
        };
        match login::parse_auth_code(&text::trim(typed)) {
            Ok(code) => {
                let request = self.setup.client.exchange_sso_code(
                    &client_id,
                    &code,
                    &self.setup.verifier,
                    &redirect_uri,
                    &self.setup.device_id,
                );
                self.stage = Stage::Grant { context: "SSO response" };
                LoginWish::FetchToken(Call::SsoCode, request)
            },
            Err(e) => {
                self.stage = Stage::Over;
                LoginWish::Fail(e)
            },
        }
    }

    /// Takes the answer to a single sign-on or a personal API key.
    pub fn on_grant(&mut self, reply: Result<TokenResponse, String>) -> (r: LoginWish)
        requires
            old(self).stage is Grant,
            reply matches Ok(resp) ==> login::login_costs_fit(
                resp,
                old(self).stage->Grant_context@,
            ),
        ensures
            final(self).setup == old(self).setup,
            match reply {
                Ok(resp) => asks_after_grant(
                    *final(self),
                    r,
                    resp,
                    old(self).stage->Grant_context@,
                ),
                Err(e) => final(self).stage is Over && (r matches LoginWish::Fail(f) && f == e),
            },
    {
        let context: &'static str = match &self.stage {
            Stage::Grant { context } => *context,
            _ => "",
        };
        let resp = match reply {
            Ok(resp) => resp,
            Err(e) => {
                self.stage = Stage::Over;
                return LoginWish::Fail(e);
            },
        };
        match login::find_unlock_data(&resp, context) {
            Ok(_) => {},
            Err(e) => {
                self.stage = Stage::Over;
                return LoginWish::Fail(e);
            },
        }
        match text::copy_option(&self.setup.args.password) {
            Some(password) => self.prove(resp, context, &password),
            None => {
                self.stage = Stage::Proof { resp, context };
                LoginWish::AskPassword { proving: true }
            },
        }
    }

    /// Takes the master password that proves an answer.
    pub fn on_proof(self, password: &str) -> (r: LoginWish)
        requires
            self.stage matches Stage::Proof { resp, context } && login::login_costs_fit(
                resp,
                context@,
            ),
        ensures
            proves(
                LoginFlow { setup: self.setup, stage: Stage::Over },
                r,
                self.stage->resp,
                self.stage->Proof_context@,
                password@,
            ),
    {
        let mut flow = LoginFlow { setup: self.setup, stage: Stage::Over };
        match self.stage {
            Stage::Proof { resp, context } => flow.prove(resp, context, password),
            _ => LoginWish::Fail(String::new()),
        }
    }

    /// Takes the master password to log in with.
    pub fn on_password(&mut self, password: &str) -> (r: LoginWish)
        requires
            old(self).stage is Password,
        ensures
            final(self).setup == old(self).setup,
            final(self).stage matches Stage::Kdf { email, password: p } && email@ == old(
                self,
            ).stage->Password_email@ && p@ == password@,
            r matches LoginWish::FetchKdf(request) && request@ == kdf_request(
                old(self).setup,
                old(self).stage->Password_email@,
            ),
    {
        let email = match &self.stage {
            Stage::Password { email } => email.clone(),
            _ => String::new(),
        };
        let request = self.setup.client.prelogin(&email);
        self.stage = Stage::Kdf { email, password: password.to_owned() };
        LoginWish::FetchKdf(request)
    }

    /// Takes the key derivation settings of the account.
    pub fn on_kdf(&mut self, reply: &Result<PreloginResponse, String>) -> (r: LoginWish)
        requires
            old(self).stage is Kdf,
            reply matches Ok(kdf) ==> crypto::kdf_costs_fit(
                kdf.kdf,
                kdf.kdf_memory,
                kdf.kdf_parallelism,
            ),
        ensures
            final(self).setup == old(self).setup,
            ({
                let email = old(self).stage->Kdf_email@;
                let password = old(self).stage->Kdf_password@;
                let key = match *reply {
                    Ok(kdf) => crypto::master_key(
                        password,
                        email,
                        kdf.kdf,
                        kdf.kdf_iterations,
                        kdf.kdf_memory,
                        kdf.kdf_parallelism,
                    ),
                    Err(e) => Err(e@),
                };
                match key {
                    Ok(key) => {
                        &&& final(self).stage matches Stage::PasswordGrant { email: e, master_key }
                            && e@ == email && master_key@ == key
                        &&& r matches LoginWish::FetchToken(call, request) && call
                            == Call::Password && request@ == password_request(
                            old(self).setup,
                            email,
                            crypto::login_hash(key, password),
                        )
                    },
                    Err(e) => final(self).stage is Over && (r matches LoginWish::Fail(f) && f@
                        == e),
                }
            }),
    {
        let (email, password) = match &self.stage {
            Stage::Kdf { email, password } => (email.clone(), password.clone()),
            _ => (String::new(), String::new()),
        };
        let credentials = match reply {
            Ok(kdf) => login::password_credentials(&password, &email, kdf),
            Err(e) => Err(e.clone()),
        };
        match credentials {
            Ok((master_key, hash)) => {
                let request = self.setup.client.login_password(
                    &email,
                    &hash,
                    &self.setup.device_id,
                    "bitter_client",
                );
                self.stage = Stage::PasswordGrant { email, master_key };
                LoginWish::FetchToken(Call::Password, request)
            },
            Err(e) => {
                self.stage = Stage::Over;
                LoginWish::Fail(e)
            },
        }
    }

    /// Takes the answer to the master password: the master key has to unwrap the user's keys.
    pub fn on_password_grant(&mut self, reply: Result<TokenResponse, String>) -> (r: LoginWish)
        requires
            old(self).stage is PasswordGrant,
        ensures
            final(self).setup == old(self).setup,
            final(self).stage is Over,
            match reply {
                Ok(resp) => match crypto::symmetric_key(
                    old(self).stage->master_key@,
                    resp.key@,
                ) {
                    Ok(_) => r matches LoginWish::Finish { resp: given, master_key, email } && given
                        == resp && master_key == old(self).stage->master_key && email@ == old(
                        self,
                    ).stage->PasswordGrant_email@,
                    Err(e) => r matches LoginWish::Fail(f) && f@ == e,
                },
                Err(e) => r matches LoginWish::Fail(f) && f == e,
            },
    {
        let (email, master_key) = match &self.stage {
            Stage::PasswordGrant { email, master_key } => (email.clone(), *master_key),
            _ => (String::new(), [0u8;32]),
        };
        self.stage = Stage::Over;
        let resp = match reply {
            Ok(resp) => resp,
            Err(e) => {
                return LoginWish::Fail(e);
            },
        };
        match crypto::decrypt_symmetric_key(&master_key, &resp.key) {
            Ok(_) => LoginWish::Finish { resp, master_key, email },
            Err(e) => LoginWish::Fail(e),
        }
    }
}

// ---------------------------------------------------------------------------
// Laws
// ---------------------------------------------------------------------------
/// A login that is proved by a master password finishes only with a master key that unwraps the
/// user's keys.
pub proof fn finished_logins_open_the_vault(
    flow: LoginFlow,
    wish: LoginWish,
    resp: TokenResponse,
    context: Seq<char>,
    password: Seq<char>,
)
    requires
        proves(flow, wish, resp, context, password),
        wish is Finish,
    ensures
        crypto::symmetric_key(wish->master_key@, wish->resp.key@) is Ok,
{
    login::a_verified_login_opens_the_vault(
        resp,
        password,
        flow.setup.args.email,
        flow.setup.session_email,
        context,
    );
}

} // verus!
