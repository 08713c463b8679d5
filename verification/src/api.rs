//! What is sent to a Bitwarden server, what it answers, and what its answers mean.
use vstd::prelude::*;
use vstd::string::*;
use vstd::utf8::*;

use crate::text;

verus! {

// ---------------------------------------------------------------------------
// Endpoints
// ---------------------------------------------------------------------------
/// Whether a server, named without its trailing slashes, is the public Bitwarden service.
pub open spec fn is_public_service(server: Seq<char>) -> bool {
    text::has_text(server, "bitwarden.com"@)
}

/// The API and identity URLs of a server.
pub open spec fn endpoints_of(server_url: Seq<char>) -> (Seq<char>, Seq<char>) {
    let server = text::without_trailing(server_url, '/');
    if is_public_service(server) {
        ("https://api.bitwarden.com"@, "https://identity.bitwarden.com"@)
    } else {
        (server + "/api"@, server + "/identity"@)
    }
}

/// Determines the API and identity URLs from the configured server URL.
pub fn get_endpoints(server_url: &str) -> (r: (String, String))
    ensures
        (r.0@, r.1@) == endpoints_of(server_url@),
{
    let server = text::trim_end_matches(server_url, '/');
    if text::contains(&server, "bitwarden.com") {
        ("https://api.bitwarden.com".to_owned(), "https://identity.bitwarden.com".to_owned())
    } else {
        (text::join2(&server, "/api"), text::join2(&server, "/identity"))
    }
}

/// Determines the notifications URL from the configured server URL. A self-hosted server has
/// it on the same host.
pub fn get_notifications_endpoints(server_url: &str) -> (r: String)
    ensures
        ({
            let server = text::without_trailing(server_url@, '/');
            r@ == if is_public_service(server) {
                "https://notifications.bitwarden.com"@
            } else {
                server
            }
        }),
{
    let server = text::trim_end_matches(server_url, '/');
    if text::contains(&server, "bitwarden.com") {
        "https://notifications.bitwarden.com".to_owned()
    } else {
        server
    }
}

// ---------------------------------------------------------------------------
// Messages
// ---------------------------------------------------------------------------
#[derive(Debug)]
pub struct PreloginRequest {
    pub email: String,
}

#[derive(Debug, Clone)]
pub struct PreloginResponse {
    pub kdf: u32,
    pub kdf_iterations: u32,
    pub kdf_memory: Option<u32>,
    pub kdf_parallelism: Option<u32>,
}

#[derive(Debug, Clone)]
pub struct KdfJson {
    pub kdf_type: u32,
    pub iterations: u32,
    pub memory: Option<u32>,
    pub parallelism: Option<u32>,
}

#[derive(Debug, Clone)]
pub struct MasterPasswordUnlockJson {
    pub kdf: KdfJson,
    pub master_key_wrapped_user_key: String,
    pub salt: String,
}

#[derive(Debug, Clone)]
pub struct UserDecryptionOptionsJson {
    pub has_master_password: bool,
    pub master_password_unlock: Option<MasterPasswordUnlockJson>,
}

/// What a successful login answers; `key` is the user key, wrapped by the master key.
#[derive(Debug)]
pub struct TokenResponse {
    pub access_token: String,
    pub expires_in: u32,
    pub token_type: String,
    pub refresh_token: Option<String>,
    pub key: String,
    pub kdf: u32,
    pub kdf_iterations: u32,
    pub kdf_memory: Option<u32>,
    pub kdf_parallelism: Option<u32>,
    pub user_decryption_options: Option<UserDecryptionOptionsJson>,
}

#[derive(Debug, Clone)]
pub struct RefreshTokenResponse {
    pub access_token: String,
    pub expires_in: u32,
    pub token_type: String,
    pub refresh_token: Option<String>,
}

/// An organization of the user; `extra` is the JSON object of its other members.
#[derive(Debug)]
pub struct OrganizationSync {
    pub id: String,
    pub name: String,
    pub key: String,
    pub object: String,
    pub extra: String,
}

/// The user's profile. `provider_organizations` and `providers` are JSON array texts, `extra`
/// is the JSON object of the other members.
#[derive(Debug)]
pub struct ProfileSync {
    pub id: String,
    pub email: String,
    pub email_verified: bool,
    pub name: Option<String>,
    pub premium: bool,
    pub premium_from_organization: bool,
    pub private_key: Option<String>,
    pub public_key: Option<String>,
    pub security_stamp: Option<String>,
    pub two_factor_enabled: bool,
    pub uses_key_connector: bool,
    pub culture: String,
    pub creation_date: String,
    pub avatar_color: Option<String>,
    pub force_password_reset: bool,
    pub key: String,
    pub organizations: Option<Vec<OrganizationSync>>,
    pub provider_organizations: Option<String>,
    pub providers: Option<String>,
    pub _status: Option<i32>,
    pub object: String,
    pub extra: String,
}

#[derive(Debug)]
pub struct FieldSync {
    pub name: String,
    pub value: Option<String>,
    pub kind: i32,
}

#[derive(Debug)]
pub struct LoginSync {
    pub username: Option<String>,
    pub password: Option<String>,
    pub uri: Option<String>,
}

#[derive(Debug)]
pub struct AttachmentSync {
    pub id: String,
    pub file_name: Option<String>,
    pub size: Option<i64>,
}

#[derive(Debug)]
pub struct SshKeySync {
    pub private_key: Option<String>,
    pub public_key: Option<String>,
}

/// A vault item as the server keeps it: type 1 is a login, type 2 a secure note. `card`,
/// `identity`, `secure_note`, `password_history` and `permissions` are JSON texts, `extra` is
/// the JSON object of the other members.
#[derive(Debug)]
pub struct CipherSync {
    pub id: String,
    pub organization_id: Option<String>,
    pub folder_id: Option<String>,
    pub kind: i32,
    pub name: Option<String>,
    pub notes: Option<String>,
    pub favorite: bool,
    pub reprompt: i32,
    pub organization_use_totp: bool,
    pub edit: bool,
    pub view_password: bool,
    pub creation_date: String,
    pub revision_date: String,
    pub deleted_date: Option<String>,
    pub archived_date: Option<String>,
    pub key: Option<String>,
    pub login: Option<LoginSync>,
    pub card: Option<String>,
    pub identity: Option<String>,
    pub secure_note: Option<String>,
    pub ssh_key: Option<SshKeySync>,
    pub fields: Option<Vec<FieldSync>>,
    pub attachments: Option<Vec<AttachmentSync>>,
    pub collection_ids: Option<Vec<String>>,
    pub password_history: Option<String>,
    pub permissions: Option<String>,
    pub object: String,
    pub extra: String,
}

#[derive(Debug)]
pub struct FolderSync {
    pub id: String,
    pub name: String,
    pub object: String,
    pub revision_date: String,
}

#[derive(Debug, Clone, Copy)]
pub struct KdfSync {
    pub kdf_type: u32,
    pub iterations: u32,
    pub memory: Option<u32>,
    pub parallelism: Option<u32>,
}

#[derive(Debug)]
pub struct MasterPasswordUnlockSync {
    pub kdf: KdfSync,
    pub master_key_wrapped_user_key: String,
    pub salt: String,
}

#[derive(Debug)]
pub struct UserDecryptionSync {
    pub master_password_unlock: Option<MasterPasswordUnlockSync>,
}

/// The whole vault as the server answers it. `domains` is a JSON text, `policies` and `sends`
/// are JSON array texts, `extra` is the JSON object of the other members.
#[derive(Debug)]
pub struct SyncResponse {
    pub profile: ProfileSync,
    pub ciphers: Vec<CipherSync>,
    pub folders: Option<Vec<FolderSync>>,
    pub domains: Option<String>,
    pub policies: Option<String>,
    pub sends: Option<String>,
    pub object: String,
    pub user_decryption: Option<UserDecryptionSync>,
    pub extra: String,
}

#[derive(Debug, Clone)]
pub struct NegotiateResponse {
    pub connection_token: Option<String>,
    pub connection_id: Option<String>,
    pub url: Option<String>,
}

impl Clone for OrganizationSync {
    fn clone(&self) -> (r: Self)
        ensures
            r == *self,
    {
        OrganizationSync {
            id: self.id.clone(),
            name: self.name.clone(),
            key: self.key.clone(),
            object: self.object.clone(),
            extra: self.extra.clone(),
        }
    }
}

impl Clone for FieldSync {
    fn clone(&self) -> (r: Self)
        ensures
            r == *self,
    {
        FieldSync {
            name: self.name.clone(),
            value: text::copy_option(&self.value),
            kind: self.kind,
        }
    }
}

impl Clone for LoginSync {
    fn clone(&self) -> (r: Self)
        ensures
            r == *self,
    {
        LoginSync {
            username: text::copy_option(&self.username),
            password: text::copy_option(&self.password),
            uri: text::copy_option(&self.uri),
        }
    }
}

impl Clone for AttachmentSync {
    fn clone(&self) -> (r: Self)
        ensures
            r == *self,
    {
        AttachmentSync {
            id: self.id.clone(),
            file_name: text::copy_option(&self.file_name),
            size: self.size,
        }
    }
}

impl Clone for SshKeySync {
    fn clone(&self) -> (r: Self)
        ensures
            r == *self,
    {
        SshKeySync {
            private_key: text::copy_option(&self.private_key),
            public_key: text::copy_option(&self.public_key),
        }
    }
}

impl Clone for FolderSync {
    fn clone(&self) -> (r: Self)
        ensures
            r == *self,
    {
        FolderSync {
            id: self.id.clone(),
            name: self.name.clone(),
            object: self.object.clone(),
            revision_date: self.revision_date.clone(),
        }
    }
}

impl Clone for MasterPasswordUnlockSync {
    fn clone(&self) -> (r: Self)
        ensures
            r == *self,
    {
        MasterPasswordUnlockSync {
            kdf: self.kdf,
            master_key_wrapped_user_key: self.master_key_wrapped_user_key.clone(),
            salt: self.salt.clone(),
        }
    }
}

// ---------------------------------------------------------------------------
// Requests
// ---------------------------------------------------------------------------
/// The headers that every request carries.
pub fn default_headers() -> (r: [(&'static str, &'static str); 6])
    ensures
        r@.len() == 6,
        r@[0].0@ == "X-Client-Type"@ && r@[0].1@ == "web"@,
        r@[1].0@ == "X-Client-Version"@ && r@[1].1@ == "2026.1.0"@,
        r@[2].0@ == "Bitwarden-Client-Version"@ && r@[2].1@ == "2026.1.0"@,
        r@[3].0@ == "X-Client-Feature-Flags"@ && r@[3].1@ == "ssh-key-vault-item,ssh-agent"@,
        r@[4].0@ == "Device-Type"@ && r@[4].1@ == "9"@,
        r@[5].0@ == "device-type"@ && r@[5].1@ == "9"@,
{
    [
        ("X-Client-Type", "web"),
        ("X-Client-Version", "2026.1.0"),
        ("Bitwarden-Client-Version", "2026.1.0"),
        ("X-Client-Feature-Flags", "ssh-key-vault-item,ssh-agent"),
        ("Device-Type", "9"),
        ("device-type", "9"),
    ]
}

/// What a request carries.
#[derive(Debug)]
pub enum Body {
    /// A `GET` without a body.
    Get,
    /// A `POST` without a body.
    Post,
    /// A `POST` of an e-mail address, as JSON.
    Email(PreloginRequest),
    /// A `POST` of named texts, as a form.
    Form(Vec<(&'static str, String)>),
}

/// A request to the server: where it goes, on whose behalf, and what it carries.
#[derive(Debug)]
pub struct Request {
    pub url: String,
    pub bearer: Option<String>,
    pub body: Body,
}

/// The value of a [`Body`].
pub enum Content {
    Get,
    Post,
    Email(Seq<char>),
    Form(Seq<(Seq<char>, Seq<char>)>),
}

/// The value of a [`Request`].
pub struct Sent {
    pub url: Seq<char>,
    pub bearer: Option<Seq<char>>,
    pub body: Content,
}

/// The pairs of a form.
pub open spec fn form_view(form: Seq<(&'static str, String)>) -> Seq<(Seq<char>, Seq<char>)> {
    form.map_values(|pair: (&'static str, String)| (pair.0@, pair.1@))
}

impl View for Body {
    type V = Content;

    open spec fn view(&self) -> Content {
        match *self {
            Body::Get => Content::Get,
            Body::Post => Content::Post,
            Body::Email(request) => Content::Email(request.email@),
            Body::Form(form) => Content::Form(form_view(form@)),
        }
    }
}

impl View for Request {
    type V = Sent;

    open spec fn view(&self) -> Sent {
        Sent { url: self.url@, bearer: text::option_view(self.bearer), body: self.body@ }
    }
}

/// Where the requests of a client go.
#[derive(Debug, Clone)]
pub struct ApiClient {
    pub api_url: String,
    pub identity_url: String,
}

/// The form of a login with the master password.
pub open spec fn password_form(
    email: Seq<char>,
    login_hash: Seq<char>,
    device_id: Seq<char>,
    device_name: Seq<char>,
) -> Seq<(Seq<char>, Seq<char>)> {
    seq![
        ("grant_type"@, "password"@),
        ("client_id"@, "web"@),
        ("scope"@, "api offline_access"@),
        ("username"@, email),
        ("password"@, login_hash),
        ("device_identifier"@, device_id),
        ("device_name"@, device_name),
        ("device_type"@, "9"@),
    ]
}

/// The form of a refresh.
pub open spec fn refresh_form(refresh_token: Seq<char>) -> Seq<(Seq<char>, Seq<char>)> {
    seq![
        ("grant_type"@, "refresh_token"@),
        ("client_id"@, "web"@),
        ("refresh_token"@, refresh_token),
    ]
}

/// The form of a login with a personal API key.
pub open spec fn api_key_form(
    client_id: Seq<char>,
    client_secret: Seq<char>,
    device_id: Seq<char>,
    device_name: Seq<char>,
) -> Seq<(Seq<char>, Seq<char>)> {
    seq![
        ("grant_type"@, "client_credentials"@),
        ("client_id"@, client_id),
        ("client_secret"@, client_secret),
        ("scope"@, "api"@),
        ("device_identifier"@, device_id),
        ("device_name"@, device_name),
        ("device_type"@, "9"@),
    ]
}

/// The form that exchanges the code of a single sign-on.
pub open spec fn sso_form(
    client_id: Seq<char>,
    code: Seq<char>,
    code_verifier: Seq<char>,
    redirect_uri: Seq<char>,
    device_id: Seq<char>,
) -> Seq<(Seq<char>, Seq<char>)> {
    seq![
        ("grant_type"@, "authorization_code"@),
        ("client_id"@, client_id),
        ("redirect_uri"@, redirect_uri),
        ("code"@, code),
        ("code_verifier"@, code_verifier),
        ("deviceIdentifier"@, device_id),
        ("deviceName"@, "bitter_client"@),
        ("deviceType"@, "9"@),
    ]
}

impl ApiClient {
    /// A client for the endpoints of a server.
    pub fn new(server_url: &str) -> (r: Self)
        ensures
            (r.api_url@, r.identity_url@) == endpoints_of(server_url@),
    {
        let (api_url, identity_url) = get_endpoints(server_url);
        ApiClient { api_url, identity_url }
    }

    /// Asks for the key derivation settings of an account.
    pub fn prelogin(&self, email: &str) -> (r: Request)
        ensures
            r@ == (Sent {
                url: self.api_url@ + "/accounts/prelogin"@,
                bearer: None,
                body: Content::Email(email@),
            }),
    {
        Request {
            url: text::join2(&self.api_url, "/accounts/prelogin"),
            bearer: None,
            body: Body::Email(PreloginRequest { email: email.to_owned() }),
        }
    }

    /// Logs in with the master password.
    pub fn login_password(
        &self,
        email: &str,
        login_hash: &str,
        device_id: &str,
        device_name: &str,
    ) -> (r: Request)
        ensures
            r@ == (Sent {
                url: self.identity_url@ + "/connect/token"@,
                bearer: None,
                body: Content::Form(password_form(email@, login_hash@, device_id@, device_name@)),
            }),
    {
        let form: Vec<(&'static str, String)> = vec![
            ("grant_type", "password".to_owned()),
            ("client_id", "web".to_owned()),
            ("scope", "api offline_access".to_owned()),
            ("username", email.to_owned()),
            ("password", login_hash.to_owned()),
            ("device_identifier", device_id.to_owned()),
            ("device_name", device_name.to_owned()),
            ("device_type", "9".to_owned()),
        ];
        assert(form_view(form@) =~= password_form(email@, login_hash@, device_id@, device_name@));
        Request {
            url: text::join2(&self.identity_url, "/connect/token"),
            bearer: None,
            body: Body::Form(form),
        }
    }

    /// Trades a refresh token for an access token.
    pub fn refresh_token(&self, refresh_token: &str) -> (r: Request)
        ensures
            r@ == (Sent {
                url: self.identity_url@ + "/connect/token"@,
                bearer: None,
                body: Content::Form(refresh_form(refresh_token@)),
            }),
    {
        let form: Vec<(&'static str, String)> = vec![
            ("grant_type", "refresh_token".to_owned()),
            ("client_id", "web".to_owned()),
            ("refresh_token", refresh_token.to_owned()),
        ];
        assert(form_view(form@) =~= refresh_form(refresh_token@));
        Request {
            url: text::join2(&self.identity_url, "/connect/token"),
            bearer: None,
            body: Body::Form(form),
        }
    }

    /// Logs in with a personal API key.
    pub fn login_api_key(
        &self,
        client_id: &str,
        client_secret: &str,
        device_id: &str,
        device_name: &str,
    ) -> (r: Request)
        ensures
            r@ == (Sent {
                url: self.identity_url@ + "/connect/token"@,
                bearer: None,
                body: Content::Form(
                    api_key_form(client_id@, client_secret@, device_id@, device_name@),
                ),
            }),
    {
        let form: Vec<(&'static str, String)> = vec![
            ("grant_type", "client_credentials".to_owned()),
            ("client_id", client_id.to_owned()),
            ("client_secret", client_secret.to_owned()),
            ("scope", "api".to_owned()),
            ("device_identifier", device_id.to_owned()),
            ("device_name", device_name.to_owned()),
            ("device_type", "9".to_owned()),
        ];
        assert(form_view(form@) =~= api_key_form(
            client_id@,
            client_secret@,
            device_id@,
            device_name@,
        ));
        Request {
            url: text::join2(&self.identity_url, "/connect/token"),
            bearer: None,
            body: Body::Form(form),
        }
    }

    /// Trades the code of a single sign-on for a token.
    pub fn exchange_sso_code(
        &self,
        client_id: &str,
        code: &str,
        code_verifier: &str,
        redirect_uri: &str,
        device_id: &str,
    ) -> (r: Request)
        ensures
            r@ == (Sent {
                url: self.identity_url@ + "/connect/token"@,
                bearer: None,
                body: Content::Form(
                    sso_form(client_id@, code@, code_verifier@, redirect_uri@, device_id@),
                ),
            }),
    {
        let form: Vec<(&'static str, String)> = vec![
            ("grant_type", "authorization_code".to_owned()),
            ("client_id", client_id.to_owned()),
            ("redirect_uri", redirect_uri.to_owned()),
            ("code", code.to_owned()),
            ("code_verifier", code_verifier.to_owned()),
            ("deviceIdentifier", device_id.to_owned()),
            ("deviceName", "bitter_client".to_owned()),
            ("deviceType", "9".to_owned()),
        ];
        assert(form_view(form@) =~= sso_form(
            client_id@,
            code@,
            code_verifier@,
            redirect_uri@,
            device_id@,
        ));
        Request {
            url: text::join2(&self.identity_url, "/connect/token"),
            bearer: None,
            body: Body::Form(form),
        }
    }

    /// Asks for the token that a self-hosted server wants before a single sign-on.
    pub fn fetch_sso_prevalidate_token(&self) -> (r: Request)
        ensures
            r@ == (Sent {
                url: self.identity_url@ + "/sso/prevalidate"@,
                bearer: None,
                body: Content::Get,
            }),
    {
        Request {
            url: text::join2(&self.identity_url, "/sso/prevalidate"),
            bearer: None,
            body: Body::Get,
        }
    }

    /// Asks for the encrypted vault.
    pub fn sync(&self, access_token: &str) -> (r: Request)
        ensures
            r@ == (Sent {
                url: self.api_url@ + "/sync?excludeDomains=true"@,
                bearer: Some(access_token@),
                body: Content::Get,
            }),
    {
        Request {
            url: text::join2(&self.api_url, "/sync?excludeDomains=true"),
            bearer: Some(access_token.to_owned()),
            body: Body::Get,
        }
    }

    /// Asks for one item.
    pub fn get_cipher_details(&self, access_token: &str, cipher_id: &str) -> (r: Request)
        ensures
            r@ == (Sent {
                url: self.api_url@ + "/ciphers/"@ + cipher_id@ + "/details"@,
                bearer: Some(access_token@),
                body: Content::Get,
            }),
    {
        Request {
            url: text::join2(&text::join3(&self.api_url, "/ciphers/", cipher_id), "/details"),
            bearer: Some(access_token.to_owned()),
            body: Body::Get,
        }
    }

    /// Asks for the token of a notifications connection.
    pub fn negotiate(&self, token: &str, notifications_url: &str) -> (r: Request)
        ensures
            r@ == (Sent {
                url: text::without_trailing(notifications_url@, '/')
                    + "/notifications/hub/negotiate"@,
                bearer: Some(token@),
                body: Content::Post,
            }),
    {
        let server = text::trim_end_matches(notifications_url, '/');
        Request {
            url: text::join2(&server, "/notifications/hub/negotiate"),
            bearer: Some(token.to_owned()),
            body: Body::Post,
        }
    }
}

// ---------------------------------------------------------------------------
// Failures
// ---------------------------------------------------------------------------
/// The requests that can fail with a message of their own.
#[derive(Debug, Clone, Copy, PartialEq, Eq, Structural)]
pub enum Call {
    Prelogin,
    Password,
    Refresh,
    ApiKey,
    SsoCode,
    SsoPrevalidate,
    Sync,
    CipherDetails,
    Negotiate,
}

/// The message of a request that could not be sent, up to the fault.
pub open spec fn unsent_prefix(call: Call) -> Seq<char> {
    match call {
        Call::Prelogin => "HTTP request failed: "@,
        Call::Password => "Login request failed: "@,
        Call::Refresh => "Token refresh request failed: "@,
        Call::ApiKey => "API Key Login request failed: "@,
        Call::SsoCode => "SSO token exchange request failed: "@,
        Call::SsoPrevalidate => "SSO prevalidate request failed: "@,
        Call::Sync => "Sync request failed: "@,
        Call::CipherDetails => "Cipher details request failed: "@,
        Call::Negotiate => "Negotiation request failed: "@,
    }
}

/// The message of a request that could not be sent.
pub fn unsent_message(call: Call, fault: &str) -> (r: String)
    ensures
        r@ == unsent_prefix(call) + fault@,
{
    let prefix = match call {
        Call::Prelogin => "HTTP request failed: ",
        Call::Password => "Login request failed: ",
        Call::Refresh => "Token refresh request failed: ",
        Call::ApiKey => "API Key Login request failed: ",
        Call::SsoCode => "SSO token exchange request failed: ",
        Call::SsoPrevalidate => "SSO prevalidate request failed: ",
        Call::Sync => "Sync request failed: ",
        Call::CipherDetails => "Cipher details request failed: ",
        Call::Negotiate => "Negotiation request failed: ",
    };
    text::join2(prefix, fault)
}

/// The message of an answer that could not be read, up to the fault.
pub open spec fn unread_prefix(call: Call) -> Seq<char> {
    match call {
        Call::Prelogin => "Failed to parse prelogin response: "@,
        Call::Password | Call::Refresh | Call::ApiKey => "Failed to parse token response: "@,
        Call::SsoCode | Call::SsoPrevalidate => "Failed to parse SSO token response: "@,
        Call::Sync => "Failed to parse sync response: "@,
        Call::CipherDetails => "Failed to parse cipher details response: "@,
        Call::Negotiate => "Failed to parse negotiate JSON: "@,
    }
}

/// The message of an answer that could not be read.
pub fn unread_message(call: Call, fault: &str) -> (r: String)
    ensures
        r@ == unread_prefix(call) + fault@,
{
    let prefix = match call {
        Call::Prelogin => "Failed to parse prelogin response: ",
        Call::Password | Call::Refresh | Call::ApiKey => "Failed to parse token response: ",
        Call::SsoCode | Call::SsoPrevalidate => "Failed to parse SSO token response: ",
        Call::Sync => "Failed to parse sync response: ",
        Call::CipherDetails => "Failed to parse cipher details response: ",
        Call::Negotiate => "Failed to parse negotiate JSON: ",
    };
    text::join2(prefix, fault)
}

/// The largest part of an error page, in bytes, that a message repeats.
pub const SHOWN_BYTES: usize = 120;

/// Whether an error page is HTML: its first character that is not white space is `<`.
pub open spec fn is_html(body: Seq<char>) -> bool {
    let trimmed = text::trimmed(body);
    trimmed.len() > 0 && trimmed[0] == '<'
}

/// Whether a text of more than [`SHOWN_BYTES`] that is no HTML can be cut there: no character
/// spans the place.
pub open spec fn can_be_cut(body: Seq<char>) -> bool {
    !is_html(body) && encode_utf8(body).len() > SHOWN_BYTES ==> exists|n: int|
        0 <= n <= body.len() && #[trigger] encode_utf8(body.take(n)).len() == SHOWN_BYTES
}

/// Whether `shown` is what a message repeats of an error page: a word on HTML in place of a
/// page, the first bytes of a long text, a short text as it is.
pub open spec fn is_excerpt(body: Seq<char>, shown: Seq<char>) -> bool {
    if is_html(body) {
        shown == "HTML response (possibly a proxy 404 or page not found)"@
    } else if encode_utf8(body).len() > SHOWN_BYTES {
        exists|n: int|
            0 <= n <= body.len() && #[trigger] encode_utf8(body.take(n)).len() == SHOWN_BYTES
                && shown == body.take(n) + "..."@
    } else {
        shown == body
    }
}

/// The number of bytes of a character in UTF-8.
fn char_width(c: char) -> (r: usize)
    ensures
        r == encode_utf8(seq![c]).len(),
        1 <= r <= 4,
{
    let code: u32 = c as u32;
    proof {
        char_is_scalar(c);
        assert(seq![c].drop_first() =~= Seq::<char>::empty());
        reveal_with_fuel(encode_utf8, 2);
    }
    if code < 0x80 {
        1
    } else if code < 0x800 {
        2
    } else if code < 0x10000 {
        3
    } else {
        4
    }
}

proof fn lemma_encoding_joins(a: Seq<char>, b: Seq<char>)
    ensures
        encode_utf8(a + b) == encode_utf8(a) + encode_utf8(b),
    decreases a.len(),
{
    if a.len() == 0 {
        assert(a + b =~= b);
        assert(encode_utf8(a) + encode_utf8(b) =~= encode_utf8(b));
    } else {
        assert((a + b).drop_first() =~= a.drop_first() + b);
        lemma_encoding_joins(a.drop_first(), b);
        assert(encode_utf8(a + b) =~= encode_utf8(a) + encode_utf8(b));
    }
}

proof fn lemma_encoding_grows(body: Seq<char>, n: int, m: int)
    requires
        0 <= n < m <= body.len(),
    ensures
        encode_utf8(body.take(n)).len() < encode_utf8(body.take(m)).len(),
    decreases m - n,
{
    let c = body[n];
    assert(body.take(n + 1) =~= body.take(n) + seq![c]);
    lemma_encoding_joins(body.take(n), seq![c]);
    char_is_scalar(c);
    assert(seq![c].drop_first() =~= Seq::<char>::empty());
    reveal_with_fuel(encode_utf8, 2);
    if n + 1 < m {
        lemma_encoding_grows(body, n + 1, m);
    }
}

/// What a message repeats of an error page.
pub fn excerpt(body: &str) -> (r: String)
    requires
        can_be_cut(body@),
    ensures
        is_excerpt(body@, r@),
{
    let trimmed = text::chars_of(&text::trim(body));
    if trimmed.len() > 0 && trimmed[0] == '<' {
        return "HTML response (possibly a proxy 404 or page not found)".to_owned();
    }
    let chars = text::chars_of(body);
    let mut count: usize = 0;
    let mut n: usize = 0;
    while n < chars.len() && count < SHOWN_BYTES
        invariant
            chars@ == body@,
            n <= chars.len(),
            count < SHOWN_BYTES + 4,
            count == encode_utf8(chars@.take(n as int)).len(),
            n > 0 ==> encode_utf8(chars@.take(n - 1)).len() < SHOWN_BYTES,
        decreases chars.len() - n,
    {
        proof {
            assert(chars@.take(n + 1) =~= chars@.take(n as int) + seq![chars@[n as int]]);
            lemma_encoding_joins(chars@.take(n as int), seq![chars@[n as int]]);
        }
        count = count + char_width(chars[n]);
        n = n + 1;
    }
    if n == chars.len() && count <= SHOWN_BYTES {
        assert(chars@.take(n as int) =~= body@);
        return body.to_owned();
    }
    proof {
        if n < chars.len() {
            lemma_encoding_grows(body@, n as int, body@.len() as int);
        }
        assert(body@.take(body@.len() as int) =~= body@);
        let k = choose|k: int|
            0 <= k <= body@.len() && #[trigger] encode_utf8(body@.take(k)).len() == SHOWN_BYTES;
        if k < n {
            lemma_encoding_grows(body@, k, n as int);
            if k < n - 1 {
                lemma_encoding_grows(body@, k, n - 1);
            }
        } else if n < k {
            lemma_encoding_grows(body@, n as int, k);
        }
    }
    let shown = text::string_of(&chars, 0, n);
    assert(shown@ =~= body@.take(n as int));
    text::join2(&shown, "...")
}

/// The message of an answer that reports a failure: `status` and the text of the answer, as far
/// as the request's message repeats them.
pub open spec fn refused_message(
    call: Call,
    url: Seq<char>,
    status: Seq<char>,
    body: Seq<char>,
) -> Seq<char> {
    match call {
        Call::Prelogin => "Prelogin failed with status: "@ + status,
        Call::Password => "Login failed ("@ + url + "): "@ + body,
        Call::Refresh => "Token refresh failed ("@ + url + "): "@ + body,
        Call::ApiKey => "API Key Login failed: "@ + body,
        Call::SsoCode | Call::SsoPrevalidate => "SSO token exchange failed: "@ + body,
        Call::Sync => "Sync failed with status: "@ + status,
        Call::CipherDetails => "Failed to fetch cipher details: "@ + status,
        Call::Negotiate => "Negotiation failed with status "@ + status + ": "@ + body,
    }
}

/// The message of an answer that reports a failure; for a negotiation, `body` is the excerpt of
/// the answer.
pub fn refusal(call: Call, url: &str, status: &str, body: &str) -> (r: String)
    ensures
        r@ == refused_message(call, url@, status@, body@),
{
    match call {
        Call::Prelogin => text::join2("Prelogin failed with status: ", status),
        Call::Password => text::join3(&text::join2("Login failed (", url), "): ", body),
        Call::Refresh => text::join3(&text::join2("Token refresh failed (", url), "): ", body),
        Call::ApiKey => text::join2("API Key Login failed: ", body),
        Call::SsoCode | Call::SsoPrevalidate => text::join2("SSO token exchange failed: ", body),
        Call::Sync => text::join2("Sync failed with status: ", status),
        Call::CipherDetails => text::join2("Failed to fetch cipher details: ", status),
        Call::Negotiate => text::join3(
            &text::join2("Negotiation failed with status ", status),
            ": ",
            body,
        ),
    }
}

} // verus!
