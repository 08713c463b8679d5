//! Laws of the requests to a server and of its answers.
use vstd::prelude::*;
use vstd::string::*;
use vstd::utf8::*;

use crate::api;
use crate::api::Call;
use crate::text;

verus! {

// ---------------------------------------------------------------------------
// Endpoints
// ---------------------------------------------------------------------------
/// A server of its own has its endpoints under its address, whatever slashes that ends in.
pub proof fn servers_have_endpoints_of_their_own(server: Seq<char>, slashes: nat)
    requires
        server.len() > 0 ==> server.last() != '/',
        !text::has_text(server, "bitwarden.com"@),
    ensures
        api::endpoints_of(server + text::repeated('/', slashes)) == (
            server + "/api"@,
            server + "/identity"@,
        ),
{
    super::text::trailing_runs_are_taken_off(server, '/', slashes);
}

/// Every address of the public service leads to its endpoints.
pub proof fn the_public_service_has_its_endpoints(a: Seq<char>, b: Seq<char>, slashes: nat)
    requires
        b.len() > 0 ==> b.last() != '/',
    ensures
        api::endpoints_of(a + "bitwarden.com"@ + b + text::repeated('/', slashes)) == (
            "https://api.bitwarden.com"@,
            "https://identity.bitwarden.com"@,
        ),
        api::is_public_service(a + "bitwarden.com"@ + b),
{
    let server = a + "bitwarden.com"@ + b;
    reveal_strlit("bitwarden.com");
    if b.len() == 0 {
        assert(server.last() == "bitwarden.com"@.last());
    } else {
        assert(server.last() == b.last());
    }
    super::text::trailing_runs_are_taken_off(server, '/', slashes);
    super::text::texts_are_found_where_they_stand(a, "bitwarden.com"@, b);
}

// ---------------------------------------------------------------------------
// Forms
// ---------------------------------------------------------------------------
/// A login with the master password says whose it is, with what hash, and from which device.
pub proof fn a_password_login_names_the_account(
    email: Seq<char>,
    login_hash: Seq<char>,
    device_id: Seq<char>,
    device_name: Seq<char>,
)
    ensures
        ({
            let form = api::password_form(email, login_hash, device_id, device_name);
            &&& form.len() == 8
            &&& form.contains(("grant_type"@, "password"@))
            &&& form.contains(("client_id"@, "web"@))
            &&& form.contains(("scope"@, "api offline_access"@))
            &&& form.contains(("username"@, email))
            &&& form.contains(("password"@, login_hash))
            &&& form.contains(("device_identifier"@, device_id))
            &&& form.contains(("device_name"@, device_name))
            &&& form.contains(("device_type"@, "9"@))
        }),
{
    let form = api::password_form(email, login_hash, device_id, device_name);
    assert(form[0] == ("grant_type"@, "password"@));
    assert(form[1] == ("client_id"@, "web"@));
    assert(form[2] == ("scope"@, "api offline_access"@));
    assert(form[3] == ("username"@, email));
    assert(form[4] == ("password"@, login_hash));
    assert(form[5] == ("device_identifier"@, device_id));
    assert(form[6] == ("device_name"@, device_name));
    assert(form[7] == ("device_type"@, "9"@));
}

/// A refresh hands in the refresh token.
pub proof fn a_refresh_hands_in_its_token(refresh_token: Seq<char>)
    ensures
        ({
            let form = api::refresh_form(refresh_token);
            &&& form.len() == 3
            &&& form.contains(("grant_type"@, "refresh_token"@))
            &&& form.contains(("client_id"@, "web"@))
            &&& form.contains(("refresh_token"@, refresh_token))
        }),
{
    let form = api::refresh_form(refresh_token);
    assert(form[0] == ("grant_type"@, "refresh_token"@));
    assert(form[1] == ("client_id"@, "web"@));
    assert(form[2] == ("refresh_token"@, refresh_token));
}

/// A login with a personal API key hands in both its parts.
pub proof fn an_api_key_login_hands_in_the_key(
    client_id: Seq<char>,
    client_secret: Seq<char>,
    device_id: Seq<char>,
    device_name: Seq<char>,
)
    ensures
        ({
            let form = api::api_key_form(client_id, client_secret, device_id, device_name);
            &&& form.len() == 7
            &&& form.contains(("grant_type"@, "client_credentials"@))
            &&& form.contains(("client_id"@, client_id))
            &&& form.contains(("client_secret"@, client_secret))
            &&& form.contains(("scope"@, "api"@))
            &&& form.contains(("device_identifier"@, device_id))
            &&& form.contains(("device_name"@, device_name))
            &&& form.contains(("device_type"@, "9"@))
        }),
{
    let form = api::api_key_form(client_id, client_secret, device_id, device_name);
    assert(form[0] == ("grant_type"@, "client_credentials"@));
    assert(form[1] == ("client_id"@, client_id));
    assert(form[2] == ("client_secret"@, client_secret));
    assert(form[3] == ("scope"@, "api"@));
    assert(form[4] == ("device_identifier"@, device_id));
    assert(form[5] == ("device_name"@, device_name));
    assert(form[6] == ("device_type"@, "9"@));
}

/// The code of a single sign-on is exchanged with the verifier of its challenge and the redirect
/// that it came by.
pub proof fn a_code_is_exchanged_with_its_verifier(
    client_id: Seq<char>,
    code: Seq<char>,
    code_verifier: Seq<char>,
    redirect_uri: Seq<char>,
    device_id: Seq<char>,
)
    ensures
        ({
            let form = api::sso_form(client_id, code, code_verifier, redirect_uri, device_id);
            &&& form.len() == 8
            &&& form.contains(("grant_type"@, "authorization_code"@))
            &&& form.contains(("client_id"@, client_id))
            &&& form.contains(("redirect_uri"@, redirect_uri))
            &&& form.contains(("code"@, code))
            &&& form.contains(("code_verifier"@, code_verifier))
            &&& form.contains(("deviceIdentifier"@, device_id))
            &&& form.contains(("deviceName"@, "bitter_client"@))
            &&& form.contains(("deviceType"@, "9"@))
        }),
{
    let form = api::sso_form(client_id, code, code_verifier, redirect_uri, device_id);
    assert(form[0] == ("grant_type"@, "authorization_code"@));
    assert(form[1] == ("client_id"@, client_id));
    assert(form[2] == ("redirect_uri"@, redirect_uri));
    assert(form[3] == ("code"@, code));
    assert(form[4] == ("code_verifier"@, code_verifier));
    assert(form[5] == ("deviceIdentifier"@, device_id));
    assert(form[6] == ("deviceName"@, "bitter_client"@));
    assert(form[7] == ("deviceType"@, "9"@));
}

// ---------------------------------------------------------------------------
// Failures
// ---------------------------------------------------------------------------
/// A request that could not be sent is named in the message.
pub proof fn unsent_requests_are_named()
    ensures
        api::unsent_prefix(Call::Prelogin) == "HTTP request failed: "@,
        api::unsent_prefix(Call::Password) == "Login request failed: "@,
        api::unsent_prefix(Call::Refresh) == "Token refresh request failed: "@,
        api::unsent_prefix(Call::ApiKey) == "API Key Login request failed: "@,
        api::unsent_prefix(Call::SsoCode) == "SSO token exchange request failed: "@,
        api::unsent_prefix(Call::SsoPrevalidate) == "SSO prevalidate request failed: "@,
        api::unsent_prefix(Call::Sync) == "Sync request failed: "@,
        api::unsent_prefix(Call::CipherDetails) == "Cipher details request failed: "@,
        api::unsent_prefix(Call::Negotiate) == "Negotiation request failed: "@,
{
}

/// An answer that could not be read is named in the message.
pub proof fn unread_answers_are_named()
    ensures
        api::unread_prefix(Call::Prelogin) == "Failed to parse prelogin response: "@,
        api::unread_prefix(Call::Password) == "Failed to parse token response: "@,
        api::unread_prefix(Call::Refresh) == "Failed to parse token response: "@,
        api::unread_prefix(Call::ApiKey) == "Failed to parse token response: "@,
        api::unread_prefix(Call::SsoCode) == "Failed to parse SSO token response: "@,
        api::unread_prefix(Call::SsoPrevalidate) == "Failed to parse SSO token response: "@,
        api::unread_prefix(Call::Sync) == "Failed to parse sync response: "@,
        api::unread_prefix(Call::CipherDetails) == "Failed to parse cipher details response: "@,
        api::unread_prefix(Call::Negotiate) == "Failed to parse negotiate JSON: "@,
{
}

/// The message of a refusal ends in what the server answered: its status where the request asked
/// for data, its text where it asked for a token.
pub proof fn refusals_repeat_the_answer(url: Seq<char>, status: Seq<char>, body: Seq<char>)
    ensures
        api::refused_message(Call::Prelogin, url, status, body) == "Prelogin failed with status: "@
            + status,
        api::refused_message(Call::Sync, url, status, body) == "Sync failed with status: "@ + status,
        api::refused_message(Call::CipherDetails, url, status, body)
            == "Failed to fetch cipher details: "@ + status,
        api::refused_message(Call::Password, url, status, body) == "Login failed ("@ + url + "): "@
            + body,
        api::refused_message(Call::Refresh, url, status, body) == "Token refresh failed ("@ + url
            + "): "@ + body,
        api::refused_message(Call::ApiKey, url, status, body) == "API Key Login failed: "@ + body,
        api::refused_message(Call::SsoCode, url, status, body) == "SSO token exchange failed: "@
            + body,
        api::refused_message(Call::SsoPrevalidate, url, status, body)
            == "SSO token exchange failed: "@ + body,
        api::refused_message(Call::Negotiate, url, status, body)
            == "Negotiation failed with status "@ + status + ": "@ + body,
{
}

/// A page is HTML where its first character that is not white space is a `<`.
pub proof fn pages_begin_with_a_bracket(a: Seq<char>, c: char, b: Seq<char>)
    requires
        forall|k: int| 0 <= k < a.len() ==> text::is_space(#[trigger] a[k]),
        !text::is_space(c),
    ensures
        api::is_html(a + seq![c] + b) == (c == '<'),
        !api::is_html(a),
{
    super::text::trimming_takes_white_space_off(a + seq![c] + b);
    let s = a + seq![c] + b;
    let (i, j) = choose|i: int, j: int|
        {
            &&& 0 <= i <= j <= s.len()
            &&& text::trimmed(s) == #[trigger] s.subrange(i, j)
            &&& forall|k: int| 0 <= k < i ==> text::is_space(#[trigger] s[k])
            &&& forall|k: int| j <= k < s.len() ==> text::is_space(#[trigger] s[k])
            &&& i < j ==> !text::is_space(s[i]) && !text::is_space(s[j - 1])
        };
    let n = a.len() as int;
    assert(s[n] == c);
    assert(i <= n < j);
    if i < n {
        assert(s[i] == a[i]);
    }
    super::text::trimming_finds_what_stands_between(a, Seq::empty(), Seq::empty());
    assert(a + Seq::<char>::empty() + Seq::<char>::empty() =~= a);
}

/// What a message repeats of an error page: of HTML a word on it, of a text of at most 120 bytes
/// all of it, of a longer one the first 120 bytes and dots.
pub proof fn messages_repeat_a_part(body: Seq<char>, shown: Seq<char>)
    requires
        api::is_excerpt(body, shown),
    ensures
        api::SHOWN_BYTES == 120,
        api::is_html(body) ==> shown == "HTML response (possibly a proxy 404 or page not found)"@,
        !api::is_html(body) && encode_utf8(body).len() <= 120 ==> shown == body,
        !api::is_html(body) && encode_utf8(body).len() > 120 ==> exists|n: int|
            0 <= n <= body.len() && shown == #[trigger] body.take(n) + "..."@ && encode_utf8(
                body.take(n),
            ).len() == 120,
{
}

/// A text can be cut unless it is long and a character spans the place.
pub proof fn short_texts_need_no_cut(body: Seq<char>, n: int)
    ensures
        encode_utf8(body).len() <= 120 ==> api::can_be_cut(body),
        api::is_html(body) ==> api::can_be_cut(body),
        0 <= n <= body.len() && encode_utf8(body.take(n)).len() == 120 ==> api::can_be_cut(body),
        api::can_be_cut(body) && !api::is_html(body) && encode_utf8(body).len() > 120
            ==> exists|m: int| 0 <= m <= body.len() && #[trigger] encode_utf8(body.take(m)).len()
            == 120,
{
}

} // verus!
