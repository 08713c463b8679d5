use bitter::api::{
    default_headers, excerpt, get_endpoints, get_notifications_endpoints, refusal, unread_message,
    unsent_message, ApiClient, Body, Call, Request,
};

fn client() -> ApiClient {
    ApiClient::new("https://vault.example.com/")
}

fn form(request: &Request) -> Vec<(&str, &str)> {
    match &request.body {
        Body::Form(form) => form.iter().map(|(k, v)| (*k, v.as_str())).collect(),
        other => panic!("{:?}", other),
    }
}

#[test]
fn servers_have_endpoints() {
    assert_eq!(
        get_endpoints("https://vault.bitwarden.com"),
        ("https://api.bitwarden.com".to_string(), "https://identity.bitwarden.com".to_string())
    );
    assert_eq!(
        get_endpoints("https://vault.example.com//"),
        (
            "https://vault.example.com/api".to_string(),
            "https://vault.example.com/identity".to_string()
        )
    );
    assert_eq!(
        get_notifications_endpoints("https://bitwarden.com"),
        "https://notifications.bitwarden.com"
    );
    assert_eq!(
        get_notifications_endpoints("https://vault.example.com/"),
        "https://vault.example.com"
    );
}

#[test]
fn requests_go_to_their_endpoints() {
    let c = client();
    let request = c.prelogin("a@b.c");
    assert_eq!(request.url, "https://vault.example.com/api/accounts/prelogin");
    assert!(matches!(request.body, Body::Email(e) if e.email == "a@b.c"));
    let request = c.sync("tok");
    assert_eq!(request.url, "https://vault.example.com/api/sync?excludeDomains=true");
    assert_eq!(request.bearer.as_deref(), Some("tok"));
    assert!(matches!(request.body, Body::Get));
    assert_eq!(
        c.get_cipher_details("tok", "id").url,
        "https://vault.example.com/api/ciphers/id/details"
    );
    let request = c.negotiate("tok", "https://n.example.com/");
    assert_eq!(request.url, "https://n.example.com/notifications/hub/negotiate");
    assert!(matches!(request.body, Body::Post));
    assert_eq!(
        c.fetch_sso_prevalidate_token().url,
        "https://vault.example.com/identity/sso/prevalidate"
    );
}

#[test]
fn logins_send_their_forms() {
    let c = client();
    let request = c.login_password("a@b.c", "hash", "dev", "name");
    assert_eq!(request.url, "https://vault.example.com/identity/connect/token");
    assert_eq!(
        form(&request),
        [
            ("grant_type", "password"),
            ("client_id", "web"),
            ("scope", "api offline_access"),
            ("username", "a@b.c"),
            ("password", "hash"),
            ("device_identifier", "dev"),
            ("device_name", "name"),
            ("device_type", "9"),
        ]
    );
    assert_eq!(
        form(&c.refresh_token("r")),
        [("grant_type", "refresh_token"), ("client_id", "web"), ("refresh_token", "r")]
    );
    assert_eq!(
        form(&c.login_api_key("id", "secret", "dev", "name")),
        [
            ("grant_type", "client_credentials"),
            ("client_id", "id"),
            ("client_secret", "secret"),
            ("scope", "api"),
            ("device_identifier", "dev"),
            ("device_name", "name"),
            ("device_type", "9"),
        ]
    );
    assert_eq!(
        form(&c.exchange_sso_code("cli", "code", "verifier", "uri", "dev")),
        [
            ("grant_type", "authorization_code"),
            ("client_id", "cli"),
            ("redirect_uri", "uri"),
            ("code", "code"),
            ("code_verifier", "verifier"),
            ("deviceIdentifier", "dev"),
            ("deviceName", "bitter_client"),
            ("deviceType", "9"),
        ]
    );
    assert_eq!(default_headers()[3], ("X-Client-Feature-Flags", "ssh-key-vault-item,ssh-agent"));
}

#[test]
fn failures_have_messages() {
    assert_eq!(unsent_message(Call::Prelogin, "x"), "HTTP request failed: x");
    assert_eq!(unsent_message(Call::Negotiate, "x"), "Negotiation request failed: x");
    assert_eq!(unread_message(Call::Sync, "x"), "Failed to parse sync response: x");
    assert_eq!(refusal(Call::Password, "u", "401", "no"), "Login failed (u): no");
    assert_eq!(refusal(Call::Sync, "u", "500", "no"), "Sync failed with status: 500");
    assert_eq!(
        refusal(Call::Negotiate, "u", "404", "no"),
        "Negotiation failed with status 404: no"
    );
}

#[test]
fn error_pages_are_shortened() {
    assert_eq!(
        excerpt("  <html>"),
        "HTML response (possibly a proxy 404 or page not found)"
    );
    assert_eq!(
        excerpt(&format!("<{}ä", "a".repeat(118))),
        "HTML response (possibly a proxy 404 or page not found)"
    );
    assert_eq!(excerpt("short"), "short");
    let exact = "a".repeat(120);
    assert_eq!(excerpt(&exact), exact);
    assert_eq!(excerpt(&"a".repeat(121)), format!("{}...", exact));
    let wide = "ä".repeat(61);
    assert_eq!(excerpt(&wide), format!("{}...", "ä".repeat(60)));
}
