use bitter::api::{
    Body, Call, KdfJson, MasterPasswordUnlockJson, PreloginResponse, Request, TokenResponse,
    UserDecryptionOptionsJson,
};
use bitter::cli::LoginArgs;
use bitter::commands::flow::{LoginFlow, LoginWish, Stage};
use bitter::config::{Config, Session};

const WRAPPED: &str = "2.chOY1e83gPUtqngc0hmuXA==|cNv3ZnXOsdjreayko4knSUEU5RKd+xHpCkhSkBBlf4+th744fAIaEulAJfEBf4gmmdH1Qdkg1+mLJarSnuyKDw/6a9DEvXpuQOvfyyHQJ7Q=|W3pAWa6CTi/GQyx5U9mxg21G69mtQ6mHWCk6fVOQfq8=";
const MASTER: &str = "ab1b77b43a92f9997067da13ecffd72e500744ddb6f9f5d8dbb84dfc08d24560";

fn some(s: &str) -> Option<String> {
    Some(s.to_string())
}

fn args() -> LoginArgs {
    LoginArgs {
        email: None,
        password: None,
        client_id: None,
        client_secret: None,
        server: some("https://v.example.com"),
        sso: false,
        org_id: None,
    }
}

fn begin(args: LoginArgs) -> (LoginFlow, LoginWish) {
    let config = Config::default();
    let mut session = Session::start(&config);
    session.device_id = "dev".to_string();
    let pkce = ("verifier".to_string(), "challenge".to_string());
    LoginFlow::begin(args, &config, &session, pkce, "nonce".to_string())
}

fn kdf() -> PreloginResponse {
    PreloginResponse { kdf: 0, kdf_iterations: 5000, kdf_memory: None, kdf_parallelism: None }
}

fn token(with_unlock: bool) -> TokenResponse {
    TokenResponse {
        access_token: "access".to_string(),
        expires_in: 3600,
        token_type: "Bearer".to_string(),
        refresh_token: None,
        key: WRAPPED.to_string(),
        kdf: 0,
        kdf_iterations: 5000,
        kdf_memory: None,
        kdf_parallelism: None,
        user_decryption_options: if with_unlock {
            Some(UserDecryptionOptionsJson {
                has_master_password: true,
                master_password_unlock: Some(MasterPasswordUnlockJson {
                    kdf: KdfJson { kdf_type: 0, iterations: 5000, memory: None, parallelism: None },
                    master_key_wrapped_user_key: WRAPPED.to_string(),
                    salt: "test@example.com".to_string(),
                }),
            })
        } else {
            None
        },
    }
}

fn field(request: &Request, name: &str) -> String {
    match &request.body {
        Body::Form(form) => form.iter().find(|(k, _)| *k == name).unwrap().1.clone(),
        other => panic!("{:?}", other),
    }
}

fn failed(wish: LoginWish) -> String {
    match wish {
        LoginWish::Fail(e) => e,
        other => panic!("{:?}", other),
    }
}

fn finished(wish: LoginWish) -> (String, String) {
    match wish {
        LoginWish::Finish { master_key, email, .. } => (hex::encode(master_key), email),
        other => panic!("{:?}", other),
    }
}

#[test]
fn a_password_login_runs_to_its_end() {
    let (mut flow, wish) = begin(args());
    assert!(matches!(wish, LoginWish::AskEmail));
    let wish = flow.on_email(" test@example.com\n");
    assert!(matches!(wish, LoginWish::AskPassword { proving: false }));
    match flow.on_password("masterpassword123") {
        LoginWish::FetchKdf(request) => {
            assert_eq!(request.url, "https://v.example.com/api/accounts/prelogin")
        }
        other => panic!("{:?}", other),
    }
    match flow.on_kdf(&Ok(kdf())) {
        LoginWish::FetchToken(Call::Password, request) => {
            assert_eq!(field(&request, "username"), "test@example.com");
            assert_eq!(
                field(&request, "password"),
                "zx241wHoY19qxQbsZK/5OflvUsamPdIJC2RFBeK3Q7M="
            );
            assert_eq!(field(&request, "device_identifier"), "dev");
        }
        other => panic!("{:?}", other),
    }
    let end = finished(flow.on_password_grant(Ok(token(false))));
    assert_eq!(end, (MASTER.to_string(), "test@example.com".to_string()));
    assert!(matches!(flow.stage, Stage::Over));
}

#[test]
fn a_password_login_can_fail() {
    let mut given = args();
    given.email = some("test@example.com");
    given.password = some("wrong");
    let (mut flow, wish) = begin(given);
    assert!(matches!(wish, LoginWish::FetchKdf(_)));
    flow.on_kdf(&Ok(kdf()));
    assert!(!failed(flow.on_password_grant(Ok(token(false)))).is_empty());
    let mut given = args();
    given.email = some("e");
    given.password = some("p");
    let (mut flow, _) = begin(given);
    assert_eq!(failed(flow.on_kdf(&Err("offline".to_string()))), "offline");
}

#[test]
fn a_sign_on_runs_to_its_end() {
    let mut given = args();
    given.sso = true;
    let (mut flow, wish) = begin(given);
    assert!(matches!(wish, LoginWish::AskOrganization));
    match flow.on_organization("org\n") {
        LoginWish::Prevalidate(request) => {
            assert_eq!(request.url, "https://v.example.com/identity/sso/prevalidate")
        }
        other => panic!("{:?}", other),
    }
    match flow.on_prevalidated(&None) {
        LoginWish::AskCode { url, redirect_uri } => {
            assert!(url.contains("&code_challenge=challenge&"));
            assert!(url.contains("&state=nonce&"));
            assert!(url.ends_with("&organizationId=org"));
            assert_eq!(redirect_uri, "http://localhost:8081/sso-callback");
        }
        other => panic!("{:?}", other),
    }
    match flow.on_code("http://localhost:8081/sso-callback?code=a%2Bb\n") {
        LoginWish::FetchToken(Call::SsoCode, request) => {
            assert_eq!(field(&request, "code"), "a+b");
            assert_eq!(field(&request, "client_id"), "cli");
            assert_eq!(field(&request, "code_verifier"), "verifier");
        }
        other => panic!("{:?}", other),
    }
    let wish = flow.on_grant(Ok(token(true)));
    assert!(matches!(wish, LoginWish::AskPassword { proving: true }));
    let end = finished(flow.on_proof("masterpassword123"));
    assert_eq!(end, (MASTER.to_string(), "test@example.com".to_string()));
}

#[test]
fn a_sign_on_can_fail() {
    let mut given = args();
    given.sso = true;
    given.org_id = some("");
    let (_, wish) = begin(given);
    assert_eq!(failed(wish), "Organization Identifier is required for SSO login.");
    let mut given = args();
    given.sso = true;
    given.org_id = some("org");
    let (mut flow, _) = begin(given);
    flow.on_prevalidated(&some("token"));
    assert_eq!(failed(flow.on_code("?xcode=1")), "Authorization code not found in URL");
}

#[test]
fn an_api_key_login_runs_to_its_end() {
    let mut given = args();
    given.client_id = some("id");
    given.client_secret = some("secret");
    given.password = some("masterpassword123");
    let (mut flow, wish) = begin(given);
    match wish {
        LoginWish::FetchToken(Call::ApiKey, request) => {
            assert_eq!(field(&request, "client_secret"), "secret")
        }
        other => panic!("{:?}", other),
    }
    assert_eq!(flow.setup.api_key, Some(("id".to_string(), "secret".to_string())));
    assert_eq!(finished(flow.on_grant(Ok(token(true)))).0, MASTER);
}

#[test]
fn an_api_key_login_can_fail() {
    let mut given = args();
    given.client_id = some("id");
    given.client_secret = some("secret");
    let (mut flow, _) = begin(given);
    assert_eq!(
        failed(flow.on_grant(Ok(token(false)))),
        "UserDecryptionOptions missing from API Key response. Ensure your account is fully set up."
    );
}
