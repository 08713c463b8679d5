use bitter::api::{
    CipherSync, FieldSync, KdfSync, LoginSync, MasterPasswordUnlockSync, OrganizationSync,
    ProfileSync, SshKeySync, SyncResponse, UserDecryptionSync,
};
use bitter::storage::vault::{
    decrypt_ssh_keys, decrypt_sync_response_offline, decrypt_vault, derive_offline_master_key,
    extract_ssh_keys_from_ciphers, handle_post_sync, parse_and_decrypt_all_ciphers, PostSync,
};
use bitter::storage::{
    choose_keys, db_path, decrypt_org_key, decrypt_single_cipher, decrypt_text, find_item_keys,
    join_path, parse_org_key, split_item_key, split_org_key, unencrypted_db_path, CipherItem,
    DecryptedField, DecryptedSshKey, OrgKeys,
};
use rsa::pkcs8::EncodePrivateKey;
use rsa::{BigUint, RsaPrivateKey};
use ssh_key::private::Ed25519Keypair;
use ssh_key::{LineEnding, PrivateKey};

const WRAPPED: &str = "2.chOY1e83gPUtqngc0hmuXA==|cNv3ZnXOsdjreayko4knSUEU5RKd+xHpCkhSkBBlf4+th744fAIaEulAJfEBf4gmmdH1Qdkg1+mLJarSnuyKDw/6a9DEvXpuQOvfyyHQJ7Q=|W3pAWa6CTi/GQyx5U9mxg21G69mtQ6mHWCk6fVOQfq8=";
const MASTER: &str = "ab1b77b43a92f9997067da13ecffd72e500744ddb6f9f5d8dbb84dfc08d24560";
const ARGON: &str = "5685a14123b5af36fb4fc2059c94caaa73787628816bb1b8a1aeb3fde6226020";
const E_NAME: &str = "2.h6mmNDfonwOFKmQs/pRPIQ==|EipuHFL0puYl4cgOMhfzIQ==|F2k8VGbCRcnms9RDbf0W2vafXCfEk87zBcN1X046Z9U=";
const E_USERNAME: &str = "2.lzFyBweCIrnoZ75cI0HYFw==|Lk2JFDYmxE6wJft/orPU4g==|9o5e20VMAqnpYmP0gMf5xFqGQ5XHvmKx6CtP9ExFRZY=";
const E_PASSWORD: &str = "2.b1YGFdLYthilaCep0pYZXA==|LhsXhx7K7fp2DmyMBh2lRQ==|StFxuxiY8tTBXObSIOSjEPxmdWRK3yrqa9hnmYYwUEY=";
const E_URI: &str = "2.kNCCinuYDO35qK5qc59ruQ==|3RyGE8lf2Seu5l88jK0IRKno9nHx12ypsS9oVmrv674=|YFBxT59557lwQNKktWK2je78dxlRUPxu1sm3pAzhQdE=";
const E_NOTES: &str = "2.j62iGF1s6MzTGyV75xwtrw==|IXps00Dood+gnwECN4AMzw==|528gG+dVdbdUKJNeoJ+42nOf46a/UMw/t6HdsQX314s=";
const E_FIELD_NAME: &str = "2.+fsuHbiLZqaThW137E+1ZQ==|cBUaEE7PjbQy9JK2BktWFQ==|c51vanq1dQ8p3/bQQ7ZODk0nYq22nSJfEPfW5K+74rU=";
const E_FIELD_VALUE: &str = "2.fU1CeFR5QcXL03ItnOQcrg==|07ouhvNCXjhceYtHfeU1Pw==|y3i1gfj0QEybM1Zg/QcAR5w70D6LNmdxVkgsxT+O1Gc=";
const ITEM_KEY: &str = "2.Zm7jRXAla0GNSzp9O8l0tQ==|9zXN6CnwTxVKL99AXAcTANXSLrxdd5Jopk+hUdwV2jGLHax3tkYawVROQgEkmVuPKsamwjmRe0o5IIM8G0AXUn/R4VLxSRpwqlGbqeCyDAQ=|rLdgNBYqSa3t+/NCm/A9H5fcBooCIw4pb9p/sAcCaHo=";
const E_OWN_NAME: &str = "2.CTDRkyvEJO9FJeMDudiSrg==|2ZB20qC7Rg9Ty1mtXdhg3A==|mwL0mQdjsvd3n3CKDwxyhuAfKwhCF3q8QIEC7tjAXJE=";
const NOT_UTF8: &str = "2.pLDv+eafYtcvXRa2JFobdQ==|jUTHNSCKNzfyJZ3Z6WBRrg==|FhDqP0/0wtpTxf+ZQLUCZrqans6c9NibgD0nt9I+QPg=";
const BAD_MAC: &str = "2.h6mmNDfonwOFKmQs/pRPIQ==|EipuHFL0puYl4cgOMhfzIQ==|AAAAAAAAAAAAAAAAAAAAAAAAAAAAAAAAAAAAAAAAAAA=";
const E_RSA: &str = "2.ElAgcXjxnGTTAtANCKn4wQ==|QCjhZemsj6kuQmBDlYMrJBNauXHhPd2X9uxH1PTH8eLHmVTA89AyxVPsd0+hRkVHLcLMYCi6ez9zWi9RSxjFn+wl7O6pTFekao3UIgUqQhfivEulIJi4XyihMhGqjo9alLVqRniP4sSLFk3TcS97sh5KOnMBd2KHc3CiJj+XbxYGC/ySd0t+9umI9UiRKPO0Bw7RTIycK/E7RtQI3r8i+UMjTjUs3lqQu9ANtBNHkpll7jM78AdeFIXJSD0ptGP2ZPOSqefQfONBaD9pdPk7XBncB3J/PGOpxEE77Buuz3hLhB30B4l9ZdJm4A1coF1kekDQ/jpzmMbpmctGkIl/3uC5bxCYAU5BdTbCCXiugL1IffXFVQJv6BPzB5RYD54WkfrkdTJKvsPDEmGIHP/BGoM/D3KyN0On2BJbuX3XixX9B2H+02q/xbbHMghMc9WnsnSJCTR8cHXGljPRB89qIOtNyusvXNbO7RbCvioJIRTWuUGJTAWx4FSJQX7zpH7vxWm5hfp91YsRiUzMi2ZtS6dCAtGw9Ewnp23WVYOpk9T57mtt1Sz7sFJfu+rYZZbnIBR7xnNn9SP7FxygfmXbXqxA/ehBToXJ3gb82InPFkiYrXFWGE8VYkippeBXYw6uOniSKqw4xALUkQnE4QVAJ+oW/5n4GvjYnWHA6bcKW6D3qfur3kG3/7RRPQ2kS/bbJKyDqooAWCRLgEhbiH4c/OYgW3tfjfPPfd5XUXWLwdMNzNEPzStZl1OrrglrHyz0sBBPVjNgmppFw5wL7YHzHaQitOSBwC6YTP4vI16Je279iD7HM7wTDluCajs0PU1GJHl+2iWXXxL2oG9PguaLoPL4QJlXweCxKAPNkIIvet7kx/NHjmg7uqEem1k0q/VFskf86VcNWOpNQCoHuCrmqYLNUnLJcxlU0Jo8raHQtNc=|s/B4daYfb59lUVYi8JXaMe3tYUXF4/E9M0TT33wOrnM=";
const ORG_SHA1: &str = "4.sKlumkVozovi9hlnXVj45K0zBVVSYjXg3BCcZuf8ImbYQttxka8LGavhi5k0Fju6UT5Z9juX0DF5fylyOyyjFqqFHl7jQPym1dG5S3iDMcmmGCl4UUUW660bMaL6Hn4PMLb3HcmDCwg8lVHaNQ707nopvx3msPtgR3hS4bvfk2sGbdm4rzj57BvgfvK8";
const ORG_SHA256: &str = "3.BKLKztmYjt4rIxsWQAblxYbPRc8vjVNn4aUko7YVcZdkX3MUm5V8exqA6Y3cjgKAv4lw9Ul9bsvJMnEcOiEl9mGWY/k6XAocfefwbMica8YdNT0O55I43SAVyCm8Tj9gQGVyGIFJu3HPOfcOp6MzCf0Lex1F/QI9V4Ic7kvFA/Y9aegdk639r7aLGlZ2";
const E_ORG_NAME: &str = "2.1bH9YJuM5FG7NtYLIYbmtw==|RkjFjQq6iIHQYBggG6Jo1w==|LYfWv/x8l4BoRVM5KZ1jGRnci5VU+XcMyzL/zbs/lcQ=";
const E_SSH: &str = "2.9KRT5iL4wQt2vFYv2aIw6Q==|W4Q6hz2bQs8G2Ou/OAYFCHSE6WW0twNznevsTfmytXMEmVP9W9jAt4FGDJbV6ZTFp2+nMX+TcCeocSRbP8jdvIgtrjdZxOolcd72sI6GMNM9G5KTy46poCqTHkvE9ORAt0L0/JgHsHqgFk278Qcbs9QbAby8oklL1uOBtEITCAXhktTgv/7SoKnUOo0WSriEqSJ4dgBen1IeVtgGWqbS0PzJQc+RtxLBfnBoOCd5zHo9jXwAj3lfzC0vaF/fHLaPGYR83VWcld++mbPlrb2V6uLsPbGiw/J5OC9dL2V8rMUfD/slZUT7Ie8QUNRgwOPm4BkUT2VrZSWN4VcFbf4/1bWENHsppDIjvvljSwtQ7f/f0KtRzo+kuNYgytYbMABRYB5o6UyKMFfRjaAMs5DPQQcVsfGf4uzql3q5qDNZWfeGXetKnTom34IY1bqXw8vnGwTmW2lm/hK2K21gFUAn83ixk+en3JwI8fCxtTExaKOg75Cp0XBbf5/CUWxv0iafVy8CDjD72UFkFcsJY6lYaQ==|hnppkEyXY/+nr3irHuvBSNmJZ2qiJPSG82ZeL1zLhL8=";

/// An Ed25519 key made from a constant seed, as OpenSSH writes it.
fn ssh_pem() -> String {
    let key = PrivateKey::from(Ed25519Keypair::from_seed(&[7; 32]));
    key.to_openssh(LineEnding::LF).unwrap().to_string()
}

/// The Mersenne number with `bits` bits.
fn mersenne(bits: usize) -> BigUint {
    (BigUint::from(1u8) << bits) - BigUint::from(1u8)
}

/// An RSA key made from two Mersenne primes, in PKCS#8.
fn rsa_der() -> Vec<u8> {
    let key = RsaPrivateKey::from_p_q(mersenne(607), mersenne(521), 65537u32.into()).unwrap();
    key.to_pkcs8_der().unwrap().as_bytes().to_vec()
}

fn some(s: &str) -> Option<String> {
    Some(s.to_string())
}

fn user_keys() -> ([u8; 32], [u8; 32]) {
    let all: Vec<u8> = (0u8..64).collect();
    (all[..32].try_into().unwrap(), all[32..].try_into().unwrap())
}

fn item(id: &str, kind: i32, name: Option<String>) -> CipherSync {
    CipherSync {
        id: id.to_string(),
        organization_id: None,
        folder_id: None,
        kind,
        name,
        notes: None,
        favorite: false,
        reprompt: 0,
        organization_use_totp: false,
        edit: true,
        view_password: true,
        creation_date: "2026-01-01".to_string(),
        revision_date: "2026-01-02".to_string(),
        deleted_date: None,
        archived_date: None,
        key: None,
        login: None,
        card: None,
        identity: None,
        secure_note: None,
        ssh_key: None,
        fields: None,
        attachments: None,
        collection_ids: None,
        password_history: None,
        permissions: None,
        object: "cipherDetails".to_string(),
        extra: "{}".to_string(),
    }
}

fn vault(ciphers: Vec<CipherSync>) -> SyncResponse {
    SyncResponse {
        profile: ProfileSync {
            id: "user-123".to_string(),
            email: "test@example.com".to_string(),
            email_verified: false,
            name: some("Test User"),
            premium: false,
            premium_from_organization: false,
            private_key: None,
            public_key: None,
            security_stamp: None,
            two_factor_enabled: false,
            uses_key_connector: false,
            culture: "en-US".to_string(),
            creation_date: String::new(),
            avatar_color: None,
            force_password_reset: false,
            key: "wrapped-key".to_string(),
            organizations: None,
            provider_organizations: None,
            providers: None,
            _status: None,
            object: "profile".to_string(),
            extra: "{\"customField\":\"Custom Value\"}".to_string(),
        },
        ciphers,
        folders: None,
        domains: None,
        policies: None,
        sends: None,
        object: "sync".to_string(),
        user_decryption: None,
        extra: "{\"customSyncField\":\"Custom Sync Value\"}".to_string(),
    }
}

fn offline(kdf_type: u32, iterations: u32, memory: Option<u32>, parallelism: Option<u32>) -> MasterPasswordUnlockSync {
    MasterPasswordUnlockSync {
        kdf: KdfSync { kdf_type, iterations, memory, parallelism },
        master_key_wrapped_user_key: WRAPPED.to_string(),
        salt: "test@example.com".to_string(),
    }
}

fn locked_vault() -> SyncResponse {
    let mut sync = vault(vec![item("1", 1, some(E_NAME))]);
    sync.profile.key = WRAPPED.to_string();
    sync.user_decryption =
        Some(UserDecryptionSync { master_password_unlock: Some(offline(0, 5000, None, None)) });
    sync
}

fn plain(id: &str, kind: i32, name: &str) -> CipherItem {
    CipherItem {
        id: id.to_string(),
        kind,
        name: name.to_string(),
        notes: None,
        login: None,
        fields: None,
        ssh_key: None,
    }
}

#[test]
fn files_lie_in_the_cache() {
    assert_eq!(db_path(&some("/c")).as_deref(), Some("/c/vault.db"));
    assert_eq!(db_path(&None), None);
    assert_eq!(unencrypted_db_path(&some("/c/")).as_deref(), Some("/c/vault.db.raw"));
    assert_eq!(unencrypted_db_path(&None), None);
    assert_eq!(join_path("", "x"), "x");
}

#[test]
fn a_login_is_decrypted() {
    let (enc, mac) = user_keys();
    let mut cipher = item("1", 1, some(E_NAME));
    cipher.notes = some(E_NOTES);
    cipher.login = Some(LoginSync {
        username: some(E_USERNAME),
        password: some(E_PASSWORD),
        uri: some(E_URI),
    });
    cipher.fields = Some(vec![FieldSync {
        name: E_FIELD_NAME.to_string(),
        value: some(E_FIELD_VALUE),
        kind: 1,
    }]);
    let items = parse_and_decrypt_all_ciphers(&vault(vec![cipher]), &enc, &mac);
    assert_eq!(items.len(), 1);
    assert_eq!(items[0].id, "1");
    assert_eq!(items[0].kind, 1);
    assert_eq!(items[0].name, "GitHub");
    assert_eq!(items[0].notes.as_deref(), Some("remember me"));
    let login = items[0].login.as_ref().unwrap();
    assert_eq!(login.username.as_deref(), Some("octocat"));
    assert_eq!(login.password.as_deref(), Some("hunter2"));
    assert_eq!(login.uri.as_deref(), Some("https://github.com"));
    let fields = items[0].fields.as_ref().unwrap();
    assert_eq!(fields[0].name, "pin");
    assert_eq!(fields[0].value.as_deref(), Some("1234"));
    assert_eq!(fields[0].kind, 1);
}

#[test]
fn an_item_with_a_key_of_its_own_is_decrypted() {
    let (enc, mac) = user_keys();
    let mut cipher = item("1", 1, some(E_OWN_NAME));
    cipher.key = some(ITEM_KEY);
    let items = parse_and_decrypt_all_ciphers(&vault(vec![cipher]), &enc, &mac);
    assert_eq!(items[0].name, "Own key");
}

#[test]
fn an_item_of_an_organization_is_decrypted() {
    let (enc, mac) = user_keys();
    let mut cipher = item("1", 1, some(E_ORG_NAME));
    cipher.organization_id = some("org");
    let mut sync = vault(vec![cipher]);
    sync.profile.private_key = some(E_RSA);
    sync.profile.organizations = Some(vec![OrganizationSync {
        id: "org".to_string(),
        name: "Org".to_string(),
        key: ORG_SHA1.to_string(),
        object: "organization".to_string(),
        extra: "{}".to_string(),
    }]);
    let (items, warnings) = decrypt_vault(&sync, &enc, &mac);
    assert_eq!(items[0].name, "Team login");
    assert!(warnings.is_empty());
}

#[test]
fn a_bad_organization_key_leaves_a_warning() {
    let (enc, mac) = user_keys();
    for key in [ORG_SHA256, "7.AAAA", "x.AAAA", "AAAA", "3.!"] {
        let mut sync = vault(vec![]);
        sync.profile.private_key = some(E_RSA);
        sync.profile.organizations = Some(vec![OrganizationSync {
            id: "org".to_string(),
            name: "Org".to_string(),
            key: key.to_string(),
            object: "organization".to_string(),
            extra: "{}".to_string(),
        }]);
        let (_, warnings) = decrypt_vault(&sync, &enc, &mac);
        assert_eq!(warnings.len(), 1, "{}", key);
    }
}

#[test]
fn organization_keys_are_refused_by_name() {
    let der = rsa_der();
    assert_eq!(parse_org_key("AAAA").unwrap_err(), "Invalid organization key format");
    assert_eq!(parse_org_key("x.AAAA").unwrap_err(), "Invalid enc_type");
    assert_eq!(parse_org_key("4.AAAA|BB").unwrap(), (4, "AAAA".to_string()));
    assert!(decrypt_org_key("4.!", &der)
        .unwrap_err()
        .starts_with("Failed to base64 decode organization key ciphertext: "));
    assert_eq!(
        decrypt_org_key("7.AAAA", &der).unwrap_err(),
        "Unsupported organization key encryption type: 7"
    );
    assert_eq!(
        decrypt_org_key(ORG_SHA256, &der).unwrap_err(),
        "Decrypted organization key has invalid length: 32 (expected 64)"
    );
    let org: Vec<u8> = (64u8..128).collect();
    let keys = decrypt_org_key(ORG_SHA1, &der).unwrap();
    assert_eq!([keys.0, keys.1].concat(), org);
    assert_eq!(split_org_key(Err("why".to_string())).unwrap_err(), "why");
}

#[test]
fn the_keys_of_an_item_are_chosen() {
    let user = user_keys();
    let org = ([1u8; 32], [2u8; 32]);
    let mut orgs = OrgKeys::new();
    orgs.insert(&"org".to_string(), org);
    assert_eq!(choose_keys(&None, &user, &orgs), user);
    assert_eq!(choose_keys(&some("org"), &user, &orgs), org);
    assert_eq!(choose_keys(&some("other"), &user, &orgs), user);
    let mut own = item("1", 1, None);
    assert_eq!(find_item_keys(&own, &user, &orgs).unwrap(), user);
    own.key = some(ITEM_KEY);
    let bytes: Vec<u8> = (100u8..164).collect();
    let keys = find_item_keys(&own, &user, &orgs).unwrap();
    assert_eq!([keys.0, keys.1].concat(), bytes);
    assert_eq!(
        split_item_key(Ok(vec![0; 3])).unwrap_err(),
        "Decrypted cipher key has invalid length: 3 (expected 64)"
    );
}

#[test]
fn deleted_items_are_passed_over() {
    let mut items = Vec::new();
    let mut cipher = item("1", 1, some(BAD_MAC));
    cipher.deleted_date = some("2026");
    let orgs = OrgKeys::new();
    assert!(decrypt_single_cipher(&cipher, &user_keys(), &orgs, &mut items).is_ok());
    assert!(items.is_empty());
    cipher.deleted_date = None;
    assert!(decrypt_single_cipher(&cipher, &user_keys(), &orgs, &mut items).is_err());
    cipher.name = None;
    assert!(decrypt_single_cipher(&cipher, &user_keys(), &orgs, &mut items).is_ok());
    assert_eq!(items[0].name, "Unnamed Vault Item");
}

#[test]
fn texts_that_are_not_utf8_are_named() {
    let refused = |cipher: &CipherSync| {
        decrypt_single_cipher(cipher, &user_keys(), &OrgKeys::new(), &mut Vec::new()).unwrap_err()
    };
    assert!(refused(&item("1", 1, some(NOT_UTF8)))
        .starts_with("Decrypted name is not valid UTF-8: "));
    let mut cipher = item("1", 1, None);
    cipher.notes = some(NOT_UTF8);
    assert!(refused(&cipher).starts_with("Decrypted notes not valid UTF-8: "));
    let mut cipher = item("1", 1, None);
    cipher.fields =
        Some(vec![FieldSync { name: NOT_UTF8.to_string(), value: None, kind: 0 }]);
    assert!(refused(&cipher).starts_with("Decrypted field name is not valid UTF-8: "));
    cipher.fields = Some(vec![FieldSync {
        name: E_FIELD_NAME.to_string(),
        value: some(NOT_UTF8),
        kind: 0,
    }]);
    assert!(refused(&cipher).starts_with("Decrypted field value is not valid UTF-8: "));
    let mut cipher = item("1", 1, None);
    let login = |u: Option<String>, p: Option<String>, w: Option<String>| {
        Some(LoginSync { username: u, password: p, uri: w })
    };
    cipher.login = login(some(NOT_UTF8), None, None);
    assert!(refused(&cipher).starts_with("Decrypted username is not valid UTF-8: "));
    cipher.login = login(None, some(NOT_UTF8), None);
    assert!(refused(&cipher).starts_with("Decrypted password is not valid UTF-8: "));
    cipher.login = login(None, None, some(NOT_UTF8));
    assert!(refused(&cipher).starts_with("Decrypted URI is not valid UTF-8: "));
    let mut cipher = item("1", 5, None);
    cipher.ssh_key = Some(SshKeySync { private_key: some(NOT_UTF8), public_key: None });
    assert!(refused(&cipher).starts_with("Decrypted private key is not valid UTF-8: "));
    cipher.ssh_key = Some(SshKeySync { private_key: None, public_key: some(NOT_UTF8) });
    assert!(refused(&cipher).starts_with("Decrypted public key is not valid UTF-8: "));
    assert_eq!(decrypt_text("label: ", E_NAME, &user_keys()).unwrap(), "GitHub");
}

#[test]
fn one_bad_item_does_not_keep_others_away() {
    let (enc, mac) = user_keys();
    let sync = vault(vec![
        item("1", 1, some(E_NAME)),
        item("2", 1, some(BAD_MAC)),
        item("3", 1, some(NOT_UTF8)),
        item("4", 1, some(E_NAME)),
    ]);
    let (items, warnings) = decrypt_vault(&sync, &enc, &mac);
    assert_eq!(items.iter().map(|i| i.id.as_str()).collect::<Vec<_>>(), ["1", "4"]);
    assert_eq!(warnings.len(), 2);
}

#[test]
fn ssh_keys_are_found_in_items_fields_and_notes() {
    let mut native = plain("1", 5, "native");
    native.ssh_key = Some(DecryptedSshKey { private_key: Some(ssh_pem()), public_key: some("pub") });
    let mut field = plain("2", 1, "field");
    field.fields = Some(vec![
        DecryptedField { name: "My SSH_Key".to_string(), value: Some(ssh_pem()), kind: 1 },
        DecryptedField { name: "other".to_string(), value: Some(ssh_pem()), kind: 1 },
        DecryptedField { name: "ssh_key".to_string(), value: some("none"), kind: 1 },
    ]);
    let mut note = plain("3", 2, "note");
    note.notes = Some(ssh_pem());
    let mut login = plain("4", 1, "login");
    login.notes = Some(ssh_pem());
    let keys = extract_ssh_keys_from_ciphers(&[native, field, note, login]);
    assert_eq!(keys.len(), 3);
    assert_eq!((keys[0].id.as_str(), keys[0].name.as_str()), ("1", "native"));
    assert_eq!(keys[0].public_key.as_deref(), Some("pub"));
    assert_eq!((keys[1].id.as_str(), keys[1].name.as_str()), ("2", "field (My SSH_Key)"));
    assert_eq!((keys[2].id.as_str(), keys[2].name.as_str()), ("3", "note"));
    assert_eq!(keys[2].note.as_deref(), Some("Extracted from secure note text body"));
    assert!(keys.iter().all(|k| k.private_key == ssh_pem()));
}

#[test]
fn ssh_keys_of_a_vault_are_decrypted() {
    let (enc, mac) = user_keys();
    let mut cipher = item("1", 5, some(E_NAME));
    cipher.ssh_key = Some(SshKeySync { private_key: some(E_SSH), public_key: None });
    let keys = decrypt_ssh_keys(&vault(vec![cipher]), &enc, &mac);
    assert_eq!(keys.len(), 1);
    assert_eq!(keys[0].name, "GitHub");
    assert_eq!(keys[0].private_key, ssh_pem());
}

#[test]
fn the_cached_vault_opens_with_the_password() {
    let (items, enc, mac) =
        decrypt_sync_response_offline(&locked_vault(), "masterpassword123").unwrap();
    assert_eq!((enc, mac), user_keys());
    assert_eq!(items[0].name, "GitHub");
}

#[test]
fn the_cached_vault_stays_shut_without_it() {
    assert!(decrypt_sync_response_offline(&locked_vault(), "wrong").is_err());
    let mut sync = locked_vault();
    sync.user_decryption = Some(UserDecryptionSync { master_password_unlock: None });
    assert_eq!(
        decrypt_sync_response_offline(&sync, "masterpassword123").unwrap_err(),
        "Offline KDF data missing from local cache"
    );
    sync.user_decryption = None;
    assert_eq!(
        decrypt_sync_response_offline(&sync, "masterpassword123").unwrap_err(),
        "Offline decryption settings missing from local cache. Please sync online first."
    );
}

#[test]
fn offline_settings_are_checked() {
    let derive = |u: MasterPasswordUnlockSync| derive_offline_master_key("masterpassword123", &u);
    assert_eq!(hex::encode(derive(offline(0, 5000, None, None)).unwrap()), MASTER);
    assert_eq!(hex::encode(derive(offline(1, 2, Some(8), Some(1))).unwrap()), ARGON);
    assert_eq!(
        derive(offline(1, 2, None, Some(1))).unwrap_err(),
        "Argon2 memory parameter missing"
    );
    assert_eq!(
        derive(offline(1, 2, Some(8), None)).unwrap_err(),
        "Argon2 parallelism parameter missing"
    );
    assert_eq!(derive(offline(4, 2, None, None)).unwrap_err(), "Unsupported KDF type: 4");
}

#[test]
fn only_an_endless_session_keeps_a_plain_cache() {
    let (enc, mac) = user_keys();
    let sync = vault(vec![item("1", 1, some(E_NAME))]);
    match handle_post_sync(&sync, " Never ", &enc, &mac) {
        PostSync::Keep { items } => assert_eq!(items[0].name, "GitHub"),
        PostSync::Wipe => panic!("the cache is kept"),
    }
    assert!(matches!(handle_post_sync(&sync, "15m", &enc, &mac), PostSync::Wipe));
}
