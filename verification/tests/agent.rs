use bitter::agent::{
    failure_reply, handle_agent_request, list_identities, load_agent_keys, reply_with_signature,
    sign_with_document, write_rsa_signature, AgentKey, Reader, SignatureHash, Writer,
};
use bitter::api::{CipherSync, ProfileSync, SshKeySync, SyncResponse};
use bitter::daemon::ssh::{answer_message, asks_for_unlock, frame, frame_length};
use bitter::daemon::KeysContext;
use bitter::storage::SshKeyItem;
use rsa::signature::Verifier;
use rsa::{BigUint, RsaPrivateKey};
use ssh_key::private::{Ed25519Keypair, RsaKeypair};
use ssh_key::{Algorithm, LineEnding, PrivateKey, Signature};

const E_SSH: &str = "2.9KRT5iL4wQt2vFYv2aIw6Q==|W4Q6hz2bQs8G2Ou/OAYFCHSE6WW0twNznevsTfmytXMEmVP9W9jAt4FGDJbV6ZTFp2+nMX+TcCeocSRbP8jdvIgtrjdZxOolcd72sI6GMNM9G5KTy46poCqTHkvE9ORAt0L0/JgHsHqgFk278Qcbs9QbAby8oklL1uOBtEITCAXhktTgv/7SoKnUOo0WSriEqSJ4dgBen1IeVtgGWqbS0PzJQc+RtxLBfnBoOCd5zHo9jXwAj3lfzC0vaF/fHLaPGYR83VWcld++mbPlrb2V6uLsPbGiw/J5OC9dL2V8rMUfD/slZUT7Ie8QUNRgwOPm4BkUT2VrZSWN4VcFbf4/1bWENHsppDIjvvljSwtQ7f/f0KtRzo+kuNYgytYbMABRYB5o6UyKMFfRjaAMs5DPQQcVsfGf4uzql3q5qDNZWfeGXetKnTom34IY1bqXw8vnGwTmW2lm/hK2K21gFUAn83ixk+en3JwI8fCxtTExaKOg75Cp0XBbf5/CUWxv0iafVy8CDjD72UFkFcsJY6lYaQ==|hnppkEyXY/+nr3irHuvBSNmJZ2qiJPSG82ZeL1zLhL8=";
const E_NAME: &str = "2.h6mmNDfonwOFKmQs/pRPIQ==|EipuHFL0puYl4cgOMhfzIQ==|F2k8VGbCRcnms9RDbf0W2vafXCfEk87zBcN1X046Z9U=";

const PUBLIC_BLOB: [u8; 51] = [0, 0, 0, 11, 115, 115, 104, 45, 101, 100, 50, 53, 53, 49, 57, 0, 0, 0, 32, 234, 74, 108, 99, 226, 156, 82, 10, 190, 245, 80, 123, 19, 46, 197, 249, 149, 71, 118, 174, 190, 190, 123, 146, 66, 30, 234, 105, 20, 70, 210, 44];

/// An Ed25519 key made from a constant seed, as OpenSSH writes it.
fn ssh_pem() -> String {
    let key = PrivateKey::from(Ed25519Keypair::from_seed(&[7; 32]));
    key.to_openssh(LineEnding::LF).unwrap().to_string()
}

/// The Mersenne number with `bits` bits.
fn mersenne(bits: usize) -> BigUint {
    (BigUint::from(1u8) << bits) - BigUint::from(1u8)
}

/// An RSA key made from two Mersenne primes.
fn rsa_key(first: usize, second: usize) -> RsaPrivateKey {
    RsaPrivateKey::from_p_q(mersenne(first), mersenne(second), 65537u32.into()).unwrap()
}

/// The same key, as OpenSSH writes it.
fn rsa_pem(first: usize, second: usize) -> String {
    let key = RsaKeypair::try_from(&rsa_key(first, second)).unwrap();
    PrivateKey::from(key).to_openssh(LineEnding::LF).unwrap().to_string()
}

fn some(s: &str) -> Option<String> {
    Some(s.to_string())
}

fn user_keys() -> ([u8; 32], [u8; 32]) {
    let all: Vec<u8> = (0u8..64).collect();
    (all[..32].try_into().unwrap(), all[32..].try_into().unwrap())
}

fn item(id: &str, kind: i32, name: Option<String>) -> CipherSync {
    CipherSync {
        id: id.to_string(),
        organization_id: None,
        folder_id: None,
        kind,
        name,
        notes: None,
        favorite: false,
        reprompt: 0,
        organization_use_totp: false,
        edit: true,
        view_password: true,
        creation_date: "2026-01-01".to_string(),
        revision_date: "2026-01-02".to_string(),
        deleted_date: None,
        archived_date: None,
        key: None,
        login: None,
        card: None,
        identity: None,
        secure_note: None,
        ssh_key: None,
        fields: None,
        attachments: None,
        collection_ids: None,
        password_history: None,
        permissions: None,
        object: "cipherDetails".to_string(),
        extra: "{}".to_string(),
    }
}

fn vault(ciphers: Vec<CipherSync>) -> SyncResponse {
    SyncResponse {
        profile: ProfileSync {
            id: "user-123".to_string(),
            email: "test@example.com".to_string(),
            email_verified: false,
            name: some("Test User"),
            premium: false,
            premium_from_organization: false,
            private_key: None,
            public_key: None,
            security_stamp: None,
            two_factor_enabled: false,
            uses_key_connector: false,
            culture: "en-US".to_string(),
            creation_date: String::new(),
            avatar_color: None,
            force_password_reset: false,
            key: "wrapped-key".to_string(),
            organizations: None,
            provider_organizations: None,
            providers: None,
            _status: None,
            object: "profile".to_string(),
            extra: "{\"customField\":\"Custom Value\"}".to_string(),
        },
        ciphers,
        folders: None,
        domains: None,
        policies: None,
        sends: None,
        object: "sync".to_string(),
        user_decryption: None,
        extra: "{\"customSyncField\":\"Custom Sync Value\"}".to_string(),
    }
}

fn key_item(name: &str, private_key: &str) -> SshKeyItem {
    SshKeyItem {
        id: "1".to_string(),
        name: name.to_string(),
        private_key: private_key.to_string(),
        public_key: None,
        note: None,
    }
}

fn keys() -> Vec<AgentKey> {
    load_agent_keys(&[key_item("first", &ssh_pem()), key_item("broken", "no key")])
}

fn string(bytes: &[u8]) -> Vec<u8> {
    let mut out = (bytes.len() as u32).to_be_bytes().to_vec();
    out.extend_from_slice(bytes);
    out
}

fn sign_request(blob: &[u8], data: &[u8], flags: u32) -> Vec<u8> {
    let mut out = vec![13];
    out.extend(string(blob));
    out.extend(string(data));
    out.extend(flags.to_be_bytes());
    out
}

fn key_vault() -> SyncResponse {
    let mut cipher = item("1", 5, some(E_NAME));
    cipher.ssh_key = Some(SshKeySync { private_key: some(E_SSH), public_key: None });
    vault(vec![cipher])
}

#[test]
fn requests_are_read_from_the_front() {
    let mut reader = Reader::new(&[7, 0, 0, 1, 2, 0, 0, 0, 2, 8, 9]);
    assert_eq!(reader.read_u8(), Ok(7));
    assert_eq!(reader.read_u32(), Ok(0x102));
    assert_eq!(reader.read_string(), Ok(&[8u8, 9][..]));
    assert_eq!(reader.read_u8().unwrap_err(), "Unexpected EOF reading u8");
    assert_eq!(reader.read_u32().unwrap_err(), "Unexpected EOF reading u32");
    assert_eq!(reader.read_bytes(1).unwrap_err(), "Unexpected EOF reading bytes");
    assert_eq!(reader.read_bytes(0), Ok(&[][..]));
}

#[test]
fn what_is_written_is_read_back() {
    let mut writer = Writer::new();
    writer.write_u8(5);
    writer.write_u32(0xdead_beef);
    writer.write_string(b"key");
    writer.write_bytes(b"!");
    let bytes = writer.into_bytes();
    assert_eq!(bytes, [5, 0xde, 0xad, 0xbe, 0xef, 0, 0, 0, 3, b'k', b'e', b'y', b'!']);
    let mut reader = Reader::new(&bytes);
    assert_eq!(reader.read_u8(), Ok(5));
    assert_eq!(reader.read_u32(), Ok(0xdead_beef));
    assert_eq!(reader.read_string(), Ok(&b"key"[..]));
}

#[test]
fn only_openssh_keys_are_offered() {
    let keys = keys();
    assert_eq!(keys.len(), 1);
    assert_eq!(keys[0].comment, "first");
    assert_eq!(keys[0].public_blob.as_ref().unwrap().as_slice(), PUBLIC_BLOB);
    assert!(!keys[0].is_rsa);
}

#[test]
fn identities_are_listed() {
    let mut expected = vec![12, 0, 0, 0, 1];
    expected.extend(string(&PUBLIC_BLOB));
    expected.extend(string(b"first"));
    assert_eq!(handle_agent_request(&[11], &keys()).unwrap(), expected);
    assert_eq!(list_identities(&keys()).unwrap(), expected);
    assert_eq!(handle_agent_request(&[11], &[]).unwrap(), [12, 0, 0, 0, 0]);
}

#[test]
fn a_key_that_cannot_be_written_is_a_fault() {
    let broken = AgentKey {
        private_key: String::new(),
        comment: String::new(),
        public_blob: Err("why".to_string()),
        is_rsa: false,
    };
    assert_eq!(
        handle_agent_request(&[11], &[broken]).unwrap_err(),
        "Failed to serialize public key: why"
    );
}

fn signature_of(reply: &[u8]) -> (Vec<u8>, Vec<u8>) {
    assert_eq!(reply[0], 14);
    let mut reader = Reader::new(&reply[1..]);
    let signature = reader.read_string().unwrap().to_vec();
    assert!(reader.read_u8().is_err());
    let mut inner = Reader::new(&signature);
    let name = inner.read_string().unwrap().to_vec();
    (name, inner.read_string().unwrap().to_vec())
}

#[test]
fn the_named_key_signs() {
    let reply = handle_agent_request(&sign_request(&PUBLIC_BLOB, b"data", 0), &keys()).unwrap();
    let (name, bytes) = signature_of(&reply);
    assert_eq!(name, b"ssh-ed25519");
    let signature = Signature::new(Algorithm::Ed25519, bytes).unwrap();
    let key = PrivateKey::from_openssh(&ssh_pem()).unwrap();
    key.public_key().key_data().verify(b"data", &signature).unwrap();
    assert!(key.public_key().key_data().verify(b"other", &signature).is_err());
}

#[test]
fn rsa_keys_sign_with_the_wanted_digest() {
    let keys = load_agent_keys(&[key_item("rsa", &rsa_pem(2203, 1279))]);
    assert!(keys[0].is_rsa);
    let blob = keys[0].public_blob.clone().unwrap();
    let public = rsa_key(2203, 1279).to_public_key();
    for flags in [4, 6] {
        let reply = handle_agent_request(&sign_request(&blob, b"data", flags), &keys).unwrap();
        let (name, bytes) = signature_of(&reply);
        assert_eq!(name, b"rsa-sha2-512");
        let signature = rsa::pkcs1v15::Signature::try_from(bytes.as_slice()).unwrap();
        let verifier = rsa::pkcs1v15::VerifyingKey::<sha2::Sha512>::new(public.clone());
        verifier.verify(b"data", &signature).unwrap();
    }
    for flags in [0, 2] {
        let reply = handle_agent_request(&sign_request(&blob, b"data", flags), &keys).unwrap();
        let (name, bytes) = signature_of(&reply);
        assert_eq!(name, b"rsa-sha2-256");
        let signature = rsa::pkcs1v15::Signature::try_from(bytes.as_slice()).unwrap();
        let verifier = rsa::pkcs1v15::VerifyingKey::<sha2::Sha256>::new(public.clone());
        verifier.verify(b"data", &signature).unwrap();
        assert!(verifier.verify(b"other", &signature).is_err());
    }
}

#[test]
fn rsa_keys_that_cannot_sign_are_faults() {
    for (first, second, fault) in [
        (607, 521, "Signing failed: RSA key is shorter than 2048 bits"),
        (1279, 2203, "Signing failed: RSA private key has unbalanced primes"),
    ] {
        let keys = load_agent_keys(&[key_item("rsa", &rsa_pem(first, second))]);
        let blob = keys[0].public_blob.clone().unwrap();
        assert_eq!(
            handle_agent_request(&sign_request(&blob, b"data", 0), &keys).unwrap_err(),
            fault
        );
    }
    let odd = AgentKey {
        private_key: ssh_pem(),
        comment: String::new(),
        public_blob: Ok(vec![1]),
        is_rsa: true,
    };
    assert_eq!(
        handle_agent_request(&sign_request(&[1], b"data", 0), &[odd]).unwrap_err(),
        "Signing failed: RSA key cannot be read"
    );
    assert!(sign_with_document(b"no key", SignatureHash::Sha256, b"data")
        .unwrap_err()
        .starts_with("Failed to parse RSA private key from PKCS#8 DER: "));
}

#[test]
fn rsa_signatures_stand_behind_their_algorithm() {
    assert_eq!(
        write_rsa_signature(SignatureHash::Sha256, &[7, 8]),
        [string(b"rsa-sha2-256"), string(&[7, 8])].concat()
    );
    assert_eq!(
        write_rsa_signature(SignatureHash::Sha512, &[]),
        [string(b"rsa-sha2-512"), string(&[])].concat()
    );
}

#[test]
fn a_short_string_leaves_the_reader_behind_its_length() {
    let mut reader = Reader::new(&[0, 0, 0, 5, 9]);
    assert_eq!(reader.read_string().unwrap_err(), "Unexpected EOF reading bytes");
    assert_eq!(reader.read_u8(), Ok(9));
    let mut reader = Reader::new(&[3, 0]);
    assert_eq!(reader.read_string().unwrap_err(), "Unexpected EOF reading u32");
    assert_eq!(reader.read_u8(), Ok(3));
}

#[test]
fn other_keys_do_not_sign() {
    assert_eq!(
        handle_agent_request(&sign_request(b"other", b"data", 0), &keys()).unwrap(),
        [5]
    );
    assert_eq!(handle_agent_request(&sign_request(&PUBLIC_BLOB, b"data", 0), &[]).unwrap(), [5]);
}

#[test]
fn broken_requests_are_faults() {
    assert_eq!(handle_agent_request(&[], &[]).unwrap_err(), "Unexpected EOF reading u8");
    assert_eq!(handle_agent_request(&[13, 0], &[]).unwrap_err(), "Unexpected EOF reading u32");
    assert_eq!(
        handle_agent_request(&[13, 0, 0, 0, 9], &[]).unwrap_err(),
        "Unexpected EOF reading bytes"
    );
    assert_eq!(handle_agent_request(&[99], &keys()).unwrap(), [5]);
    assert_eq!(failure_reply(), [5]);
}

#[test]
fn faults_of_signing_are_told_apart() {
    assert_eq!(
        reply_with_signature(Err("no".to_string())).unwrap_err(),
        "Signing failed: no"
    );
    assert_eq!(
        reply_with_signature(Ok(Err("no".to_string()))).unwrap_err(),
        "Failed to serialize signature: no"
    );
    assert_eq!(reply_with_signature(Ok(Ok(vec![1, 2]))).unwrap(), [14, 0, 0, 0, 2, 1, 2]);
}

#[test]
fn frames_carry_their_length() {
    assert_eq!(frame(&[5]), [0, 0, 0, 1, 5]);
    assert_eq!(frame_length([0, 0, 1, 2]), 0x102);
}

#[test]
fn a_locked_agent_asks_and_shows_nothing() {
    assert!(asks_for_unlock(&[11], true));
    assert!(asks_for_unlock(&[13, 1], true));
    assert!(!asks_for_unlock(&[13], false));
    assert!(!asks_for_unlock(&[1], true));
    assert!(!asks_for_unlock(&[], true));
    assert_eq!(answer_message(&[11], &None, &Ok(key_vault())), [12, 0, 0, 0, 0]);
    assert_eq!(answer_message(&[13], &None, &Ok(key_vault())), [5]);
}

#[test]
fn an_unlocked_agent_answers_from_the_vault() {
    let (enc_key, mac_key) = user_keys();
    let held = Some(KeysContext { user_id: "user-123".to_string(), enc_key, mac_key });
    let mut expected = vec![12, 0, 0, 0, 1];
    expected.extend(string(&PUBLIC_BLOB));
    expected.extend(string(b"GitHub"));
    assert_eq!(answer_message(&[11], &held, &Ok(key_vault())), expected);
    assert_eq!(answer_message(&[11], &held, &Err("gone".to_string())), [5]);
    assert_eq!(answer_message(&[], &held, &Ok(key_vault())), [5]);
}
