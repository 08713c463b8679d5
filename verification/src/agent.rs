//! The SSH agent protocol: requests, replies, and the keys that answer them.
use rsa::signature::Signer;
use ssh_encoding::Encode;
use ssh_key::private::{KeypairData, PrivateKey};
use ssh_key::Signature;
use vstd::prelude::*;
use vstd::string::*;
use vstd::utf8::*;

use crate::crypto;
use crate::primitives;
use crate::storage;
use crate::storage::SshKeyItem;
use crate::text;

verus! {

// ---------------------------------------------------------------------------
// Wire format
// ---------------------------------------------------------------------------
/// A number of 32 bits, the highest byte first.
pub open spec fn big_endian(n: u32) -> Seq<u8> {
    seq![
        (n / 0x100_0000) as u8,
        (n / 0x1_0000 % 0x100) as u8,
        (n / 0x100 % 0x100) as u8,
        (n % 0x100) as u8,
    ]
}

/// The number in the four bytes from `at`.
pub open spec fn number_at(data: Seq<u8>, at: int) -> int {
    data[at] * 0x100_0000 + data[at + 1] * 0x1_0000 + data[at + 2] * 0x100 + data[at + 3]
}

/// Bytes behind their length.
pub open spec fn prefixed(bytes: Seq<u8>) -> Seq<u8> {
    big_endian(bytes.len() as u32) + bytes
}

/// The number from `at`, and what follows it.
pub open spec fn take_number(data: Seq<u8>, at: int) -> Result<(int, int), Seq<char>> {
    if data.len() - at < 4 {
        Err("Unexpected EOF reading u32"@)
    } else {
        Ok((number_at(data, at), at + 4))
    }
}

/// The bytes behind their length from `at`, and what follows them.
pub open spec fn take_string(data: Seq<u8>, at: int) -> Result<(Seq<u8>, int), Seq<char>> {
    match take_number(data, at) {
        Err(e) => Err(e),
        Ok((length, from)) => if data.len() - from < length {
            Err("Unexpected EOF reading bytes"@)
        } else {
            Ok((data.subrange(from, from + length), from + length))
        },
    }
}

/// Reads a request from its front.
pub struct Reader<'a> {
    data: &'a [u8],
    offset: usize,
}

impl<'a> Reader<'a> {
    /// The whole request.
    pub closed spec fn data(self) -> Seq<u8> {
        self.data@
    }

    /// The number of bytes that were read.
    pub closed spec fn position(self) -> int {
        self.offset as int
    }

    /// No more was read than there is.
    pub open spec fn valid(self) -> bool {
        0 <= self.position() <= self.data().len()
    }

    /// Begins at the front.
    pub fn new(data: &'a [u8]) -> (r: Self)
        ensures
            r.valid(),
            r.data() == data@,
            r.position() == 0,
    {
        Reader { data, offset: 0 }
    }

    /// Reads one byte.
    pub fn read_u8(&mut self) -> (r: Result<u8, String>)
        requires
            old(self).valid(),
        ensures
            final(self).valid(),
            final(self).data() == old(self).data(),
            match r {
                Ok(b) => {
                    &&& old(self).position() < old(self).data().len()
                    &&& b == old(self).data()[old(self).position()]
                    &&& final(self).position() == old(self).position() + 1
                },
                Err(e) => {
                    &&& old(self).position() == old(self).data().len()
                    &&& e@ == "Unexpected EOF reading u8"@
                    &&& final(self).position() == old(self).position()
                },
            },
    {
        if self.offset >= self.data.len() {
            return Err("Unexpected EOF reading u8".to_owned());
        }
        let b: u8 = self.data[self.offset];
        self.offset = self.offset + 1;
        Ok(b)
    }

    /// Reads a number of 32 bits, the highest byte first.
    pub fn read_u32(&mut self) -> (r: Result<u32, String>)
        requires
            old(self).valid(),
        ensures
            final(self).valid(),
            final(self).data() == old(self).data(),
            match r {
                Ok(n) => take_number(old(self).data(), old(self).position()) == Ok::<
                    (int, int),
                    Seq<char>,
                >((n as int, final(self).position())),
                Err(e) => {
                    &&& take_number(old(self).data(), old(self).position()) == Err::<
                        (int, int),
                        Seq<char>,
                    >(e@)
                    &&& final(self).position() == old(self).position()
                },
            },
    {
        if self.data.len() - self.offset < 4 {
            return Err("Unexpected EOF reading u32".to_owned());
        }
        let at: usize = self.offset;
        let n: u32 = self.data[at] as u32 * 0x100_0000 + self.data[at + 1] as u32 * 0x1_0000
            + self.data[at + 2] as u32 * 0x100 + self.data[at + 3] as u32;
        self.offset = at + 4;
        Ok(n)
    }

    /// Reads `len` bytes.
    pub fn read_bytes(&mut self, len: usize) -> (r: Result<&'a [u8], String>)
        requires
            old(self).valid(),
        ensures
            final(self).valid(),
            final(self).data() == old(self).data(),
            match r {
                Ok(bytes) => {
                    &&& len <= old(self).data().len() - old(self).position()
                    &&& bytes@ == old(self).data().subrange(
                        old(self).position(),
                        old(self).position() + len,
                    )
                    &&& final(self).position() == old(self).position() + len
                },
                Err(e) => {
                    &&& len > old(self).data().len() - old(self).position()
                    &&& e@ == "Unexpected EOF reading bytes"@
                    &&& final(self).position() == old(self).position()
                },
            },
    {
        if self.data.len() - self.offset < len {
            return Err("Unexpected EOF reading bytes".to_owned());
        }
        let bytes = &self.data[self.offset..self.offset + len];
        self.offset = self.offset + len;
        Ok(bytes)
    }

    /// Reads bytes behind their length.
    pub fn read_string(&mut self) -> (r: Result<&'a [u8], String>)
        requires
            old(self).valid(),
        ensures
            final(self).valid(),
            final(self).data() == old(self).data(),
            match r {
                Ok(bytes) => take_string(old(self).data(), old(self).position()) == Ok::<
                    (Seq<u8>, int),
                    Seq<char>,
                >((bytes@, final(self).position())),
                Err(e) => {
                    &&& take_string(old(self).data(), old(self).position()) == Err::<
                        (Seq<u8>, int),
                        Seq<char>,
                    >(e@)
                    &&& final(self).position() == old(self).position() + if take_number(
                        old(self).data(),
                        old(self).position(),
                    ) is Err {
                        0int
                    } else {
                        4
                    }
                },
            },
    {
        match self.read_u32() {
            Ok(len) => self.read_bytes(len as usize),
            Err(e) => Err(e),
        }
    }
}

/// Writes a reply.
pub struct Writer {
    buf: Vec<u8>,
}

impl View for Writer {
    type V = Seq<u8>;

    closed spec fn view(&self) -> Seq<u8> {
        self.buf@
    }
}

impl Writer {
    /// An empty reply.
    pub fn new() -> (r: Self)
        ensures
            r@ == Seq::<u8>::empty(),
    {
        Writer { buf: Vec::new() }
    }

    /// Writes one byte.
    pub fn write_u8(&mut self, val: u8)
        ensures
            final(self)@ == old(self)@.push(val),
    {
        self.buf.push(val);
    }

    /// Writes a number of 32 bits, the highest byte first.
    pub fn write_u32(&mut self, val: u32)
        ensures
            final(self)@ == old(self)@ + big_endian(val),
    {
        self.buf.push((val / 0x100_0000) as u8);
        self.buf.push((val / 0x1_0000 % 0x100) as u8);
        self.buf.push((val / 0x100 % 0x100) as u8);
        self.buf.push((val % 0x100) as u8);
        assert(self.buf@ =~= old(self)@ + big_endian(val));
    }

    /// Writes bytes.
    pub fn write_bytes(&mut self, val: &[u8])
        ensures
            final(self)@ == old(self)@ + val@,
    {
        self.buf.extend_from_slice(val);
        assert(self.buf@ =~= old(self)@ + val@);
    }

    /// Writes bytes behind their length.
    pub fn write_string(&mut self, val: &[u8])
        ensures
            final(self)@ == old(self)@ + prefixed(val@),
    {
        self.write_u32(val.len() as u32);
        self.write_bytes(val);
        assert(self@ =~= old(self)@ + prefixed(val@));
    }

    /// The reply.
    pub fn into_bytes(self) -> (r: Vec<u8>)
        ensures
            r@ == self@,
    {
        self.buf
    }
}

proof fn lemma_number_at(front: Seq<u8>, n: u32, rest: Seq<u8>)
    ensures
        take_number(front + big_endian(n) + rest, front.len() as int) == Ok::<
            (int, int),
            Seq<char>,
        >((n as int, front.len() as int + 4)),
{
    let b = big_endian(n);
    let data = front + b + rest;
    let at = front.len() as int;
    assert(data[at] == b[0] && data[at + 1] == b[1] && data[at + 2] == b[2] && data[at + 3]
        == b[3]);
    assert(n == (n / 0x100_0000) * 0x100_0000 + (n / 0x1_0000 % 0x100) * 0x1_0000 + (n / 0x100
        % 0x100) * 0x100 + n % 0x100);
}

proof fn lemma_string_at(front: Seq<u8>, bytes: Seq<u8>, rest: Seq<u8>)
    requires
        bytes.len() <= u32::MAX,
    ensures
        take_string(front + prefixed(bytes) + rest, front.len() as int) == Ok::<
            (Seq<u8>, int),
            Seq<char>,
        >((bytes, front.len() as int + 4 + bytes.len())),
{
    let data = front + prefixed(bytes) + rest;
    let n = bytes.len() as u32;
    lemma_number_at(front, n, bytes + rest);
    assert(data =~= front + big_endian(n) + (bytes + rest));
    let at = front.len() as int + 4;
    assert(data.subrange(at, at + bytes.len()) =~= bytes);
}

/// A number that was written is read back.
pub proof fn numbers_are_read_back(n: u32, rest: Seq<u8>)
    ensures
        take_number(big_endian(n) + rest, 0) == Ok::<(int, int), Seq<char>>((n as int, 4)),
{
    lemma_number_at(Seq::empty(), n, rest);
    assert(Seq::<u8>::empty() + big_endian(n) + rest =~= big_endian(n) + rest);
}

/// Bytes that were written behind their length are read back, whatever follows them.
pub proof fn strings_are_read_back(bytes: Seq<u8>, rest: Seq<u8>)
    requires
        bytes.len() <= u32::MAX,
    ensures
        take_string(prefixed(bytes) + rest, 0) == Ok::<(Seq<u8>, int), Seq<char>>(
            (bytes, 4 + bytes.len() as int),
        ),
{
    lemma_string_at(Seq::empty(), bytes, rest);
    assert(Seq::<u8>::empty() + prefixed(bytes) + rest =~= prefixed(bytes) + rest);
}

// ---------------------------------------------------------------------------
// Keys
// ---------------------------------------------------------------------------
/// The digest that goes into a signature.
#[derive(Debug, Clone, Copy, PartialEq, Eq, Structural)]
pub enum SignatureHash {
    Sha256,
    Sha512,
}

/// What an OpenSSH private key holds that the agent shows: its public key, or why that cannot
/// be written, and whether it is an RSA key.
pub uninterp spec fn openssh_key(text: Seq<char>) -> Option<(Result<Seq<u8>, Seq<char>>, bool)>;

/// `ssh_key::PrivateKey::from_openssh`, with `PublicKey::to_bytes` on its public key and the
/// test of its data for `KeypairData::Rsa`: what comes out depends on the text alone.
#[verifier::external_body]
fn read_openssh_key(text: &str) -> (r: Option<(Result<Vec<u8>, String>, bool)>)
    ensures
        (match r {
            Some((blob, is_rsa)) => Some((text::result_view(blob), is_rsa)),
            None => None,
        }) == openssh_key(text@),
{
    let key = PrivateKey::from_openssh(text).ok()?;
    let blob = key.public_key().to_bytes().map_err(|e| e.to_string());
    Some((blob, matches!(key.key_data(), KeypairData::Rsa(_))))
}

/// The signature over data that an OpenSSH private key makes: the fault of signing outside, that
/// of writing the signature inside.
pub uninterp spec fn openssh_signature(text: Seq<char>, data: Seq<u8>) -> Result<
    Result<Seq<u8>, Seq<char>>,
    Seq<char>,
>;

/// What a signing attempt gave, by its value.
pub open spec fn signed_view(r: Result<Result<Vec<u8>, String>, String>) -> Result<
    Result<Seq<u8>, Seq<char>>,
    Seq<char>,
> {
    match r {
        Ok(inner) => Ok(text::result_view(inner)),
        Err(e) => Err(e@),
    }
}

/// `ssh_key::PrivateKey::from_openssh` and its `signature::Signer::try_sign` on the data as they
/// are, with the signature written by `ssh_encoding::Encode::encode` and errors given as their
/// texts. Signing takes no randomness: what comes out depends on the arguments alone.
#[verifier::external_body]
fn sign_openssh(text: &str, data: &[u8]) -> (r: Result<Result<Vec<u8>, String>, String>)
    ensures
        signed_view(r) == openssh_signature(text@, data@),
{
    let key = PrivateKey::from_openssh(text).map_err(|e| e.to_string())?;
    let made: Signature = key.try_sign(data).map_err(|e| e.to_string())?;
    let mut out = Vec::new();
    let written = made.encode(&mut out);
    Ok(written.map(|_| out).map_err(|e| e.to_string()))
}

/// The numbers of an OpenSSH RSA private key, the highest byte of each first: the modulus, both
/// exponents and both primes.
pub uninterp spec fn openssh_rsa_numbers(text: Seq<char>) -> Option<
    (Seq<u8>, Seq<u8>, Seq<u8>, Seq<u8>, Seq<u8>),
>;

/// `ssh_key::PrivateKey::from_openssh` and `KeypairData::rsa`, each number by its
/// `Mpint::as_positive_bytes`: what comes out depends on the text alone.
#[verifier::external_body]
fn read_rsa_numbers(text: &str) -> (r: Option<(Vec<u8>, Vec<u8>, Vec<u8>, Vec<u8>, Vec<u8>)>)
    ensures
        (match r {
            Some((n, e, d, p, q)) => Some((n@, e@, d@, p@, q@)),
            None => None,
        }) == openssh_rsa_numbers(text@),
{
    let key = PrivateKey::from_openssh(text).ok()?;
    let pair = key.key_data().rsa()?;
    let n = pair.public.n.as_positive_bytes()?.to_vec();
    let e = pair.public.e.as_positive_bytes()?.to_vec();
    let d = pair.private.d.as_positive_bytes()?.to_vec();
    let p = pair.private.p.as_positive_bytes()?.to_vec();
    let q = pair.private.q.as_positive_bytes()?.to_vec();
    Some((n, e, d, p, q))
}

/// The smallest modulus, in bytes, of an RSA key that signs.
pub const MIN_RSA_BYTES: usize = 256;

/// The name of an RSA signature algorithm.
pub open spec fn rsa_algorithm(hash: SignatureHash) -> Seq<char> {
    match hash {
        SignatureHash::Sha256 => "rsa-sha2-256"@,
        SignatureHash::Sha512 => "rsa-sha2-512"@,
    }
}

/// An RSA signature behind the name of its algorithm.
pub open spec fn rsa_blob(hash: SignatureHash, signature: Seq<u8>) -> Seq<u8> {
    prefixed(encode_utf8(rsa_algorithm(hash))) + prefixed(signature)
}

/// Writes an RSA signature behind the name of its algorithm.
pub fn write_rsa_signature(hash: SignatureHash, signature: &[u8]) -> (r: Vec<u8>)
    ensures
        r@ == rsa_blob(hash, signature@),
{
    let name = match hash {
        SignatureHash::Sha256 => "rsa-sha2-256",
        SignatureHash::Sha512 => "rsa-sha2-512",
    };
    let mut writer = Writer::new();
    writer.write_string(name.as_bytes());
    writer.write_string(signature);
    assert(writer@ =~= rsa_blob(hash, signature@));
    writer.into_bytes()
}

/// The signature over data that the RSA key document makes.
pub open spec fn document_signature(der: Seq<u8>, hash: SignatureHash, data: Seq<u8>) -> Result<
    Seq<u8>,
    Seq<char>,
> {
    match crypto::rsa_fault(primitives::rsa_key_fault(der), primitives::rsa_prime_bits(der)) {
        Some(fault) => Err(fault),
        None => if primitives::rsa_modulus_bytes(der) < MIN_RSA_BYTES {
            Err("RSA key is shorter than 2048 bits"@)
        } else {
            match hash {
                SignatureHash::Sha256 => primitives::rsa_sha256_signature(der, data),
                SignatureHash::Sha512 => primitives::rsa_sha512_signature(der, data),
            }
        },
    }
}

/// Signs data with an RSA key document.
pub fn sign_with_document(der: &[u8], hash: SignatureHash, data: &[u8]) -> (r: Result<
    Vec<u8>,
    String,
>)
    ensures
        text::result_view(r) == document_signature(der@, hash, data@),
{
    match crypto::check_rsa_key(der) {
        Err(e) => Err(e),
        Ok(_) => {
            if primitives::rsa_measure_modulus(der) < MIN_RSA_BYTES {
                return Err("RSA key is shorter than 2048 bits".to_owned());
            }
            match hash {
                SignatureHash::Sha256 => primitives::rsa_sha256_sign(der, data),
                SignatureHash::Sha512 => primitives::rsa_sha512_sign(der, data),
            }
        },
    }
}

/// The signature over data that an OpenSSH RSA private key makes, behind the name of its
/// algorithm.
pub open spec fn rsa_signature(text: Seq<char>, hash: SignatureHash, data: Seq<u8>) -> Result<
    Seq<u8>,
    Seq<char>,
> {
    match openssh_rsa_numbers(text) {
        None => Err("RSA key cannot be read"@),
        Some((n, e, d, p, q)) => match primitives::rsa_document(n, e, d, p, q) {
            Err(fault) => Err(fault),
            Ok(der) => match document_signature(der, hash, data) {
                Err(fault) => Err(fault),
                Ok(signature) => Ok(rsa_blob(hash, signature)),
            },
        },
    }
}

/// Signs data with an OpenSSH RSA private key.
fn sign_rsa(text: &str, hash: SignatureHash, data: &[u8]) -> (r: Result<Vec<u8>, String>)
    ensures
        text::result_view(r) == rsa_signature(text@, hash, data@),
{
    let (n, e, d, p, q) = match read_rsa_numbers(text) {
        Some(numbers) => numbers,
        None => {
            return Err("RSA key cannot be read".to_owned());
        },
    };
    match primitives::rsa_write(&n, &e, &d, &p, &q) {
        Err(fault) => Err(fault),
        Ok(der) => match sign_with_document(&der, hash, data) {
            Err(fault) => Err(fault),
            Ok(signature) => Ok(write_rsa_signature(hash, &signature)),
        },
    }
}

/// A key that the agent offers: the OpenSSH text, a comment, the public key or why it cannot be
/// written, and whether it is an RSA key.
#[derive(Debug)]
pub struct AgentKey {
    pub private_key: String,
    pub comment: String,
    pub public_blob: Result<Vec<u8>, String>,
    pub is_rsa: bool,
}

/// The value of an [`AgentKey`].
pub struct OfferedKey {
    pub private_key: Seq<char>,
    pub comment: Seq<char>,
    pub public_blob: Result<Seq<u8>, Seq<char>>,
    pub is_rsa: bool,
}

impl View for AgentKey {
    type V = OfferedKey;

    open spec fn view(&self) -> OfferedKey {
        OfferedKey {
            private_key: self.private_key@,
            comment: self.comment@,
            public_blob: text::result_view(self.public_blob),
            is_rsa: self.is_rsa,
        }
    }
}

/// The keys that items offer, each under the name of its item; texts that are no OpenSSH keys
/// are passed over.
pub open spec fn offered_keys(items: Seq<storage::KeyTexts>) -> Seq<OfferedKey>
    decreases items.len(),
{
    if items.len() == 0 {
        Seq::empty()
    } else {
        let before = offered_keys(items.drop_last());
        match openssh_key(items.last().private_key) {
            Some((public_blob, is_rsa)) => before.push(
                OfferedKey {
                    private_key: items.last().private_key,
                    comment: items.last().name,
                    public_blob,
                    is_rsa,
                },
            ),
            None => before,
        }
    }
}

/// The keys that items offer.
pub fn load_agent_keys(items: &[SshKeyItem]) -> (r: Vec<AgentKey>)
    ensures
        storage::seq_view(r@) == offered_keys(storage::seq_view(items@)),
{
    let mut keys: Vec<AgentKey> = Vec::new();
    let ghost texts = storage::seq_view(items@);
    assert(texts.take(0) =~= Seq::<storage::KeyTexts>::empty());
    assert(storage::seq_view(keys@) =~= Seq::<OfferedKey>::empty());
    for i in 0..items.len()
        invariant
            texts == storage::seq_view(items@),
            storage::seq_view(keys@) == offered_keys(texts.take(i as int)),
    {
        let item = &items[i];
        assert(texts.take(i + 1).drop_last() =~= texts.take(i as int));
        let ghost before = keys@;
        match read_openssh_key(&item.private_key) {
            Some((public_blob, is_rsa)) => {
                let key = AgentKey {
                    private_key: item.private_key.clone(),
                    comment: item.name.clone(),
                    public_blob,
                    is_rsa,
                };
                keys.push(key);
                assert(storage::seq_view(keys@) =~= storage::seq_view(before).push(key@));
            },
            None => {},
        }
    }
    assert(texts.take(items@.len() as int) =~= texts);
    keys
}

// ---------------------------------------------------------------------------
// Requests
// ---------------------------------------------------------------------------
pub const SSH2_AGENTC_REQUEST_IDENTITIES: u8 = 11;

pub const SSH2_AGENT_IDENTITIES_ANSWER: u8 = 12;

pub const SSH2_AGENTC_SIGN_REQUEST: u8 = 13;

pub const SSH2_AGENT_SIGN_RESPONSE: u8 = 14;

pub const SSH_AGENT_FAILURE: u8 = 5;

/// The flag of a signing request that asks RSA keys for SHA-512.
pub const SSH_AGENT_RSA_SHA2_512: u32 = 4;

/// The public keys and comments of keys; the first that cannot be written is a fault.
pub open spec fn identities(keys: Seq<OfferedKey>) -> Result<Seq<u8>, Seq<char>>
    decreases keys.len(),
{
    if keys.len() == 0 {
        Ok(Seq::empty())
    } else {
        match identities(keys.drop_last()) {
            Err(e) => Err(e),
            Ok(before) => match keys.last().public_blob {
                Err(e) => Err("Failed to serialize public key: "@ + e),
                Ok(blob) => Ok(
                    before + prefixed(blob) + prefixed(encode_utf8(keys.last().comment)),
                ),
            },
        }
    }
}

/// The reply to a request for identities.
pub open spec fn identities_reply(keys: Seq<OfferedKey>) -> Result<Seq<u8>, Seq<char>> {
    match identities(keys) {
        Err(e) => Err(e),
        Ok(list) => Ok(
            seq![SSH2_AGENT_IDENTITIES_ANSWER] + big_endian(keys.len() as u32) + list,
        ),
    }
}

/// The first of the keys from `from` on with this public key; one on the way that cannot be
/// written is a fault.
pub open spec fn find_key(keys: Seq<OfferedKey>, blob: Seq<u8>, from: int) -> Result<
    Option<OfferedKey>,
    Seq<char>,
>
    decreases keys.len() - from,
{
    if from < 0 || from >= keys.len() {
        Ok(None)
    } else {
        match keys[from].public_blob {
            Err(e) => Err("Failed to serialize public key: "@ + e),
            Ok(found) => if found == blob {
                Ok(Some(keys[from]))
            } else {
                find_key(keys, blob, from + 1)
            },
        }
    }
}

/// A signing request: the public key, the data and the flags.
pub open spec fn sign_request(data: Seq<u8>) -> Result<(Seq<u8>, Seq<u8>, int), Seq<char>> {
    match take_string(data, 1) {
        Err(e) => Err(e),
        Ok((blob, at)) => match take_string(data, at) {
            Err(e) => Err(e),
            Ok((payload, at)) => match take_number(data, at) {
                Err(e) => Err(e),
                Ok((flags, _)) => Ok((blob, payload, flags)),
            },
        },
    }
}

/// The digest that the flags of a request and the kind of the key ask for.
pub open spec fn wanted_hash(is_rsa: bool, flags: u32) -> SignatureHash {
    if is_rsa && flags & SSH_AGENT_RSA_SHA2_512 != 0 {
        SignatureHash::Sha512
    } else {
        SignatureHash::Sha256
    }
}

/// The reply with a signature, or the fault of making it.
pub open spec fn signature_reply(signed: Result<Result<Seq<u8>, Seq<char>>, Seq<char>>) -> Result<
    Seq<u8>,
    Seq<char>,
> {
    match signed {
        Err(e) => Err("Signing failed: "@ + e),
        Ok(Err(e)) => Err("Failed to serialize signature: "@ + e),
        Ok(Ok(signature)) => Ok(seq![SSH2_AGENT_SIGN_RESPONSE] + prefixed(signature)),
    }
}

/// What a key makes of data that it signs: RSA keys use the digest, other keys have their own.
pub open spec fn key_signature(key: OfferedKey, hash: SignatureHash, data: Seq<u8>) -> Result<
    Result<Seq<u8>, Seq<char>>,
    Seq<char>,
> {
    if key.is_rsa {
        match rsa_signature(key.private_key, hash, data) {
            Ok(signature) => Ok(Ok(signature)),
            Err(e) => Err(e),
        }
    } else {
        openssh_signature(key.private_key, data)
    }
}

/// The reply to a signing request.
pub open spec fn sign_reply(request: Seq<u8>, keys: Seq<OfferedKey>) -> Result<
    Seq<u8>,
    Seq<char>,
> {
    match sign_request(request) {
        Err(e) => Err(e),
        Ok((blob, payload, flags)) => match find_key(keys, blob, 0) {
            Err(e) => Err(e),
            Ok(None) => Ok(seq![SSH_AGENT_FAILURE]),
            Ok(Some(key)) => signature_reply(
                key_signature(key, wanted_hash(key.is_rsa, flags as u32), payload),
            ),
        },
    }
}

/// The reply to a request.
pub open spec fn agent_reply(request: Seq<u8>, keys: Seq<OfferedKey>) -> Result<
    Seq<u8>,
    Seq<char>,
> {
    if request.len() == 0 {
        Err("Unexpected EOF reading u8"@)
    } else if request[0] == SSH2_AGENTC_REQUEST_IDENTITIES {
        identities_reply(keys)
    } else if request[0] == SSH2_AGENTC_SIGN_REQUEST {
        sign_reply(request, keys)
    } else {
        Ok(seq![SSH_AGENT_FAILURE])
    }
}

/// Whether two runs of bytes are the same.
fn same_bytes(a: &[u8], b: &[u8]) -> (r: bool)
    ensures
        r == (a@ == b@),
{
    if a.len() != b.len() {
        return false;
    }
    for i in 0..a.len()
        invariant
            a@.len() == b@.len(),
            forall|j: int| 0 <= j < i ==> a@[j] == b@[j],
    {
        if a[i] != b[i] {
            return false;
        }
    }
    assert(a@ =~= b@);
    true
}

proof fn lemma_identities_fault(keys: Seq<OfferedKey>, n: int)
    requires
        0 <= n <= keys.len(),
        identities(keys.take(n)) is Err,
    ensures
        identities(keys) == identities(keys.take(n)),
    decreases keys.len() - n,
{
    if n == keys.len() {
        assert(keys.take(n) =~= keys);
    } else {
        assert(keys.take(n + 1).drop_last() =~= keys.take(n));
        lemma_identities_fault(keys, n + 1);
    }
}

/// Answers a request for identities.
pub fn list_identities(keys: &[AgentKey]) -> (r: Result<Vec<u8>, String>)
    ensures
        text::result_view(r) == identities_reply(storage::seq_view(keys@)),
{
    let ghost all = storage::seq_view(keys@);
    let ghost head = seq![SSH2_AGENT_IDENTITIES_ANSWER] + big_endian(keys@.len() as u32);
    let mut writer = Writer::new();
    writer.write_u8(SSH2_AGENT_IDENTITIES_ANSWER);
    writer.write_u32(keys.len() as u32);
    assert(writer@ =~= head + Seq::<u8>::empty());
    assert(all.take(0) =~= Seq::<OfferedKey>::empty());
    for i in 0..keys.len()
        invariant
            all == storage::seq_view(keys@),
            head == seq![SSH2_AGENT_IDENTITIES_ANSWER] + big_endian(keys@.len() as u32),
            identities(all.take(i as int)) matches Ok(list) && writer@ == head + list,
    {
        let key = &keys[i];
        assert(all.take(i + 1).drop_last() =~= all.take(i as int));
        match &key.public_blob {
            Err(e) => {
                proof {
                    lemma_identities_fault(all, i + 1);
                }
                return Err(text::join2("Failed to serialize public key: ", e));
            },
            Ok(blob) => {
                let ghost list = identities(all.take(i as int))->Ok_0;
                writer.write_string(blob);
                writer.write_string(key.comment.as_str().as_bytes());
                assert(writer@ =~= head + (list + prefixed(blob@) + prefixed(
                    encode_utf8(key.comment@),
                )));
            },
        }
    }
    assert(all.take(keys@.len() as int) =~= all);
    Ok(writer.into_bytes())
}

/// Makes the reply with a signature of what signing gave.
pub fn reply_with_signature(signed: Result<Result<Vec<u8>, String>, String>) -> (r: Result<
    Vec<u8>,
    String,
>)
    ensures
        text::result_view(r) == signature_reply(signed_view(signed)),
{
    match signed {
        Err(e) => Err(text::join2("Signing failed: ", &e)),
        Ok(Err(e)) => Err(text::join2("Failed to serialize signature: ", &e)),
        Ok(Ok(signature)) => {
            let mut writer = Writer::new();
            writer.write_u8(SSH2_AGENT_SIGN_RESPONSE);
            writer.write_string(&signature);
            assert(writer@ =~= seq![SSH2_AGENT_SIGN_RESPONSE] + prefixed(signature@));
            Ok(writer.into_bytes())
        },
    }
}

/// The reply that refuses a request.
pub fn failure_reply() -> (r: Vec<u8>)
    ensures
        r@ == seq![SSH_AGENT_FAILURE],
{
    let mut writer = Writer::new();
    writer.write_u8(SSH_AGENT_FAILURE);
    assert(writer@ =~= seq![SSH_AGENT_FAILURE]);
    writer.into_bytes()
}

fn pick_key<'a>(keys: &'a [AgentKey], blob: &[u8]) -> (r: Result<Option<&'a AgentKey>, String>)
    ensures
        (match r {
            Ok(Some(key)) => Ok(Some(key@)),
            Ok(None) => Ok(None),
            Err(e) => Err(e@),
        }) == find_key(storage::seq_view(keys@), blob@, 0),
{
    let ghost all = storage::seq_view(keys@);
    for i in 0..keys.len()
        invariant
            all == storage::seq_view(keys@),
            find_key(all, blob@, 0) == find_key(all, blob@, i as int),
    {
        let key = &keys[i];
        assert(all[i as int] == key@);
        match &key.public_blob {
            Err(e) => {
                return Err(text::join2("Failed to serialize public key: ", e));
            },
            Ok(found) => {
                if same_bytes(found, blob) {
                    return Ok(Some(key));
                }
            },
        }
    }
    Ok(None)
}

/// Answers a signing request; `reader` stands behind its first byte.
fn sign(mut reader: Reader, keys: &[AgentKey]) -> (r: Result<Vec<u8>, String>)
    requires
        reader.valid(),
        reader.position() == 1,
    ensures
        text::result_view(r) == sign_reply(reader.data(), storage::seq_view(keys@)),
{
    let blob = match reader.read_string() {
        Ok(blob) => blob,
        Err(e) => {
            return Err(e);
        },
    };
    let payload = match reader.read_string() {
        Ok(payload) => payload,
        Err(e) => {
            return Err(e);
        },
    };
    let flags: u32 = match reader.read_u32() {
        Ok(flags) => flags,
        Err(e) => {
            return Err(e);
        },
    };
    match pick_key(keys, blob) {
        Err(e) => Err(e),
        Ok(None) => Ok(failure_reply()),
        Ok(Some(key)) => {
            let hash = if key.is_rsa && flags & SSH_AGENT_RSA_SHA2_512 != 0 {
                SignatureHash::Sha512
            } else {
                SignatureHash::Sha256
            };
            if key.is_rsa {
                match sign_rsa(&key.private_key, hash, payload) {
                    Ok(signature) => reply_with_signature(Ok(Ok(signature))),
                    Err(e) => reply_with_signature(Err(e)),
                }
            } else {
                reply_with_signature(sign_openssh(&key.private_key, payload))
            }
        },
    }
}

/// Answers a request of an SSH client with the given keys.
pub fn handle_agent_request(request_data: &[u8], keys: &[AgentKey]) -> (r: Result<Vec<u8>, String>)
    ensures
        text::result_view(r) == agent_reply(request_data@, storage::seq_view(keys@)),
{
    let mut reader = Reader::new(request_data);
    let kind: u8 = match reader.read_u8() {
        Ok(kind) => kind,
        Err(e) => {
            return Err(e);
        },
    };
    if kind == SSH2_AGENTC_REQUEST_IDENTITIES {
        list_identities(keys)
    } else if kind == SSH2_AGENTC_SIGN_REQUEST {
        sign(reader, keys)
    } else {
        Ok(failure_reply())
    }
}

// ---------------------------------------------------------------------------
// Laws
// ---------------------------------------------------------------------------
/// A signature is only made with a key that is offered and that the request names.
pub proof fn only_the_named_key_signs(keys: Seq<OfferedKey>, blob: Seq<u8>, from: int)
    requires
        0 <= from,
        find_key(keys, blob, from) matches Ok(Some(_)),
    ensures
        exists|i: int|
            from <= i < keys.len() && (#[trigger] keys[i]).public_blob == Ok::<
                Seq<u8>,
                Seq<char>,
            >(blob) && find_key(keys, blob, from) == Ok::<Option<OfferedKey>, Seq<char>>(
                Some(keys[i]),
            ),
    decreases keys.len() - from,
{
    if keys[from].public_blob != Ok::<Seq<u8>, Seq<char>>(blob) {
        only_the_named_key_signs(keys, blob, from + 1);
    }
}

/// The request to sign data with the key that has a public key, under flags.
pub open spec fn signing_request(blob: Seq<u8>, data: Seq<u8>, flags: u32) -> Seq<u8> {
    seq![SSH2_AGENTC_SIGN_REQUEST] + prefixed(blob) + prefixed(data) + big_endian(flags)
}

proof fn lemma_four_parts(a: Seq<u8>, b: Seq<u8>, c: Seq<u8>, d: Seq<u8>)
    ensures
        a + b + c + d == a + b + (c + d),
        a + b + c + d == a + b + c + d + Seq::<u8>::empty(),
{
    assert(a + b + c + d =~= a + b + (c + d));
    assert(a + b + c + d =~= a + b + c + d + Seq::<u8>::empty());
}

proof fn lemma_prefixed_len(bytes: Seq<u8>)
    ensures
        prefixed(bytes).len() == 4 + bytes.len(),
{
}

proof fn lemma_request_parts(kind: Seq<u8>, blob: Seq<u8>, data: Seq<u8>, flags: u32)
    requires
        blob.len() <= u32::MAX,
        data.len() <= u32::MAX,
        kind.len() == 1,
    ensures
        ({
            let request = kind + prefixed(blob) + prefixed(data) + big_endian(flags);
            let first = 5 + blob.len() as int;
            let second = first + 4 + data.len();
            &&& take_string(request, 1) == Ok::<(Seq<u8>, int), Seq<char>>((blob, first))
            &&& take_string(request, first) == Ok::<(Seq<u8>, int), Seq<char>>((data, second))
            &&& take_number(request, second) == Ok::<(int, int), Seq<char>>(
                (flags as int, second + 4),
            )
        }),
{
    lemma_four_parts(kind, prefixed(blob), prefixed(data), big_endian(flags));
    lemma_prefixed_len(blob);
    lemma_prefixed_len(data);
    lemma_string_at(kind, blob, prefixed(data) + big_endian(flags));
    lemma_string_at(kind + prefixed(blob), data, big_endian(flags));
    lemma_number_at(kind + prefixed(blob) + prefixed(data), flags, Seq::empty());
}

/// A signing request is read back as it was written.
pub proof fn signing_requests_are_read_back(blob: Seq<u8>, data: Seq<u8>, flags: u32)
    requires
        blob.len() <= u32::MAX,
        data.len() <= u32::MAX,
    ensures
        sign_request(signing_request(blob, data, flags)) == Ok::<
            (Seq<u8>, Seq<u8>, int),
            Seq<char>,
        >((blob, data, flags as int)),
{
    lemma_request_parts(seq![SSH2_AGENTC_SIGN_REQUEST], blob, data, flags);
}

/// A request to sign a challenge is answered with the signature of the first key with the public
/// key that it names, over the challenge itself, where that key can sign.
pub proof fn the_challenge_is_signed(
    keys: Seq<OfferedKey>,
    key: OfferedKey,
    blob: Seq<u8>,
    data: Seq<u8>,
    flags: u32,
    signature: Seq<u8>,
)
    requires
        blob.len() <= u32::MAX,
        data.len() <= u32::MAX,
        find_key(keys, blob, 0) == Ok::<Option<OfferedKey>, Seq<char>>(Some(key)),
        key_signature(key, wanted_hash(key.is_rsa, flags), data) == Ok::<
            Result<Seq<u8>, Seq<char>>,
            Seq<char>,
        >(Ok(signature)),
    ensures
        agent_reply(signing_request(blob, data, flags), keys) == Ok::<Seq<u8>, Seq<char>>(
            seq![SSH2_AGENT_SIGN_RESPONSE] + prefixed(signature),
        ),
{
    signing_requests_are_read_back(blob, data, flags);
    assert(signing_request(blob, data, flags)[0] == SSH2_AGENTC_SIGN_REQUEST);
}

/// Without keys every request is answered without one: the list is empty, and a signing request
/// that can be read is refused.
pub proof fn without_keys_nothing_is_signed(request: Seq<u8>)
    ensures
        agent_reply(request, Seq::empty()) matches Ok(reply) ==> reply == seq![SSH_AGENT_FAILURE]
            || reply == seq![SSH2_AGENT_IDENTITIES_ANSWER, 0u8, 0u8, 0u8, 0u8],
{
    let empty = Seq::<OfferedKey>::empty();
    assert(identities(empty) == Ok::<Seq<u8>, Seq<char>>(Seq::empty()));
    assert(seq![SSH2_AGENT_IDENTITIES_ANSWER] + big_endian(0) + Seq::<u8>::empty() =~= seq![
        SSH2_AGENT_IDENTITIES_ANSWER,
        0u8,
        0u8,
        0u8,
        0u8,
    ]);
}

/// A reply is never empty.
pub proof fn replies_are_not_empty(request: Seq<u8>, keys: Seq<OfferedKey>)
    ensures
        agent_reply(request, keys) matches Ok(reply) ==> reply.len() >= 1,
{
}

} // verus!
