use aes_gcm::aead::{Aead, AeadCore, KeyInit, OsRng};
use aes_gcm::{Aes256Gcm, Key, Nonce};
use vstd::prelude::*;
use vstd::utf8::encode_utf8;

use crate::digest::{sha3_256, sha3_256_of};

verus! {

/// Bytes of the random nonce that heads every sealed blob.
pub const NONCE_LEN: usize = 12;

/// Bytes of the authentication tag that AES-GCM appends.
pub const TAG_LEN: usize = 16;

/// Longest plaintext that AES-GCM seals (2^36 bytes).
pub const MAX_PLAINTEXT: u64 = 68719476736;

/// AES-256-GCM ciphertext, tag appended, of `msg` under `key` and `nonce`,
/// with no associated data.
pub uninterp spec fn aead_seal(key: Seq<u8>, nonce: Seq<u8>, msg: Seq<u8>) -> Seq<u8>;

/// AES-256-GCM authenticated decryption of `body` under `key` and `nonce`:
/// `None` when the tag does not verify.
pub uninterp spec fn aead_open(key: Seq<u8>, nonce: Seq<u8>, body: Seq<u8>) -> Option<Seq<u8>>;

/// Relies on `aes_gcm::Aes256Gcm::generate_nonce` with `OsRng`: twelve bytes
/// drawn from the operating system's generator.
#[verifier::external_body]
fn fresh_nonce() -> (r: Vec<u8>)
    ensures
        r@.len() == NONCE_LEN,
{
    Aes256Gcm::generate_nonce(&mut OsRng).to_vec()
}

/// Relies on `Aead::encrypt` of `aes_gcm::Aes256Gcm` keyed with `key`: the
/// ciphertext with its 16-byte tag; it fails only for a plaintext longer
/// than 2^36 bytes.
#[verifier::external_body]
fn seal(key: &[u8], nonce: &[u8], msg: &[u8]) -> (r: Option<Vec<u8>>)
    requires
        key@.len() == 32,
        nonce@.len() == NONCE_LEN,
    ensures
        r is Some <==> msg@.len() <= MAX_PLAINTEXT,
        r matches Some(c) ==> c@ == aead_seal(key@, nonce@, msg@),
        r matches Some(c) ==> c@.len() == msg@.len() + TAG_LEN,
{
    let cipher = Aes256Gcm::new(Key::<Aes256Gcm>::from_slice(key));
    cipher.encrypt(Nonce::from_slice(nonce), msg).ok()
}

/// Relies on `Aead::decrypt` of `aes_gcm::Aes256Gcm` keyed with `key`: the
/// result depends on key, nonce and body alone, a plaintext is the body less
/// its 16-byte tag, and a body that `encrypt` produced under the same key and
/// nonce opens to its plaintext.
#[verifier::external_body]
fn open(key: &[u8], nonce: &[u8], body: &[u8]) -> (r: Option<Vec<u8>>)
    requires
        key@.len() == 32,
        nonce@.len() == NONCE_LEN,
    ensures
        r matches Some(m) ==> aead_open(key@, nonce@, body@) == Some(m@),
        r matches Some(m) ==> body@.len() == m@.len() + TAG_LEN,
        r is None ==> aead_open(key@, nonce@, body@) is None,
        forall|m: Seq<u8>|
            #![trigger aead_seal(key@, nonce@, m)]
            m.len() <= MAX_PLAINTEXT && aead_seal(key@, nonce@, m) == body@ ==> (r is Some
                && r->Some_0@ == m),
{
    let cipher = Aes256Gcm::new(Key::<Aes256Gcm>::from_slice(key));
    cipher.decrypt(Nonce::from_slice(nonce), body).ok()
}

/// The wire form of a sealed message: the nonce, then ciphertext and tag.
pub open spec fn sealed_blob(key: Seq<u8>, nonce: Seq<u8>, msg: Seq<u8>) -> Seq<u8> {
    nonce + aead_seal(key, nonce, msg)
}

/// What a blob opens to: nothing when it is shorter than a nonce, else the
/// authenticated decryption of the rest under its first twelve bytes.
pub open spec fn open_blob(key: Seq<u8>, blob: Seq<u8>) -> Option<Seq<u8>> {
    if blob.len() < NONCE_LEN {
        None
    } else {
        aead_open(key, blob.take(NONCE_LEN as int), blob.skip(NONCE_LEN as int))
    }
}

/// The one failure of sealing and opening; it carries no reason on purpose.
#[derive(Debug, Clone, Copy, PartialEq, Eq)]
pub struct SignError;

impl SignError {
    /// The message shown for this error.
    pub fn message(&self) -> (r: &'static str)
        ensures
            r@ == "ritw::models::Error"@,
    {
        "ritw::models::Error"
    }
}

/// Seals and opens byte strings with AES-256-GCM under a key derived from a
/// secret.
pub struct Sign {
    key: Vec<u8>,
}

impl Sign {
    /// The 32-byte symmetric key.
    pub closed spec fn key(&self) -> Seq<u8> {
        self.key@
    }

    /// Derives the key as the SHA3-256 digest of the secret's UTF-8 bytes.
    pub fn new(secret: &str) -> (r: Sign)
        ensures
            r.key() == sha3_256_of(encode_utf8(secret@)),
            r.key().len() == 32,
    {
        Sign { key: sha3_256(secret.as_bytes()) }
    }

    /// Seals `value` under the given nonce: the nonce followed by the
    /// ciphertext and its tag. Fails only when `value` is too long to seal.
    pub fn encrypt_with_nonce(&self, nonce: &[u8], value: &[u8]) -> (r: Result<Vec<u8>, SignError>)
        requires
            self.key().len() == 32,
            nonce@.len() == NONCE_LEN,
        ensures
            r is Ok <==> value@.len() <= MAX_PLAINTEXT,
            r matches Ok(b) ==> b@ == sealed_blob(self.key(), nonce@, value@),
            r matches Ok(b) ==> b@.len() == NONCE_LEN + value@.len() + TAG_LEN,
    {
        match seal(self.key.as_slice(), nonce, value) {
            Some(body) => {
                let mut out = vstd::slice::slice_to_vec(nonce);
                let mut body = body;
                out.append(&mut body);
                Ok(out)
            },
            None => Err(SignError),
        }
    }

    /// Seals `value` under a fresh random nonce.
    pub fn encrypt(&self, value: &[u8]) -> (r: Result<Vec<u8>, SignError>)
        requires
            self.key().len() == 32,
        ensures
            r is Ok <==> value@.len() <= MAX_PLAINTEXT,
            r matches Ok(b) ==> b@.len() == NONCE_LEN + value@.len() + TAG_LEN,
            r matches Ok(b) ==> b@ == sealed_blob(self.key(), b@.take(NONCE_LEN as int), value@),
    {
        let nonce = fresh_nonce();
        let r = self.encrypt_with_nonce(nonce.as_slice(), value);
        assert(r matches Ok(b) ==> b@.take(NONCE_LEN as int) =~= nonce@);
        r
    }

    /// Opens a sealed blob. Fails, with one uninformative error, when the
    /// blob is shorter than a nonce and a tag or does not authenticate; a blob that
    /// `encrypt` made under this key opens to the plaintext sealed in it.
    pub fn decrypt(&self, value: &[u8]) -> (r: Result<Vec<u8>, SignError>)
        requires
            self.key().len() == 32,
        ensures
            r is Err <==> open_blob(self.key(), value@) is None,
            r matches Ok(m) ==> open_blob(self.key(), value@) == Some(m@),
            r matches Ok(m) ==> value@.len() == NONCE_LEN + m@.len() + TAG_LEN,
            value@.len() < NONCE_LEN + TAG_LEN ==> r is Err,
            forall|nonce: Seq<u8>, m: Seq<u8>|
                #![trigger sealed_blob(self.key(), nonce, m)]
                nonce.len() == NONCE_LEN && m.len() <= MAX_PLAINTEXT && sealed_blob(
                    self.key(),
                    nonce,
                    m,
                ) == value@ ==> (r is Ok && r->Ok_0@ == m),
    {
        if value.len() < NONCE_LEN {
            return Err(SignError);
        }
        let (head, body) = value.split_at(NONCE_LEN);
        let r = match open(self.key.as_slice(), head, body) {
            Some(m) => Ok(m),
            None => Err(SignError),
        };
        assert forall|nonce: Seq<u8>, m: Seq<u8>|
            nonce.len() == NONCE_LEN && m.len() <= MAX_PLAINTEXT && #[trigger] sealed_blob(
                self.key(),
                nonce,
                m,
            ) == value@ implies (r is Ok && r->Ok_0@ == m) by {
            assert(head@ =~= nonce);
            assert(body@ =~= aead_seal(self.key(), nonce, m));
        }
        r
    }
}

} // verus!
