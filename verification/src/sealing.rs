//! Encrypted records: AES-256-GCM under a local key, written as base64 text.
use crate::digest;
use aes_gcm::aead::Aead;
use aes_gcm::{Aes256Gcm, KeyInit, Nonce};
use base64::engine::general_purpose::STANDARD;
use base64::Engine;
use vstd::prelude::*;
use vstd::string::*;
use vstd::utf8::*;

verus! {

/// The longest text that AES-GCM encrypts.
pub const MAX_PLAINTEXT: u64 = 68_719_476_736;

pub const KEY_BYTES: usize = 32;

pub const NONCE_BYTES: usize = 12;

/// The standard base64 text of a byte sequence, with padding.
pub uninterp spec fn base64_text(bytes: Seq<u8>) -> Seq<char>;

/// The bytes that a standard base64 text writes, where it is one.
pub uninterp spec fn base64_bytes(text: Seq<char>) -> Option<Seq<u8>>;

/// The AES-256-GCM ciphertext of a plaintext without associated data, its tag behind it.
pub uninterp spec fn aes_sealed(key: Seq<u8>, nonce: Seq<u8>, plaintext: Seq<u8>) -> Seq<u8>;

/// The plaintext of an AES-256-GCM ciphertext, where its tag is right.
pub uninterp spec fn aes_opened(key: Seq<u8>, nonce: Seq<u8>, ciphertext: Seq<u8>) -> Option<
    Seq<u8>,
>;

/// `encode` of base64's standard engine. Decoding the text gives the bytes back. The text must fit
/// into memory: it has four characters for three bytes.
#[verifier::external_body]
fn encode_base64(bytes: &[u8]) -> (text: String)
    requires
        bytes@.len() <= isize::MAX / 2,
    ensures
        text@ == base64_text(bytes@),
        base64_bytes(text@) == Some(bytes@),
{
    STANDARD.encode(bytes)
}

/// `decode` of base64's standard engine.
#[verifier::external_body]
fn decode_base64(text: &str) -> (bytes: Option<Vec<u8>>)
    ensures
        match bytes {
            Some(bytes) => base64_bytes(text@) == Some(bytes@),
            None => base64_bytes(text@) is None,
        },
{
    STANDARD.decode(text).ok()
}

/// `encrypt` of `Aes256Gcm`: it fails on nothing but a plaintext that is too long, adds a tag of
/// 16 bytes, and is undone by `decrypt`. A nonce of another length panics.
#[verifier::external_body]
fn encrypt(key: &[u8], nonce: &[u8], plaintext: &[u8]) -> (ciphertext: Option<Vec<u8>>)
    requires
        key@.len() == KEY_BYTES,
        nonce@.len() == NONCE_BYTES,
    ensures
        ciphertext is Some == (plaintext@.len() <= MAX_PLAINTEXT),
        ciphertext is Some ==> ciphertext->0@ == aes_sealed(key@, nonce@, plaintext@),
        ciphertext is Some ==> ciphertext->0@.len() == plaintext@.len() + 16,
        ciphertext is Some ==> aes_opened(key@, nonce@, ciphertext->0@) == Some(plaintext@),
{
    let cipher = Aes256Gcm::new_from_slice(key).ok()?;
    cipher.encrypt(Nonce::from_slice(nonce), plaintext).ok()
}

/// `decrypt` of `Aes256Gcm`. A nonce of another length panics.
#[verifier::external_body]
fn decrypt(key: &[u8], nonce: &[u8], ciphertext: &[u8]) -> (plaintext: Option<Vec<u8>>)
    requires
        key@.len() == KEY_BYTES,
        nonce@.len() == NONCE_BYTES,
    ensures
        match plaintext {
            Some(plaintext) => aes_opened(key@, nonce@, ciphertext@) == Some(plaintext@),
            None => aes_opened(key@, nonce@, ciphertext@) is None,
        },
{
    let cipher = Aes256Gcm::new_from_slice(key).ok()?;
    cipher.decrypt(Nonce::from_slice(nonce), ciphertext).ok()
}

/// `rand::random` for 12 bytes. Which ones is left open.
#[verifier::external_body]
fn random_nonce() -> (nonce: Vec<u8>)
    ensures
        nonce@.len() == NONCE_BYTES,
{
    rand::random::<[u8; 12]>().to_vec()
}

/// `rand::random` for 32 bytes. Which ones is left open.
#[verifier::external_body]
fn random_key() -> (key: Vec<u8>)
    ensures
        key@.len() == KEY_BYTES,
{
    rand::random::<[u8; 32]>().to_vec()
}

/// An encrypted record: the nonce and the ciphertext as base64 texts.
#[derive(Debug)]
pub struct SealedRecord {
    pub nonce: String,
    pub ciphertext: String,
}

/// The plaintext of a record under a key. The two texts have to be base64, the nonce and the key
/// have to have their lengths, and the tag has to be right.
pub open spec fn opened(key: Seq<u8>, nonce: Seq<char>, ciphertext: Seq<char>) -> Option<Seq<u8>> {
    match (base64_bytes(nonce), base64_bytes(ciphertext)) {
        (Some(nonce), Some(ciphertext)) => if nonce.len() == NONCE_BYTES && key.len() == KEY_BYTES {
            aes_opened(key, nonce, ciphertext)
        } else {
            None
        },
        _ => None,
    }
}

/// The record that a plaintext is sealed to under a key and a nonce.
pub open spec fn is_seal(
    record: SealedRecord,
    key: Seq<u8>,
    nonce: Seq<u8>,
    plaintext: Seq<u8>,
) -> bool {
    &&& nonce.len() == NONCE_BYTES
    &&& record.nonce@ == base64_text(nonce)
    &&& record.ciphertext@ == base64_text(aes_sealed(key, nonce, plaintext))
}

/// A fresh key.
pub fn new_key() -> (key: Vec<u8>)
    ensures
        key@.len() == KEY_BYTES,
{
    random_key()
}

/// Whether stored bytes are a key.
pub fn is_key(bytes: &[u8]) -> (result: bool)
    ensures
        result == (bytes@.len() == KEY_BYTES),
{
    bytes.len() == KEY_BYTES
}

/// Seals a plaintext under a key with a given nonce; nothing where the key or the nonce has
/// another length or the plaintext is too long. The record opens to the plaintext.
pub fn seal_with(key: &[u8], nonce: &[u8], plaintext: &[u8]) -> (record: Option<SealedRecord>)
    requires
        plaintext@.len() + 16 <= isize::MAX / 2,
    ensures
        record is Some == (key@.len() == KEY_BYTES && nonce@.len() == NONCE_BYTES
            && plaintext@.len() <= MAX_PLAINTEXT),
        record matches Some(record) ==> {
            &&& is_seal(record, key@, nonce@, plaintext@)
            &&& opened(key@, record.nonce@, record.ciphertext@) == Some(plaintext@)
        },
{
    if key.len() != KEY_BYTES || nonce.len() != NONCE_BYTES {
        return None;
    }
    match encrypt(key, nonce, plaintext) {
        Some(ciphertext) => Some(
            SealedRecord {
                nonce: encode_base64(nonce),
                ciphertext: encode_base64(ciphertext.as_slice()),
            },
        ),
        None => None,
    }
}

/// Seals a plaintext under a key with a nonce of its own. Whatever the nonce is, the record opens
/// to the plaintext.
pub fn seal(key: &[u8], plaintext: &[u8]) -> (record: Option<SealedRecord>)
    requires
        plaintext@.len() + 16 <= isize::MAX / 2,
    ensures
        record is Some == (key@.len() == KEY_BYTES && plaintext@.len() <= MAX_PLAINTEXT),
        record matches Some(record) ==> {
            &&& exists|nonce: Seq<u8>| is_seal(record, key@, nonce, plaintext@)
            &&& opened(key@, record.nonce@, record.ciphertext@) == Some(plaintext@)
        },
{
    let nonce: Vec<u8> = random_nonce();
    seal_with(key, nonce.as_slice(), plaintext)
}

/// Whether a record can be opened under some key: its texts are base64, and its nonce has its
/// length.
pub open spec fn is_decodable(nonce: Seq<char>, ciphertext: Seq<char>) -> bool {
    &&& base64_bytes(nonce) matches Some(nonce) && nonce.len() == NONCE_BYTES
    &&& base64_bytes(ciphertext) is Some
}

/// Whether a record can be opened under some key.
pub fn decodable(record: &SealedRecord) -> (result: bool)
    ensures
        result == is_decodable(record.nonce@, record.ciphertext@),
{
    match decode_base64(record.nonce.as_str()) {
        Some(nonce) => nonce.len() == NONCE_BYTES && decode_base64(
            record.ciphertext.as_str(),
        ).is_some(),
        None => false,
    }
}

/// Opens a record.
pub fn open(key: &[u8], record: &SealedRecord) -> (plaintext: Option<Vec<u8>>)
    ensures
        match plaintext {
            Some(plaintext) => opened(key@, record.nonce@, record.ciphertext@) == Some(plaintext@),
            None => opened(key@, record.nonce@, record.ciphertext@) is None,
        },
{
    let nonce: Vec<u8> = match decode_base64(record.nonce.as_str()) {
        Some(nonce) => nonce,
        None => {
            return None;
        },
    };
    let ciphertext: Vec<u8> = match decode_base64(record.ciphertext.as_str()) {
        Some(ciphertext) => ciphertext,
        None => {
            return None;
        },
    };
    if nonce.len() != NONCE_BYTES || key.len() != KEY_BYTES {
        return None;
    }
    decrypt(key, nonce.as_slice(), ciphertext.as_slice())
}

/// A peer is remembered by the base64 text of its identifier's digest.
pub open spec fn fingerprint(identifier: Seq<char>) -> Seq<char> {
    base64_text(digest::sha256_of(encode_utf8(identifier)))
}

/// The text that a peer is remembered by.
pub fn fingerprint_peer(identifier: &str) -> (text: String)
    ensures
        text@ == fingerprint(identifier@),
{
    let digest: Vec<u8> = digest::sha256(identifier.as_bytes());
    encode_base64(digest.as_slice())
}

/// The base64 text of the bytes of a pairing file.
pub fn pairing_file_text(bytes: &[u8]) -> (text: String)
    requires
        bytes@.len() <= isize::MAX / 2,
    ensures
        text@ == base64_text(bytes@),
        base64_bytes(text@) == Some(bytes@),
{
    encode_base64(bytes)
}

/// The bytes of a pairing file behind their base64 text.
pub fn pairing_file_bytes(text: &str) -> (bytes: Option<Vec<u8>>)
    ensures
        match bytes {
            Some(bytes) => base64_bytes(text@) == Some(bytes@),
            None => base64_bytes(text@) is None,
        },
{
    decode_base64(text)
}

/// A record opens to what its bytes decrypt to, under a key of 32 bytes and with a nonce of 12. A
/// text that is no base64, or another length, opens to nothing.
pub proof fn records_open_under_their_key(
    key: Seq<u8>,
    nonce: Seq<char>,
    ciphertext: Seq<char>,
)
    ensures
        key.len() != 32 ==> opened(key, nonce, ciphertext) is None,
        base64_bytes(nonce) is None || base64_bytes(ciphertext) is None ==> opened(
            key,
            nonce,
            ciphertext,
        ) is None,
        base64_bytes(nonce) matches Some(bytes) ==> bytes.len() != 12 ==> opened(
            key,
            nonce,
            ciphertext,
        ) is None,
        key.len() == 32 && base64_bytes(nonce) is Some && base64_bytes(nonce)->0.len() == 12
            && base64_bytes(ciphertext) is Some ==> opened(key, nonce, ciphertext) == aes_opened(
            key,
            base64_bytes(nonce)->0,
            base64_bytes(ciphertext)->0,
        ),
{
}

/// A record that cannot be decoded opens under no key, and one that opens under some key can be
/// decoded.
pub proof fn undecodable_records_stay_closed(
    key: Seq<u8>,
    nonce: Seq<char>,
    ciphertext: Seq<char>,
)
    ensures
        !is_decodable(nonce, ciphertext) ==> opened(key, nonce, ciphertext) is None,
        opened(key, nonce, ciphertext) is Some ==> is_decodable(nonce, ciphertext),
        base64_bytes(nonce) is Some && base64_bytes(nonce)->0.len() == 12 && base64_bytes(
            ciphertext,
        ) is Some ==> is_decodable(nonce, ciphertext),
{
}

/// A seal holds the texts of its nonce, of 12 bytes, and of the ciphertext under it.
pub proof fn seals_hold_their_nonce(
    record: SealedRecord,
    key: Seq<u8>,
    nonce: Seq<u8>,
    plaintext: Seq<u8>,
)
    requires
        is_seal(record, key, nonce, plaintext),
    ensures
        nonce.len() == 12,
        record.nonce@ == base64_text(nonce),
        record.ciphertext@ == base64_text(aes_sealed(key, nonce, plaintext)),
{
}

} // verus!
