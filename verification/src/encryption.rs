//! Encryption of a single secret field with AES-256-GCM: a fresh nonce for
//! every call, and a blob that is the nonce followed by the ciphertext with
//! its tag.

use vstd::prelude::*;
use vstd::slice::slice_subrange;
use vstd::string::StringSliceAdditionalSpecFns;
use vstd::utf8::{
    decode_utf8, decode_utf8_encode_utf8, encode_utf8, encode_utf8_decode_utf8,
    encode_utf8_valid_utf8, valid_utf8,
};
use aes_gcm::Aes256Gcm;
use aes_gcm::aead::{Aead, KeyInit, OsRng};
use aes_gcm::aead::generic_array::GenericArray;
use aes_gcm::aead::rand_core::RngCore;

verus! {

/// The length of a key, in bytes.
pub const KEY_LEN: usize = 32;

/// The length of a nonce, in bytes.
pub const NONCE_LEN: usize = 12;

/// The length of the tag that follows the ciphertext, in bytes.
pub const TAG_LEN: usize = 16;

/// The most bytes that one call can encrypt.
pub const MAX_PLAINTEXT_LEN: u64 = 0x10_0000_0000;

/// Why a blob could not be decrypted.
#[derive(Debug, Clone, Copy, PartialEq, Eq, Structural)]
pub enum CryptoError {
    /// The blob is shorter than a nonce.
    TooShort,
    /// The tag does not verify: the key is wrong or the blob was changed.
    AuthenticationFailed,
    /// The recovered bytes are not valid UTF-8.
    InvalidEncoding,
}

impl CryptoError {
    /// The error in words.
    pub open spec fn message_spec(self) -> Seq<char> {
        match self {
            CryptoError::TooShort => "Data too short"@,
            CryptoError::AuthenticationFailed => "Decryption failed"@,
            CryptoError::InvalidEncoding => "Invalid UTF-8"@,
        }
    }

    /// The error in words.
    pub fn message(&self) -> (r: String)
        ensures
            r@ == self.message_spec(),
    {
        match self {
            CryptoError::TooShort => "Data too short".to_owned(),
            CryptoError::AuthenticationFailed => "Decryption failed".to_owned(),
            CryptoError::InvalidEncoding => "Invalid UTF-8".to_owned(),
        }
    }
}

/// The ciphertext with its tag that AES-256-GCM makes of a plaintext under a
/// key and a nonce, without associated data.
pub uninterp spec fn sealed(key: Seq<u8>, nonce: Seq<u8>, plaintext: Seq<u8>) -> Seq<u8>;

/// The plaintext that AES-256-GCM recovers from a ciphertext with its tag
/// under a key and a nonce, or `None` where it recovers none: the input is
/// shorter than a tag, or the tag does not verify.
pub uninterp spec fn opened(key: Seq<u8>, nonce: Seq<u8>, ciphertext: Seq<u8>) -> Option<Seq<u8>>;

/// `RngCore::fill_bytes` of `OsRng` on a buffer of twelve bytes: twelve
/// bytes from the operating system's random source. Nothing is claimed of
/// their values.
#[verifier::external_body]
fn fresh_nonce() -> (r: Vec<u8>)
    ensures
        r@.len() == NONCE_LEN,
{
    let mut nonce = [0u8; 12];
    OsRng.fill_bytes(&mut nonce);
    nonce.to_vec()
}

/// `Aead::encrypt` of `Aes256Gcm`: fails exactly when the plaintext is longer
/// than the cipher takes; else gives the ciphertext followed by its tag of
/// sixteen bytes, which `Aead::decrypt` under the same key and nonce opens
/// to the plaintext.
#[verifier::external_body]
fn seal(key: &[u8], nonce: &[u8], plaintext: &[u8]) -> (r: Option<Vec<u8>>)
    requires
        key@.len() == KEY_LEN,
        nonce@.len() == NONCE_LEN,
    ensures
        r is Some <==> plaintext@.len() <= MAX_PLAINTEXT_LEN,
        r is Some ==> r->0@ == sealed(key@, nonce@, plaintext@),
        r is Some ==> r->0@.len() == plaintext@.len() + TAG_LEN,
        r is Some ==> opened(key@, nonce@, r->0@) == Some(plaintext@),
{
    let cipher = Aes256Gcm::new(GenericArray::from_slice(key));
    cipher.encrypt(GenericArray::from_slice(nonce), plaintext).ok()
}

/// `Aead::decrypt` of `Aes256Gcm`: the plaintext, or `None` where the
/// outside function reports an error. An input shorter than a tag is an
/// error. A plaintext is sixteen bytes shorter than the input it is
/// recovered from, and that input is what `Aead::encrypt` makes of the
/// plaintext under the same key and nonce: the tag is recomputed over the
/// ciphertext and compared in full, and the same key stream is applied.
#[verifier::external_body]
fn open(key: &[u8], nonce: &[u8], ciphertext: &[u8]) -> (r: Option<Vec<u8>>)
    requires
        key@.len() == KEY_LEN,
        nonce@.len() == NONCE_LEN,
    ensures
        r is Some <==> opened(key@, nonce@, ciphertext@) is Some,
        r is Some ==> r->0@ == opened(key@, nonce@, ciphertext@)->0,
        ciphertext@.len() < TAG_LEN ==> r is None,
        r is Some ==> r->0@.len() + TAG_LEN == ciphertext@.len(),
        r is Some && r->0@.len() <= MAX_PLAINTEXT_LEN ==> ciphertext@ == sealed(
            key@,
            nonce@,
            r->0@,
        ),
{
    let cipher = Aes256Gcm::new(GenericArray::from_slice(key));
    cipher.decrypt(GenericArray::from_slice(nonce), ciphertext).ok()
}

/// `String::from_utf8`: the text that the bytes encode, or `None` where they
/// are not valid UTF-8.
#[verifier::external_body]
fn text_from_utf8(bytes: Vec<u8>) -> (r: Option<String>)
    ensures
        r is Some <==> valid_utf8(bytes@),
        r is Some ==> r->0@ == decode_utf8(bytes@),
{
    String::from_utf8(bytes).ok()
}

/// What decrypting a blob under a key gives: the blob is read as a nonce
/// followed by a ciphertext with its tag.
pub open spec fn decrypted(data: Seq<u8>, key: Seq<u8>) -> Result<Seq<char>, CryptoError> {
    if data.len() < NONCE_LEN {
        Err(CryptoError::TooShort)
    } else {
        match opened(key, data.take(NONCE_LEN as int), data.skip(NONCE_LEN as int)) {
            None => Err(CryptoError::AuthenticationFailed),
            Some(bytes) => if valid_utf8(bytes) {
                Ok(decode_utf8(bytes))
            } else {
                Err(CryptoError::InvalidEncoding)
            },
        }
    }
}

/// `blob` is an encryption of `plaintext` under `key`: a nonce, then what
/// the cipher makes of the plaintext's bytes under the key and that nonce.
pub open spec fn is_encryption_of(blob: Seq<u8>, plaintext: Seq<char>, key: Seq<u8>) -> bool {
    &&& blob.len() == NONCE_LEN + encode_utf8(plaintext).len() + TAG_LEN
    &&& blob.skip(NONCE_LEN as int) == sealed(
        key,
        blob.take(NONCE_LEN as int),
        encode_utf8(plaintext),
    )
    &&& decrypted(blob, key) == Ok::<Seq<char>, CryptoError>(plaintext)
}

/// Two blobs with the same nonce that are encryptions of the same text
/// under the same key are the same blob. So a blob that was changed behind
/// its nonce is no encryption of the text it was made from.
pub proof fn lemma_changed_blob_is_another_text(
    blob: Seq<u8>,
    changed: Seq<u8>,
    text: Seq<char>,
    other: Seq<char>,
    key: Seq<u8>,
)
    requires
        is_encryption_of(blob, text, key),
        is_encryption_of(changed, other, key),
        changed.take(NONCE_LEN as int) == blob.take(NONCE_LEN as int),
        changed != blob,
    ensures
        other != text,
{
    if other == text {
        assert(blob =~= blob.take(NONCE_LEN as int) + blob.skip(NONCE_LEN as int));
        assert(changed =~= changed.take(NONCE_LEN as int) + changed.skip(NONCE_LEN as int));
    }
}

/// Encrypts a text under a key with the nonce given: the blob is the nonce
/// followed by what the cipher makes of the text's bytes under the key and
/// the nonce. A nonce must never be used twice under one key; `encrypt`
/// draws a fresh one for every call.
pub fn encrypt_with_nonce(plaintext: &str, key: &[u8], nonce: &[u8]) -> (blob: Vec<u8>)
    requires
        key@.len() == KEY_LEN,
        nonce@.len() == NONCE_LEN,
        plaintext.spec_bytes().len() <= MAX_PLAINTEXT_LEN,
    ensures
        blob@ == nonce@ + sealed(key@, nonce@, plaintext.spec_bytes()),
        is_encryption_of(blob@, plaintext@, key@),
{
    let mut blob: Vec<u8> = Vec::new();
    blob.extend_from_slice(nonce);
    match seal(key, nonce, plaintext.as_bytes()) {
        Some(ciphertext) => {
            blob.extend_from_slice(ciphertext.as_slice());
            proof {
                assert(blob@ =~= nonce@ + ciphertext@);
                assert(blob@.take(NONCE_LEN as int) =~= nonce@);
                assert(blob@.skip(NONCE_LEN as int) =~= ciphertext@);
                encode_utf8_valid_utf8(plaintext@);
                encode_utf8_decode_utf8(plaintext@);
            }
        },
        None => {
            proof {
                assert(false);
            }
        },
    }
    blob
}

/// Encrypts a text under a key with a fresh random nonce. Decrypting the
/// blob under the same key gives the text back.
pub fn encrypt(plaintext: &str, key: &[u8]) -> (blob: Vec<u8>)
    requires
        key@.len() == KEY_LEN,
        plaintext.spec_bytes().len() <= MAX_PLAINTEXT_LEN,
    ensures
        is_encryption_of(blob@, plaintext@, key@),
{
    let nonce = fresh_nonce();
    encrypt_with_nonce(plaintext, key, nonce.as_slice())
}

/// Decrypts a blob under a key. Nothing is returned of a blob that is too
/// short, whose tag does not verify, or whose plaintext is no text. A blob
/// without room for a tag behind its nonce fails authentication. A text is
/// returned only of a blob that is the encryption of that text under the
/// blob's own nonce.
pub fn decrypt(data: &[u8], key: &[u8]) -> (r: Result<String, CryptoError>)
    requires
        key@.len() == KEY_LEN,
    ensures
        match r {
            Ok(text) => decrypted(data@, key@) == Ok::<Seq<char>, CryptoError>(text@),
            Err(e) => decrypted(data@, key@) == Err::<Seq<char>, CryptoError>(e),
        },
        r == Err::<String, CryptoError>(CryptoError::TooShort) <==> data@.len() < NONCE_LEN,
        r == Err::<String, CryptoError>(CryptoError::AuthenticationFailed) <==> data@.len()
            >= NONCE_LEN && opened(
            key@,
            data@.take(NONCE_LEN as int),
            data@.skip(NONCE_LEN as int),
        ) is None,
        r == Err::<String, CryptoError>(CryptoError::InvalidEncoding) <==> data@.len() >= NONCE_LEN
            && (opened(key@, data@.take(NONCE_LEN as int), data@.skip(NONCE_LEN as int))
            matches Some(bytes) && !valid_utf8(bytes)),
        NONCE_LEN <= data@.len() < NONCE_LEN + TAG_LEN ==> r == Err::<String, CryptoError>(
            CryptoError::AuthenticationFailed,
        ),
        r matches Ok(text) ==> data@.len() == NONCE_LEN + encode_utf8(text@).len() + TAG_LEN,
        r matches Ok(text) ==> (encode_utf8(text@).len() <= MAX_PLAINTEXT_LEN ==> is_encryption_of(
            data@,
            text@,
            key@,
        )),
{
    if data.len() < NONCE_LEN {
        return Err(CryptoError::TooShort);
    }
    let nonce = slice_subrange(data, 0, NONCE_LEN);
    let ciphertext = slice_subrange(data, NONCE_LEN, data.len());
    proof {
        assert(nonce@ =~= data@.take(NONCE_LEN as int));
        assert(ciphertext@ =~= data@.skip(NONCE_LEN as int));
    }
    match open(key, nonce, ciphertext) {
        None => Err(CryptoError::AuthenticationFailed),
        Some(bytes) => {
            proof {
                if valid_utf8(bytes@) {
                    decode_utf8_encode_utf8(bytes@);
                }
            }
            match text_from_utf8(bytes) {
                Some(text) => Ok(text),
                None => Err(CryptoError::InvalidEncoding),
            }
        },
    }
}

} // verus!
