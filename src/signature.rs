use vstd::prelude::*;

use sodiumoxide::crypto::auth::hmacsha256;

use crate::error::{AuthenticateError, HMACKeyError};

verus! {

/// Bytes in an HMAC-SHA-256 key.
pub const KEY_BYTES: usize = 32;

/// Bytes in an HMAC-SHA-256 tag.
pub const TAG_BYTES: usize = 32;

/// The bytes that base64 text in the standard alphabet decodes to, if it is
/// valid.
pub uninterp spec fn base64_decoded(text: Seq<char>) -> Option<Seq<u8>>;

/// The standard, padded base64 text of some bytes.
pub uninterp spec fn base64_encoded(bytes: Seq<u8>) -> Seq<char>;

/// The HMAC-SHA-256 tag of `message` under `key`.
pub uninterp spec fn hmac_sha256(key: Seq<u8>, message: Seq<u8>) -> Seq<u8>;

/// Relies on base64::decode (standard alphabet; trailing padding may be
/// left out): `None` exactly when the text is not valid base64.
#[verifier::external_body]
fn decode_base64(text: &str) -> (r: Option<Vec<u8>>)
    ensures
        match r {
            Some(v) => base64_decoded(text@) == Some(v@),
            None => base64_decoded(text@) is None,
        },
{
    base64::decode(text).ok()
}

/// Relies on base64::encode (standard alphabet, padded); decoding its output
/// gives back the input.
#[verifier::external_body]
fn encode_base64(bytes: &[u8]) -> (r: String)
    ensures
        r@ == base64_encoded(bytes@),
        base64_decoded(r@) == Some(bytes@),
{
    base64::encode(bytes)
}

/// Relies on sodiumoxide's hmacsha256::authenticate: the 32-byte tag of the
/// message under the key.
#[verifier::external_body]
fn hmac_authenticate(key: &[u8], message: &[u8]) -> (r: Vec<u8>)
    requires
        key@.len() == KEY_BYTES,
    ensures
        r@ == hmac_sha256(key@, message@),
        r@.len() == TAG_BYTES,
{
    let mut k = [0u8; 32];
    k.copy_from_slice(key);
    hmacsha256::authenticate(message, &hmacsha256::Key(k)).0.to_vec()
}

/// Relies on sodiumoxide's hmacsha256::verify: true exactly when `tag` is the
/// tag of the message under the key. The comparison is libsodium's
/// constant-time one.
#[verifier::external_body]
fn hmac_verify(tag: &[u8], message: &[u8], key: &[u8]) -> (r: bool)
    requires
        tag@.len() == TAG_BYTES,
        key@.len() == KEY_BYTES,
    ensures
        r == (tag@ == hmac_sha256(key@, message@)),
{
    let mut t = [0u8; 32];
    t.copy_from_slice(tag);
    let mut k = [0u8; 32];
    k.copy_from_slice(key);
    hmacsha256::verify(&hmacsha256::Tag(t), message, &hmacsha256::Key(k))
}

/// The secret shared with the senders: exactly 32 bytes.
pub struct SecretKey {
    bytes: Vec<u8>,
}

impl View for SecretKey {
    type V = Seq<u8>;

    closed spec fn view(&self) -> Seq<u8> {
        self.bytes@
    }
}

impl SecretKey {
    #[verifier::type_invariant]
    closed spec fn key_length(&self) -> bool {
        self.bytes@.len() == KEY_BYTES
    }

    /// A key made of `bytes`, which must be exactly 32 long.
    pub fn from_slice(bytes: &[u8]) -> (r: Result<SecretKey, HMACKeyError>)
        ensures
            bytes@.len() == KEY_BYTES ==> (r matches Ok(k) && k@ == bytes@),
            bytes@.len() != KEY_BYTES ==> r == Err::<SecretKey, HMACKeyError>(HMACKeyError::KeyLengthMismatch),
    {
        if bytes.len() == KEY_BYTES {
            Ok(SecretKey { bytes: vstd::slice::slice_to_vec(bytes) })
        } else {
            Err(HMACKeyError::KeyLengthMismatch)
        }
    }

    /// The key's bytes.
    pub fn as_bytes(&self) -> (r: &[u8])
        ensures
            r@ == self@,
            r@.len() == KEY_BYTES,
    {
        proof {
            use_type_invariant(self);
        }
        self.bytes.as_slice()
    }
}

/// What checking `signature` against `message` under `key` decides.
pub open spec fn signature_outcome(key: Seq<u8>, message: Seq<u8>, signature: Seq<char>) -> Result<(), AuthenticateError> {
    match base64_decoded(signature) {
        None => Err(AuthenticateError::SignatureFormattingError),
        Some(tag) => if tag.len() != TAG_BYTES {
            Err(AuthenticateError::SignatureFormattingError)
        } else if tag == hmac_sha256(key, message) {
            Ok(())
        } else {
            Err(AuthenticateError::InvalidSignature)
        },
    }
}

/// Checks that `signature` is the base64 text of the HMAC-SHA-256 tag of
/// `message` under `key`.
pub fn verify_signature(key: &SecretKey, message: &[u8], signature: &str) -> (r: Result<(), AuthenticateError>)
    ensures
        r == signature_outcome(key@, message@, signature@),
{
    let tag = match decode_base64(signature) {
        Some(t) => t,
        None => return Err(AuthenticateError::SignatureFormattingError),
    };
    if tag.len() != TAG_BYTES {
        return Err(AuthenticateError::SignatureFormattingError);
    }
    if hmac_verify(tag.as_slice(), message, key.as_bytes()) {
        Ok(())
    } else {
        Err(AuthenticateError::InvalidSignature)
    }
}

/// The base64 text of the HMAC-SHA-256 tag of `message` under `key`: the
/// signature a sender attaches.
pub fn sign(key: &SecretKey, message: &[u8]) -> (r: String)
    ensures
        r@ == base64_encoded(hmac_sha256(key@, message@)),
        signature_outcome(key@, message@, r@) is Ok,
{
    let tag = hmac_authenticate(key.as_bytes(), message);
    encode_base64(tag.as_slice())
}

/// Only the exact tag of the message under the key is accepted: a signature
/// that verifies decodes to `hmac_sha256(key, message)`.
pub proof fn lemma_only_exact_tag_accepted(key: Seq<u8>, message: Seq<u8>, signature: Seq<char>)
    requires
        signature_outcome(key, message, signature) is Ok,
    ensures
        base64_decoded(signature) == Some(hmac_sha256(key, message)),
{
}

/// A signature whose decoded tag differs from the message's tag is refused
/// as invalid, whatever the difference.
pub proof fn lemma_altered_tag_refused(key: Seq<u8>, message: Seq<u8>, signature: Seq<char>, tag: Seq<u8>)
    requires
        base64_decoded(signature) == Some(tag),
        tag.len() == TAG_BYTES,
        tag != hmac_sha256(key, message),
    ensures
        signature_outcome(key, message, signature) == Err::<(), AuthenticateError>(AuthenticateError::InvalidSignature),
{
}

} // verus!
