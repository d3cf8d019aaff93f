use vstd::prelude::*;
use vstd::string::{StrSliceExecFns, StringSliceAdditionalSpecFns};

use crate::error::AuthenticateError;
use crate::json::{JsonValue, json_parsed};
use crate::message::{Message, Metrics, decode_message, field_duration, field_uint, message_match, message_valid, payload_match};
use crate::nonce_cache::ExpiringNonceCache;
use crate::signature::{SecretKey, signature_outcome, verify_signature};
use crate::timing::{FutureExpiryPolicy, TimeSpan, check_freshness, freshness_outcome};

verus! {

/// The nonce of a valid envelope document.
pub open spec fn envelope_nonce(v: JsonValue) -> u128 {
    field_uint(v, "nonce"@, u128::MAX as int)->0 as u128
}

/// The expiry of a valid envelope document.
pub open spec fn envelope_expires(v: JsonValue) -> TimeSpan {
    field_duration(v, "expires"@)->0
}

/// What the stages before the replay check decide: the first failure among
/// signature, structure and freshness, or the document to go on with.
pub open spec fn precheck_outcome(
    key: Seq<u8>,
    message_bytes: Seq<u8>,
    message: Seq<char>,
    signature: Seq<char>,
    now: TimeSpan,
    max_window: TimeSpan,
    policy: FutureExpiryPolicy,
) -> Result<JsonValue, AuthenticateError> {
    match signature_outcome(key, message_bytes, signature) {
        Err(e) => Err(e),
        Ok(_) => match json_parsed(message) {
            None => Err(AuthenticateError::InvalidMessage),
            Some(v) => if !message_valid(v) {
                Err(AuthenticateError::InvalidMessage)
            } else {
                match freshness_outcome(envelope_expires(v)@, now@, max_window@, policy) {
                    Err(e) => Err(e),
                    Ok(_) => Ok(v),
                }
            },
        },
    }
}

/// Runs every stage that needs no shared state: checks the signature of
/// `message`, decodes it, and checks its expiry against `now`.
pub fn precheck(
    key: &SecretKey,
    message: &str,
    signature: &str,
    now: TimeSpan,
    max_window: TimeSpan,
    policy: FutureExpiryPolicy,
) -> (r: Result<Message, AuthenticateError>)
    ensures
        match precheck_outcome(key@, message.spec_bytes(), message@, signature@, now, max_window, policy) {
            Err(e) => r == Err::<Message, AuthenticateError>(e),
            Ok(v) => (r matches Ok(m) && message_match(v, m)),
        },
{
    let bytes = message.as_bytes_vec();
    verify_signature(key, bytes.as_slice(), signature)?;
    let decoded = decode_message(message)?;
    check_freshness(decoded.expires, now, max_window, policy)?;
    Ok(decoded)
}

/// Authenticates one signed envelope at time `now`: signature, structure,
/// freshness and finally the replay check, in that order. The nonce is
/// recorded only when every earlier stage passed; the record is returned
/// only when the nonce was also novel.
pub fn update_authenticator(
    message: &str,
    signature: &str,
    key: &SecretKey,
    nonces: &mut ExpiringNonceCache,
    now: TimeSpan,
    policy: FutureExpiryPolicy,
) -> (r: Result<Metrics, AuthenticateError>)
    ensures
        match precheck_outcome(key@, message.spec_bytes(), message@, signature@, now, old(nonces).spec_max_expiration(), policy) {
            Err(e) => r == Err::<Metrics, AuthenticateError>(e) && *final(nonces) == *old(nonces),
            Ok(v) => {
                &&& old(nonces).recorded(final(nonces), envelope_nonce(v), now)
                &&& old(nonces).accepts(envelope_nonce(v), now) ==> (r matches Ok(m) && payload_match(v, m))
                &&& !old(nonces).accepts(envelope_nonce(v), now) ==> r == Err::<Metrics, AuthenticateError>(AuthenticateError::NonceReuse)
            },
        },
{
    let decoded = precheck(key, message, signature, now, nonces.max_expiration(), policy)?;
    if !nonces.insert(decoded.nonce, now) {
        return Err(AuthenticateError::NonceReuse);
    }
    Ok(decoded.payload)
}

/// The service's authentication context: the shared key, the expiry policy
/// and the replay cache, built once at startup.
pub struct Auth {
    pub key: SecretKey,
    pub nonces: ExpiringNonceCache,
    pub policy: FutureExpiryPolicy,
}

impl Auth {
    /// A context holding `key`, `nonces` and `policy`.
    pub fn new(key: SecretKey, nonces: ExpiringNonceCache, policy: FutureExpiryPolicy) -> (r: Auth)
        ensures
            r.key@ == key@,
            r.nonces == nonces,
            r.policy == policy,
    {
        Auth { key, nonces, policy }
    }

    /// Authenticates one signed envelope at time `now`, as
    /// `update_authenticator` does with this context's key, cache and policy.
    pub fn authenticate(&mut self, message: &str, signature: &str, now: TimeSpan) -> (r: Result<Metrics, AuthenticateError>)
        ensures
            final(self).key == old(self).key,
            final(self).policy == old(self).policy,
            match precheck_outcome(old(self).key@, message.spec_bytes(), message@, signature@, now, old(self).nonces.spec_max_expiration(), old(self).policy) {
                Err(e) => r == Err::<Metrics, AuthenticateError>(e) && final(self).nonces == old(self).nonces,
                Ok(v) => {
                    &&& old(self).nonces.recorded(&final(self).nonces, envelope_nonce(v), now)
                    &&& old(self).nonces.accepts(envelope_nonce(v), now) ==> (r matches Ok(m) && payload_match(v, m))
                    &&& !old(self).nonces.accepts(envelope_nonce(v), now) ==> r == Err::<Metrics, AuthenticateError>(AuthenticateError::NonceReuse)
                },
            },
    {
        update_authenticator(message, signature, &self.key, &mut self.nonces, now, self.policy)
    }
}

} // verus!
