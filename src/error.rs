use vstd::prelude::*;

verus! {

/// Why an envelope was rejected.
#[derive(Debug, Clone, Copy, PartialEq, Eq, Structural)]
pub enum AuthenticateError {
    SignatureFormattingError,
    InvalidSignature,
    Expired,
    LongValidity,
    NonceReuse,
    InvalidMessage,
}

impl AuthenticateError {
    pub open spec fn spec_message(self) -> &'static str {
        match self {
            AuthenticateError::SignatureFormattingError => "The signature must be base64 encoded.",
            AuthenticateError::InvalidSignature => "The signature is invalid.",
            AuthenticateError::Expired => "The request is expired.",
            AuthenticateError::LongValidity => "The request expires too far in the future.",
            AuthenticateError::NonceReuse => "This nonce was used before.",
            AuthenticateError::InvalidMessage => "The message is not formatted correctly.",
        }
    }

    /// The human-readable text shown to the caller for this rejection.
    pub fn message(&self) -> (r: &'static str)
        ensures
            r == self.spec_message(),
    {
        match self {
            AuthenticateError::SignatureFormattingError => "The signature must be base64 encoded.",
            AuthenticateError::InvalidSignature => "The signature is invalid.",
            AuthenticateError::Expired => "The request is expired.",
            AuthenticateError::LongValidity => "The request expires too far in the future.",
            AuthenticateError::NonceReuse => "This nonce was used before.",
            AuthenticateError::InvalidMessage => "The message is not formatted correctly.",
        }
    }
}

/// The configured secret key could not be used.
#[derive(Debug, Clone, Copy, PartialEq, Eq, Structural)]
pub enum HMACKeyError {
    KeyLengthMismatch,
}

impl HMACKeyError {
    pub open spec fn spec_message(self) -> &'static str {
        match self {
            HMACKeyError::KeyLengthMismatch => "Provided key has the wrong length.",
        }
    }

    /// The human-readable text for this error.
    pub fn message(&self) -> (r: &'static str)
        ensures
            r == self.spec_message(),
    {
        match self {
            HMACKeyError::KeyLengthMismatch => "Provided key has the wrong length.",
        }
    }
}

/// The cryptographic library could not be initialised.
#[derive(Debug, Clone, Copy, PartialEq, Eq, Structural)]
pub enum SodiumOxideError {
    InitError,
}

impl SodiumOxideError {
    pub open spec fn spec_message(self) -> &'static str {
        match self {
            SodiumOxideError::InitError => "Sodium Oxide failed to initialize.",
        }
    }

    /// The human-readable text for this error.
    pub fn message(&self) -> (r: &'static str)
        ensures
            r == self.spec_message(),
    {
        match self {
            SodiumOxideError::InitError => "Sodium Oxide failed to initialize.",
        }
    }
}

} // verus!
