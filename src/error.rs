use vstd::prelude::*;

verus! {

/// Failures of key handling, signing and verification.
#[derive(Clone, Copy, Debug, PartialEq, Eq, Structural)]
pub enum Error {
    /// The private key material was rejected.
    InvalidPrivateKey,
    /// The public key embedded in a signature is not the expected one.
    InvalidPubKey,
    /// The signature does not verify against the message and its key.
    InvalidSignature,
}

/// Failures of the two wire decoders.
#[derive(Clone, Copy, Debug, PartialEq, Eq, Structural)]
pub enum CodecError {
    /// The input is not a well-formed length-prefixed byte string.
    Malformed,
    /// The payload of a length-prefixed string does not hold exactly 96 bytes.
    InvalidLength(usize),
    /// An element sequence is too short or too long; the field is the
    /// position of the first missing or extra element.
    LengthMismatch(usize),
}

impl Error {
    /// A short description of the failure.
    pub fn description(&self) -> (r: &'static str) {
        match self {
            Error::InvalidPrivateKey => "invalid private key",
            Error::InvalidPubKey => "invalid public key",
            Error::InvalidSignature => "invalid signature",
        }
    }
}

} // verus!
