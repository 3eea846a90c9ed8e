//! The errors that key handling reports.

use vstd::prelude::*;
use vstd::string::StringExecFns;

verus! {

/// A failure reported by the curve engine, by kind.
#[derive(Debug, Clone, Copy, PartialEq, Eq)]
pub enum EngineError {
    /// A signature failed verification.
    IncorrectSignature,
    /// A message was not a 32-byte digest.
    InvalidMessage,
    /// A public key was malformed.
    InvalidPublicKey,
    /// A signature was malformed or did not verify.
    InvalidSignature,
    /// A secret key was malformed or out of range.
    InvalidSecretKey,
    /// A shared secret was malformed or out of range.
    InvalidSharedSecret,
    /// A recovery id was out of range.
    InvalidRecoveryId,
    /// A tweak was out of range.
    InvalidTweak,
    /// Too little memory was handed to a preallocated context.
    NotEnoughMemory,
    /// A sum of public keys was invalid.
    InvalidPublicKeySum,
    /// A parity value was neither 0 nor 1; the value is kept.
    InvalidParityValue(i32),
}

/// What can go wrong when keys are built, parsed or used.
#[derive(Debug, PartialEq, Eq)]
pub enum Error {
    /// The secret key is malformed or outside the range of the curve order.
    InvalidSecretKey,
    /// The public key is malformed or not a point of the curve.
    InvalidPublicKey,
    /// The operation needs a secret key and the keys hold none.
    SkMissing,
    /// A text held a character that its encoding does not allow.
    InvalidChar(char),
    /// A failure reported by the curve engine.
    Secp256k1(EngineError),
}

impl vstd::std_specs::convert::FromSpecImpl<EngineError> for Error {
    open spec fn obeys_from_spec() -> bool {
        true
    }

    open spec fn from_spec(e: EngineError) -> Error {
        Error::Secp256k1(e)
    }
}

impl From<EngineError> for Error {
    fn from(e: EngineError) -> (r: Error) {
        Error::Secp256k1(e)
    }
}

/// Formats a character with `format!`, which gives the character itself.
#[verifier::external_body]
fn char_text(c: char) -> (r: String)
    ensures
        r@ == seq![c],
{
    format!("{c}")
}

impl EngineError {
    /// The failure in the engine's own words.
    pub open spec fn text(self) -> Seq<char> {
        match self {
            EngineError::IncorrectSignature => "signature failed verification"@,
            EngineError::InvalidMessage => "message was not 32 bytes (do you need to hash?)"@,
            EngineError::InvalidPublicKey => "malformed public key"@,
            EngineError::InvalidSignature => "malformed signature"@,
            EngineError::InvalidSecretKey => "malformed or out-of-range secret key"@,
            EngineError::InvalidSharedSecret => "malformed or out-of-range shared secret"@,
            EngineError::InvalidRecoveryId => "bad recovery id"@,
            EngineError::InvalidTweak => "bad tweak"@,
            EngineError::NotEnoughMemory => "not enough memory allocated"@,
            EngineError::InvalidPublicKeySum =>
                "the sum of public keys was invalid or the input vector lengths was less than 1"@,
            EngineError::InvalidParityValue(_) => "couldn't create parity"@,
        }
    }

    /// The failure in the engine's own words.
    pub fn message(&self) -> (r: &'static str)
        ensures
            r@ == self.text(),
    {
        match self {
            EngineError::IncorrectSignature => "signature failed verification",
            EngineError::InvalidMessage => "message was not 32 bytes (do you need to hash?)",
            EngineError::InvalidPublicKey => "malformed public key",
            EngineError::InvalidSignature => "malformed signature",
            EngineError::InvalidSecretKey => "malformed or out-of-range secret key",
            EngineError::InvalidSharedSecret => "malformed or out-of-range shared secret",
            EngineError::InvalidRecoveryId => "bad recovery id",
            EngineError::InvalidTweak => "bad tweak",
            EngineError::NotEnoughMemory => "not enough memory allocated",
            EngineError::InvalidPublicKeySum =>
                "the sum of public keys was invalid or the input vector lengths was less than 1",
            EngineError::InvalidParityValue(_) => "couldn't create parity",
        }
    }
}

impl Error {
    /// The error in words.
    pub open spec fn text(self) -> Seq<char> {
        match self {
            Error::InvalidSecretKey => "Invalid secret key"@,
            Error::InvalidPublicKey => "Invalid public key"@,
            Error::SkMissing => "Secret key missing"@,
            Error::InvalidChar(c) => "Unsupported char: "@ + seq![c],
            Error::Secp256k1(e) => "Secp256k1: "@ + e.text(),
        }
    }

    /// The error in words.
    pub fn message(&self) -> (r: String)
        ensures
            r@ == self.text(),
    {
        match self {
            Error::InvalidSecretKey => "Invalid secret key".to_owned(),
            Error::InvalidPublicKey => "Invalid public key".to_owned(),
            Error::SkMissing => "Secret key missing".to_owned(),
            Error::InvalidChar(c) => {
                let shown = char_text(*c);
                "Unsupported char: ".to_owned().concat(shown.as_str())
            },
            Error::Secp256k1(e) => "Secp256k1: ".to_owned().concat(e.message()),
        }
    }
}

} // verus!
