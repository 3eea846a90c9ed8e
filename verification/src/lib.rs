//! Key material for Schnorr-signature identities on secp256k1.
//!
//! The crate keeps a secret scalar, the public keys that belong to it and the
//! optional cached key pair together, and states for each operation which of
//! them it returns. Curve arithmetic is done by the `secp256k1` crate and the
//! checksummed text form is decoded by the `bech32` crate; every call into
//! them goes through a function in [`engine`] or [`codec`] whose contract is
//! taken on trust.

pub mod codec;
pub mod contact;
pub mod engine;
pub mod error;
pub mod keys;

pub use contact::Contact;


pub use engine::{KeyPair, Message, PublicKey, SecretKey, Signature, XOnlyPublicKey};
pub use error::{EngineError, Error};
pub use keys::{FromPkStr, FromSkStr, Keys};
