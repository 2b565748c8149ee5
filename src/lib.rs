use vstd::prelude::*;

pub mod error;
pub mod keypair;
pub mod signature;
pub mod sodium;
pub mod wire;

verus! {

/// Length in bytes of an address.
pub const ADDR_BYTES_LEN: usize = 20;

/// Length in bytes of a public key.
pub const PUBKEY_BYTES_LEN: usize = 32;

/// Length in bytes of a private key (seed followed by public key).
pub const PRIVKEY_BYTES_LEN: usize = 64;

/// Length in bytes of a signature with its embedded public key.
pub const SIGNATURE_BYTES_LEN: usize = 96;

/// Length in bytes of a message digest.
pub const HASH_BYTES_LEN: usize = 32;

/// A private key: a 32-byte seed followed by the matching 32-byte public key.
pub type PrivKey = [u8; 64];

/// A public key.
pub type PubKey = [u8; 32];

/// A pre-hashed message.
pub type Message = [u8; 32];

/// An address derived from a public key.
pub type Address = [u8; 20];

} // verus!

pub use error::{CodecError, Error};
pub use keypair::{pubkey_to_address, KeyPair};
pub use signature::Signature;
