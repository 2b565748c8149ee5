use vstd::prelude::*;

use crate::{Message, PrivKey, PubKey};
use sodiumoxide::crypto::generichash;
use sodiumoxide::crypto::sign::ed25519;

verus! {

/// The Ed25519 public key that the key schedule derives from a 32-byte seed.
pub uninterp spec fn ed25519_public_of_seed(seed: Seq<u8>) -> Seq<u8>;

/// The deterministic Ed25519 signature of a message under a 64-byte secret key.
pub uninterp spec fn ed25519_signature(sk: Seq<u8>, msg: Seq<u8>) -> Seq<u8>;

/// Whether a 64-byte signature is valid for a message under a public key.
pub uninterp spec fn ed25519_valid(sig: Seq<u8>, msg: Seq<u8>, pk: Seq<u8>) -> bool;

/// The unkeyed BLAKE2b digest of 32 bytes of some data.
pub uninterp spec fn blake2b_256(data: Seq<u8>) -> Seq<u8>;

/// Relies on sodiumoxide's `sign::ed25519::gen_keypair`: a random seed, the
/// secret key laid out as seed then derived public key, and that public key.
#[verifier::external_body]
pub(crate) fn gen_keypair() -> (r: (PubKey, PrivKey))
    ensures
        r.1@.subrange(32, 64) == ed25519_public_of_seed(r.1@.subrange(0, 32)),
        r.0@ == r.1@.subrange(32, 64),
{
    let (pk, sk) = ed25519::gen_keypair();
    (pk.0, sk.0)
}

/// Relies on sodiumoxide's `SecretKey::public_key`, which copies the last 32
/// bytes of the secret key (libsodium's `crypto_sign_ed25519_sk_to_pk`).
#[verifier::external_body]
pub(crate) fn secret_key_public(sk: &PrivKey) -> (r: PubKey)
    ensures
        r@ == sk@.subrange(32, 64),
{
    ed25519::SecretKey(*sk).public_key().0
}

/// Relies on sodiumoxide's `sign::ed25519::sign_detached`: a deterministic
/// signature, which verifies under the secret key's public half whenever that
/// half was derived from its seed. libsodium reduces the scalar half of every
/// signature it makes, so the parse inside `sign_detached` does not fail.
#[verifier::external_body]
pub(crate) fn sign_detached(msg: &Message, sk: &PrivKey) -> (r: [u8; 64])
    ensures
        r@ == ed25519_signature(sk@, msg@),
        sk@.subrange(32, 64) == ed25519_public_of_seed(sk@.subrange(0, 32))
            ==> ed25519_valid(r@, msg@, sk@.subrange(32, 64)),
{
    ed25519::sign_detached(&msg[..], &ed25519::SecretKey(*sk)).to_bytes()
}

/// Relies on sodiumoxide's `sign::ed25519::verify_detached`. Bytes that do not
/// even parse as a signature (a scalar with its top bits set) are invalid.
#[verifier::external_body]
pub(crate) fn verify_detached(sig: &[u8; 64], msg: &Message, pk: &PubKey) -> (r: bool)
    ensures
        r == ed25519_valid(sig@, msg@, pk@),
{
    match ed25519::Signature::from_bytes(&sig[..]) {
        Ok(s) => ed25519::verify_detached(&s, &msg[..], &ed25519::PublicKey(*pk)),
        Err(_) => false,
    }
}

/// Relies on sodiumoxide's `generichash::hash` with a 32-byte digest and no
/// key, which succeeds for that length (within its 16 to 64 byte range).
#[verifier::external_body]
pub(crate) fn blake2b(data: &[u8]) -> (r: Option<[u8; 32]>)
    ensures
        r is Some,
        r matches Some(d) ==> d@ == blake2b_256(data@),
{
    match generichash::hash(data, Some(32), None) {
        Ok(d) => d.as_ref().try_into().ok(),
        Err(_) => None,
    }
}

} // verus!
