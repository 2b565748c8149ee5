use vstd::prelude::*;

use crate::error::Error;
use crate::sodium::{blake2b, blake2b_256, ed25519_public_of_seed, gen_keypair, secret_key_public};
use crate::{Address, PrivKey, PubKey};

verus! {

/// The address of a public key: bytes 12 to 32 of its BLAKE2b-256 digest.
pub open spec fn address_of(pk: Seq<u8>) -> Seq<u8> {
    blake2b_256(pk).subrange(12, 32)
}

/// A private key whose public half is the one derived from its seed half.
pub open spec fn is_genuine_privkey(sk: Seq<u8>) -> bool {
    sk.len() == 64 && sk.subrange(32, 64) == ed25519_public_of_seed(sk.subrange(0, 32))
}

/// A private key together with the public key derived from it.
pub struct KeyPair {
    privkey: PrivKey,
    pubkey: PubKey,
}

impl View for KeyPair {
    /// The private key bytes, then the public key bytes.
    type V = (Seq<u8>, Seq<u8>);

    closed spec fn view(&self) -> (Seq<u8>, Seq<u8>) {
        (self.privkey@, self.pubkey@)
    }
}

impl KeyPair {
    /// The public key is the one the primitive derives from the private key,
    /// which is the private key's second half.
    pub open spec fn wf(&self) -> bool {
        &&& self@.0.len() == 64
        &&& self@.1 == self@.0.subrange(32, 64)
    }

    /// A well-formed pair whose private key was laid out by the key schedule.
    pub open spec fn is_genuine(&self) -> bool {
        self.wf() && is_genuine_privkey(self@.0)
    }

    /// A fresh key pair from a secure random seed.
    pub fn gen_keypair() -> (r: KeyPair)
        ensures
            r.wf(),
            r.is_genuine(),
    {
        let (pubkey, privkey) = gen_keypair();
        KeyPair { privkey, pubkey }
    }

    /// The key pair of an existing private key. Every 64-byte private key is
    /// accepted: its public key is read from it, not checked against its seed.
    pub fn from_privkey(privkey: PrivKey) -> (r: Result<KeyPair, Error>)
        ensures
            r is Ok,
            r matches Ok(k) ==> k.wf() && k@.0 == privkey@,
    {
        let pubkey = secret_key_public(&privkey);
        Ok(KeyPair { privkey, pubkey })
    }

    /// The private key.
    pub fn privkey(&self) -> (r: &PrivKey)
        ensures
            r@ == self@.0,
    {
        &self.privkey
    }

    /// The public key.
    pub fn pubkey(&self) -> (r: &PubKey)
        ensures
            r@ == self@.1,
    {
        &self.pubkey
    }

    /// The address of this pair's public key.
    pub fn address(&self) -> (r: Address)
        ensures
            r@ == address_of(self@.1),
    {
        pubkey_to_address(&self.pubkey)
    }
}

/// Derives the address of a public key by hashing and truncation.
pub fn pubkey_to_address(pubkey: &PubKey) -> (r: Address)
    ensures
        r@ == address_of(pubkey@),
{
    let digest = blake2b(pubkey.as_slice()).unwrap();
    let mut addr: Address = [0u8; 20];
    let mut i: usize = 0;
    while i < 20
        invariant
            0 <= i <= 20,
            digest@ == blake2b_256(pubkey@),
            forall|j: int| 0 <= j < i ==> addr@[j] == digest@[12 + j],
        decreases 20 - i,
    {
        addr[i] = digest[i + 12];
        i += 1;
    }
    assert(addr@ =~= address_of(pubkey@));
    addr
}

} // verus!
