use vstd::prelude::*;

use crate::error::{CodecError, Error};
use crate::keypair::{address_of, is_genuine_privkey, KeyPair};
use crate::sodium::{ed25519_signature, ed25519_valid, sign_detached, verify_detached};
use crate::wire::{
    hex_encode, is_hex_of, rlp_decode_bytes, rlp_encode_bytes, rlp_long_header, rlp_long_payload,
};
use crate::{pubkey_to_address, Address, Message, PrivKey, PubKey, SIGNATURE_BYTES_LEN};

verus! {

/// The raw Ed25519 signature: bytes 0 to 64 of a signature value.
pub open spec fn sig_part(s: Seq<u8>) -> Seq<u8> {
    s.subrange(0, 64)
}

/// The embedded public key: bytes 64 to 96 of a signature value.
pub open spec fn pk_part(s: Seq<u8>) -> Seq<u8> {
    s.subrange(64, 96)
}

/// The 96 bytes that signing a message under a private key produces: the raw
/// signature, then the public half of the private key.
pub open spec fn sign_spec(sk: Seq<u8>, msg: Seq<u8>) -> Seq<u8> {
    ed25519_signature(sk, msg) + sk.subrange(32, 64)
}

/// The embedded key if the raw signature verifies under it.
pub open spec fn recover_spec(s: Seq<u8>, msg: Seq<u8>) -> Result<Seq<u8>, Error> {
    if ed25519_valid(sig_part(s), msg, pk_part(s)) {
        Ok(pk_part(s))
    } else {
        Err(Error::InvalidSignature)
    }
}

/// Verification against a known key: the embedded key must be that key, and
/// the raw signature must verify. There is no `Ok(false)`.
pub open spec fn verify_public_spec(s: Seq<u8>, pk: Seq<u8>, msg: Seq<u8>) -> Result<bool, Error> {
    if pk_part(s) != pk {
        Err(Error::InvalidPubKey)
    } else if ed25519_valid(sig_part(s), msg, pk) {
        Ok(true)
    } else {
        Err(Error::InvalidSignature)
    }
}

/// Verification against a claimed address: recovery errors pass through, and
/// a recovered key answers whether its address is the claimed one.
pub open spec fn verify_address_spec(s: Seq<u8>, addr: Seq<u8>, msg: Seq<u8>) -> Result<
    bool,
    Error,
> {
    match recover_spec(s, msg) {
        Ok(pk) => Ok(address_of(pk) == addr),
        Err(e) => Err(e),
    }
}

/// The length-prefixed encoding of a signature value: one RLP byte string.
pub open spec fn rlp_encoding(s: Seq<u8>) -> Seq<u8> {
    rlp_long_header(s.len()) + s
}

/// What a decoded payload becomes: a signature value when it holds exactly
/// 96 bytes, else an error that gives its length.
pub open spec fn payload_decoding(p: Seq<u8>) -> Result<Seq<u8>, CodecError> {
    if p.len() == 96 {
        Ok(p)
    } else {
        Err(CodecError::InvalidLength(p.len() as usize))
    }
}

/// What an element sequence decodes to: a signature value when it holds
/// exactly 96 elements, else an error at the first missing or extra element.
pub open spec fn element_decoding(e: Seq<u8>) -> Result<Seq<u8>, CodecError> {
    if e.len() == 96 {
        Ok(e)
    } else if e.len() < 96 {
        Err(CodecError::LengthMismatch(e.len() as usize))
    } else {
        Err(CodecError::LengthMismatch(96))
    }
}

/// A decoding result with the signature replaced by its bytes.
pub open spec fn result_view(r: Result<Signature, CodecError>) -> Result<Seq<u8>, CodecError> {
    match r {
        Ok(s) => Ok(s@),
        Err(e) => Err(e),
    }
}

/// Decoding the length-prefixed encoding of a signature yields its 96 bytes
/// again.
pub proof fn lemma_rlp_round_trip(s: Signature)
    ensures
        rlp_long_payload(rlp_encoding(s@)) == Some(s@),
        payload_decoding(s@) == Ok::<Seq<u8>, CodecError>(s@),
{
    let enc = rlp_encoding(s@);
    assert(enc.subrange(2, enc.len() as int) =~= s@);
}

/// Decoding the element sequence of a signature yields its 96 bytes again.
pub proof fn lemma_element_round_trip(s: Signature)
    ensures
        element_decoding(s@) == Ok::<Seq<u8>, CodecError>(s@),
{
}

/// An element sequence of any length other than 96 does not decode.
pub proof fn lemma_element_wrong_length(e: Seq<u8>)
    requires
        e.len() != 96,
    ensures
        element_decoding(e) is Err,
{
}

/// Two signature values with the same bytes are the same value, so a value
/// rebuilt from its own 96-byte slice equals the original.
pub proof fn lemma_bytes_determine_signature(s: Signature, t: Signature)
    requires
        t@ == s@,
    ensures
        t == s,
{
    assert(t.0 =~= s.0);
}

/// A signature value: a 64-byte Ed25519 signature followed by the 32-byte
/// public key of its signer.
#[derive(Debug)]
pub struct Signature(pub [u8; 96]);

impl View for Signature {
    type V = Seq<u8>;

    open spec fn view(&self) -> Seq<u8> {
        self.0@
    }
}

impl PartialEq for Signature {
    fn eq(&self, rhs: &Self) -> (r: bool) {
        let mut i: usize = 0;
        while i < SIGNATURE_BYTES_LEN
            invariant
                0 <= i <= 96,
                forall|j: int| 0 <= j < i ==> self.0@[j] == rhs.0@[j],
            decreases 96 - i,
        {
            if self.0[i] != rhs.0[i] {
                return false;
            }
            i += 1;
        }
        assert(self.0@ =~= rhs.0@);
        true
    }
}

impl vstd::std_specs::cmp::PartialEqSpecImpl for Signature {
    open spec fn obeys_eq_spec() -> bool {
        true
    }

    open spec fn eq_spec(&self, rhs: &Signature) -> bool {
        self@ == rhs@
    }
}

impl Eq for Signature {}

impl Clone for Signature {
    fn clone(&self) -> (r: Self)
        ensures
            r@ == self@,
    {
        Signature(self.0)
    }
}

impl Default for Signature {
    /// The all-zero sentinel.
    fn default() -> (r: Self)
        ensures
            r@ == Seq::new(96, |i: int| 0u8),
    {
        let r = Signature([0u8; 96]);
        assert(r@ =~= Seq::new(96, |i: int| 0u8));
        r
    }
}

impl From<[u8; 96]> for Signature {
    fn from(bytes: [u8; 96]) -> (r: Self) {
        Signature(bytes)
    }
}

impl vstd::std_specs::convert::FromSpecImpl<[u8; 96]> for Signature {
    open spec fn obeys_from_spec() -> bool {
        true
    }

    open spec fn from_spec(bytes: [u8; 96]) -> Signature {
        Signature(bytes)
    }
}

impl Signature {
    /// The raw signature half, bytes 0 to 64.
    pub fn sig(&self) -> (r: &[u8])
        ensures
            r@ == sig_part(self@),
    {
        vstd::slice::slice_subrange(self.0.as_slice(), 0, 64)
    }

    /// The embedded public key half, bytes 64 to 96.
    pub fn pk(&self) -> (r: &[u8])
        ensures
            r@ == pk_part(self@),
    {
        vstd::slice::slice_subrange(self.0.as_slice(), 64, 96)
    }

    /// The raw signature half as an array.
    fn sig_array(&self) -> (r: [u8; 64])
        ensures
            r@ == sig_part(self@),
    {
        let mut r = [0u8; 64];
        let mut i: usize = 0;
        while i < 64
            invariant
                0 <= i <= 64,
                forall|j: int| 0 <= j < i ==> r@[j] == self.0@[j],
            decreases 64 - i,
        {
            r[i] = self.0[i];
            i += 1;
        }
        assert(r@ =~= sig_part(self@));
        r
    }

    /// The embedded public key as an array.
    fn pk_array(&self) -> (r: PubKey)
        ensures
            r@ == pk_part(self@),
    {
        let mut r = [0u8; 32];
        let mut i: usize = 0;
        while i < 32
            invariant
                0 <= i <= 32,
                forall|j: int| 0 <= j < i ==> r@[j] == self.0@[64 + j],
            decreases 32 - i,
        {
            r[i] = self.0[64 + i];
            i += 1;
        }
        assert(r@ =~= pk_part(self@));
        r
    }

    /// Places a raw signature and a public key side by side.
    fn compose(sig: &[u8; 64], pk: &PubKey) -> (r: Signature)
        ensures
            r@ == sig@ + pk@,
    {
        let mut bytes = [0u8; 96];
        let mut i: usize = 0;
        while i < 96
            invariant
                0 <= i <= 96,
                forall|j: int| 0 <= j < i ==> bytes@[j] == (sig@ + pk@)[j],
            decreases 96 - i,
        {
            if i < 64 {
                bytes[i] = sig[i];
            } else {
                bytes[i] = pk[i - 64];
            }
            i += 1;
        }
        assert(bytes@ =~= sig@ + pk@);
        Signature(bytes)
    }

    /// Signs a message digest, embedding the signer's public key after the
    /// raw signature. With a genuine private key, the result verifies against
    /// its public key, recovers that key, and verifies against its address.
    pub fn sign(privkey: &PrivKey, message: &Message) -> (r: Result<Signature, Error>)
        ensures
            r is Ok,
            r matches Ok(s) ==> s@ == sign_spec(privkey@, message@),
            r matches Ok(s) ==> is_genuine_privkey(privkey@) ==> {
                let pk = privkey@.subrange(32, 64);
                &&& verify_public_spec(s@, pk, message@) == Ok::<bool, Error>(true)
                &&& recover_spec(s@, message@) == Ok::<Seq<u8>, Error>(pk)
                &&& verify_address_spec(s@, address_of(pk), message@) == Ok::<bool, Error>(true)
            },
    {
        let keypair = match KeyPair::from_privkey(*privkey) {
            Ok(k) => k,
            Err(e) => return Err(e),
        };
        let pubkey = keypair.pubkey();
        let raw = sign_detached(message, privkey);
        let s = Signature::compose(&raw, pubkey);
        proof {
            assert(sig_part(s@) =~= raw@);
            assert(pk_part(s@) =~= privkey@.subrange(32, 64));
        }
        Ok(s)
    }

    /// Checks the raw signature against the message under the embedded key,
    /// and returns that key if it verifies. This is no key recovery in the
    /// ECDSA sense: the key travels inside the signature.
    pub fn recover(&self, message: &Message) -> (r: Result<PubKey, Error>)
        ensures
            match r {
                Ok(pk) => recover_spec(self@, message@) == Ok::<Seq<u8>, Error>(pk@),
                Err(e) => recover_spec(self@, message@) == Err::<Seq<u8>, Error>(e),
            },
    {
        let sig = self.sig_array();
        let pubkey = self.pk_array();
        if !verify_detached(&sig, message, &pubkey) {
            Err(Error::InvalidSignature)
        } else {
            Ok(pubkey)
        }
    }

    /// Verifies the signature against a known public key. A different
    /// embedded key is rejected before any cryptographic check. Invalidity is
    /// always an error; a success is always `Ok(true)`.
    pub fn verify_public(&self, pubkey: &PubKey, message: &Message) -> (r: Result<bool, Error>)
        ensures
            r == verify_public_spec(self@, pubkey@, message@),
    {
        let sig = self.sig_array();
        let pk = self.pk_array();
        let mut i: usize = 0;
        while i < 32
            invariant
                0 <= i <= 32,
                pk@ == pk_part(self@),
                forall|j: int| 0 <= j < i ==> pk@[j] == pubkey@[j],
            decreases 32 - i,
        {
            if pk[i] != pubkey[i] {
                return Err(Error::InvalidPubKey);
            }
            i += 1;
        }
        assert(pk@ =~= pubkey@);
        if !verify_detached(&sig, message, pubkey) {
            Err(Error::InvalidSignature)
        } else {
            Ok(true)
        }
    }

    /// Verifies the signature and answers whether the signer's address is the
    /// claimed one. An address mismatch is `Ok(false)`, not an error.
    pub fn verify_address(&self, address: &Address, message: &Message) -> (r: Result<bool, Error>)
        ensures
            r == verify_address_spec(self@, address@, message@),
    {
        let pubkey = match self.recover(message) {
            Ok(pk) => pk,
            Err(e) => return Err(e),
        };
        let recovered = pubkey_to_address(&pubkey);
        let mut i: usize = 0;
        while i < 20
            invariant
                0 <= i <= 20,
                recovered@ == address_of(pubkey@),
                recover_spec(self@, message@) == Ok::<Seq<u8>, Error>(pubkey@),
                forall|j: int| 0 <= j < i ==> recovered@[j] == address@[j],
            decreases 20 - i,
        {
            if recovered[i] != address[i] {
                assert(recovered@ != address@ && recovered@[i as int] != address@[i as int]);
                return Ok(false);
            }
            i += 1;
        }
        assert(recovered@ =~= address@);
        Ok(true)
    }

    /// All 96 bytes as a slice.
    pub fn as_slice(&self) -> (r: &[u8])
        ensures
            r@ == self@,
    {
        self.0.as_slice()
    }

    /// All 96 bytes as an array.
    pub fn as_bytes(&self) -> (r: &[u8; 96])
        ensures
            r@ == self@,
    {
        &self.0
    }

    /// The 96 bytes, consuming the value.
    pub fn into_bytes(self) -> (r: [u8; 96])
        ensures
            r@ == self@,
    {
        self.0
    }

    /// A signature value from a slice of exactly 96 bytes.
    pub fn from_slice(slice: &[u8]) -> (r: Signature)
        requires
            slice@.len() == 96,
        ensures
            r@ == slice@,
    {
        let mut bytes = [0u8; 96];
        let mut i: usize = 0;
        while i < 96
            invariant
                0 <= i <= 96,
                slice@.len() == 96,
                forall|j: int| 0 <= j < i ==> bytes@[j] == slice@[j],
            decreases 96 - i,
        {
            bytes[i] = slice[i];
            i += 1;
        }
        assert(bytes@ =~= slice@);
        Signature(bytes)
    }

    /// The length-prefixed encoding: the 96 bytes as one RLP byte string.
    pub fn rlp_encode(&self) -> (r: Vec<u8>)
        ensures
            r@ == rlp_encoding(self@),
    {
        rlp_encode_bytes(self.0.as_slice())
    }

    /// A signature value from a decoded payload, which must hold exactly 96
    /// bytes.
    pub fn from_rlp_payload(payload: &[u8]) -> (r: Result<Signature, CodecError>)
        ensures
            result_view(r) == payload_decoding(payload@),
    {
        if payload.len() != SIGNATURE_BYTES_LEN {
            Err(CodecError::InvalidLength(payload.len()))
        } else {
            Ok(Signature::from_slice(payload))
        }
    }

    /// Decodes the length-prefixed encoding. A canonical byte string of 56 to
    /// 255 bytes decodes to its payload, which must then hold 96 bytes; input
    /// the RLP decoder rejects is `Malformed`.
    pub fn rlp_decode(bytes: &[u8]) -> (r: Result<Signature, CodecError>)
        ensures
            rlp_long_payload(bytes@) matches Some(p) ==> result_view(r) == payload_decoding(p),
    {
        match rlp_decode_bytes(bytes) {
            Some(payload) => Signature::from_rlp_payload(payload.as_slice()),
            None => Err(CodecError::Malformed),
        }
    }

    /// The element-sequence encoding: the 96 bytes as 96 elements in order.
    pub fn to_elements(&self) -> (r: Vec<u8>)
        ensures
            r@ == self@,
    {
        let mut r: Vec<u8> = Vec::with_capacity(96);
        let mut i: usize = 0;
        while i < 96
            invariant
                0 <= i <= 96,
                r@ =~= self@.subrange(0, i as int),
            decreases 96 - i,
        {
            r.push(self.0[i]);
            i += 1;
        }
        r
    }

    /// Decodes an element sequence, which must hold exactly 96 elements.
    pub fn from_elements(elems: &[u8]) -> (r: Result<Signature, CodecError>)
        ensures
            result_view(r) == element_decoding(elems@),
    {
        let n = elems.len();
        if n < SIGNATURE_BYTES_LEN {
            Err(CodecError::LengthMismatch(n))
        } else if n > SIGNATURE_BYTES_LEN {
            Err(CodecError::LengthMismatch(SIGNATURE_BYTES_LEN))
        } else {
            Ok(Signature::from_slice(elems))
        }
    }

    /// Lowercase hexadecimal of all 96 bytes.
    pub fn to_hex_string(&self) -> (r: String)
        ensures
            is_hex_of(r@, self@),
    {
        hex_encode(self.0.as_slice())
    }

    /// Lowercase hexadecimal of the raw signature half.
    pub fn sig_hex(&self) -> (r: String)
        ensures
            is_hex_of(r@, sig_part(self@)),
    {
        hex_encode(self.sig())
    }

    /// Lowercase hexadecimal of the embedded public key half.
    pub fn pk_hex(&self) -> (r: String)
        ensures
            is_hex_of(r@, pk_part(self@)),
    {
        hex_encode(self.pk())
    }
}

} // verus!
