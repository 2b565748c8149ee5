use vstd::prelude::*;

use rustc_serialize::hex::ToHex;

verus! {

/// The RLP header of a byte string whose length lies between 56 and 255:
/// the marker for one length byte, then that length.
pub open spec fn rlp_long_header(len: nat) -> Seq<u8> {
    seq![0xb8u8, len as u8]
}

/// The payload of `bytes` when it is exactly one RLP byte string with a
/// one-byte length of 56 to 255, and nothing after it.
pub open spec fn rlp_long_payload(bytes: Seq<u8>) -> Option<Seq<u8>> {
    if bytes.len() >= 2 && bytes[0] == 0xb8u8 && bytes[1] >= 56 && bytes.len() == 2 + bytes[1] {
        Some(bytes.subrange(2, bytes.len() as int))
    } else {
        None
    }
}

/// Relies on rlp's `encode` of a `Vec<u8>`, which writes the bytes as one
/// RLP string (`encode_value`).
#[verifier::external_body]
pub(crate) fn rlp_encode_bytes(b: &[u8]) -> (r: Vec<u8>)
    ensures
        56 <= b@.len() <= 255 ==> r@ == rlp_long_header(b@.len()) + b@,
{
    rlp::encode(&b.to_vec()).to_vec()
}

/// Relies on rlp's `decode` into a `Vec<u8>`, which reads one RLP string and
/// returns its payload (`decode_value`); a decoder error becomes `None`.
#[verifier::external_body]
pub(crate) fn rlp_decode_bytes(bytes: &[u8]) -> (r: Option<Vec<u8>>)
    ensures
        rlp_long_payload(bytes@) is Some ==> (r is Some && r->Some_0@ == rlp_long_payload(
            bytes@,
        )->Some_0),
{
    rlp::decode::<Vec<u8>>(bytes).ok()
}

/// The lowercase hexadecimal digit of a value below 16.
pub open spec fn hex_digit(n: u8) -> char {
    if n < 10 {
        (('0' as u8) + n) as char
    } else {
        (('a' as u8) + n - 10) as char
    }
}

/// Two lowercase hexadecimal digits per byte, high nibble first.
pub open spec fn is_hex_of(h: Seq<char>, b: Seq<u8>) -> bool {
    &&& h.len() == 2 * b.len()
    &&& forall|i: int|
        0 <= i < b.len() ==> #[trigger] h[2 * i] == hex_digit(b[i] / 16) && h[2 * i + 1]
            == hex_digit(b[i] % 16)
}

/// Relies on rustc_serialize's `ToHex::to_hex` for byte slices: two lowercase
/// digits per byte, high nibble first.
#[verifier::external_body]
pub(crate) fn hex_encode(b: &[u8]) -> (r: String)
    ensures
        is_hex_of(r@, b@),
{
    b.to_hex()
}

} // verus!
