//! The address payload: an IPv4 address as its four octets in network order.
use vstd::prelude::*;
use crate::address::Ipv4Address;

verus! {

/// The length of an address payload, in bytes.
pub const ADDRESS_LEN: usize = 4;

/// Why a payload does not decode to an address.
#[derive(Clone, Copy, PartialEq, Eq, Structural, Debug)]
pub enum DecodeError {
    /// The payload held `actual` bytes where `expected` were needed.
    MismatchedLength { actual: usize, expected: usize },
}

/// The payload of an address.
pub open spec fn spec_encode(a: Ipv4Address) -> Seq<u8> {
    seq![a.0, a.1, a.2, a.3]
}

/// What decoding a payload gives: the address whose octets are its four
/// bytes, or a length mismatch for a payload of any other length.
pub open spec fn spec_decode(bytes: Seq<u8>) -> Result<Ipv4Address, DecodeError> {
    if bytes.len() == ADDRESS_LEN {
        Ok(Ipv4Address(bytes[0], bytes[1], bytes[2], bytes[3]))
    } else {
        Err(DecodeError::MismatchedLength { actual: bytes.len() as usize, expected: ADDRESS_LEN })
    }
}

/// The four octets of an address, in network order.
pub fn encode(addr: Ipv4Address) -> (r: [u8; 4])
    ensures
        r@ == spec_encode(addr),
{
    let r = [addr.0, addr.1, addr.2, addr.3];
    assert(r@ =~= spec_encode(addr));
    r
}

/// The address whose octets are the four bytes of `bytes`; any other length
/// is a length mismatch.
pub fn decode(bytes: &[u8]) -> (r: Result<Ipv4Address, DecodeError>)
    ensures
        r == spec_decode(bytes@),
        bytes@.len() != ADDRESS_LEN ==> r == Err::<Ipv4Address, DecodeError>(
            DecodeError::MismatchedLength { actual: bytes.len(), expected: ADDRESS_LEN },
        ),
{
    if bytes.len() == ADDRESS_LEN {
        Ok(Ipv4Address(bytes[0], bytes[1], bytes[2], bytes[3]))
    } else {
        Err(DecodeError::MismatchedLength { actual: bytes.len(), expected: ADDRESS_LEN })
    }
}

/// Decoding the payload of an address gives that address back.
pub proof fn lemma_decode_encode(a: Ipv4Address)
    ensures
        spec_decode(spec_encode(a)) == Ok::<Ipv4Address, DecodeError>(a),
{
}

} // verus!
