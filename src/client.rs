//! The client session: one bind, send, receive and decode cycle against a
//! server endpoint.
//!
//! The caller performs each socket operation, in this order, and hands its
//! outcome to the function of that step; the first error ends the session.
//! 1. Bind a socket to [`local_endpoint`]; give the outcome to [`bind_socket`].
//! 2. Set the socket's receive timeout to [`RECV_TIMEOUT`] seconds.
//! 3. Send [`probe`] to the server; give the count sent to [`send`].
//! 4. Receive one datagram into a buffer of [`RECV_BUFFER_LEN`] bytes; give it,
//!    with its sender, to [`receive_address`], which checks the sender
//!    ([`recv_from`]) and decodes the payload ([`decode_addr`]).
use vstd::prelude::*;
use crate::address::{Endpoint, Ipv4Address, PeerAddress};
use crate::codec::{decode, spec_decode, DecodeError, ADDRESS_LEN};
use crate::error::Error;

verus! {

/// How long the client waits for the server's answer, in seconds.
pub const RECV_TIMEOUT: u64 = 5;

/// The size of the buffer that the answer is received into, in bytes.
pub const RECV_BUFFER_LEN: usize = 16;

/// The endpoint the client binds to: any interface, an ephemeral port.
pub open spec fn spec_local_endpoint() -> Endpoint {
    Endpoint { ip: Ipv4Address(0, 0, 0, 0), port: 0 }
}

/// A received datagram, seen as its payload and its sender.
pub open spec fn datagram_view(d: Option<(Vec<u8>, PeerAddress)>) -> Option<(Seq<u8>, PeerAddress)> {
    match d {
        Some((data, from)) => Some((data@, from)),
        None => None,
    }
}

/// A received payload, seen as its bytes.
pub open spec fn payload_view(r: Result<Vec<u8>, Error>) -> Result<Seq<u8>, Error> {
    match r {
        Ok(data) => Ok(data@),
        Err(e) => Err(e),
    }
}

/// The payload of a datagram from the server, or a receive failure on the
/// local socket when none came (an error or the timeout) or when it came from
/// any other sender.
pub open spec fn spec_recv_from(
    addr: Endpoint,
    local: PeerAddress,
    received: Option<(Seq<u8>, PeerAddress)>,
) -> Result<Seq<u8>, Error> {
    match received {
        Some((data, from)) => if from == PeerAddress::V4(addr) {
            Ok(data)
        } else {
            Err(Error::ReceiveFailure(local))
        },
        None => Err(Error::ReceiveFailure(local)),
    }
}

/// The address that a payload from the server decodes to, or a receive-size
/// mismatch when it is not four bytes long.
pub open spec fn spec_decode_addr(addr: Endpoint, data: Seq<u8>) -> Result<Ipv4Address, Error> {
    match spec_decode(data) {
        Ok(a) => Ok(a),
        Err(DecodeError::MismatchedLength { actual, expected }) => Err(
            Error::MismatchedRecvSize(addr, actual, expected),
        ),
    }
}

/// What a session that got as far as receiving reports.
pub open spec fn spec_receive_address(
    addr: Endpoint,
    local: PeerAddress,
    received: Option<(Seq<u8>, PeerAddress)>,
) -> Result<Ipv4Address, Error> {
    match spec_recv_from(addr, local, received) {
        Ok(data) => spec_decode_addr(addr, data),
        Err(e) => Err(e),
    }
}

/// The endpoint the client binds its socket to: any interface, an ephemeral
/// port.
pub fn local_endpoint() -> (r: Endpoint)
    ensures
        r == spec_local_endpoint(),
{
    Endpoint::new(Ipv4Address::unspecified(), 0)
}

/// The probe: an empty payload.
pub fn probe() -> (r: Vec<u8>)
    ensures
        r@.len() == 0,
{
    Vec::new()
}

/// The outcome of binding the client's socket to [`local_endpoint`]: the
/// socket, or a bind failure on that endpoint.
pub fn bind_socket<S>(socket: Option<S>) -> (r: Result<S, Error>)
    ensures
        r == match socket {
            Some(s) => Ok::<S, Error>(s),
            None => Err(Error::BindFailure(spec_local_endpoint())),
        },
{
    match socket {
        Some(s) => Ok(s),
        None => Err(Error::BindFailure(local_endpoint())),
    }
}

/// The outcome of sending the probe to `addr`, given the count of bytes the
/// transport reports sent (`None` for a transport error).
pub fn send(addr: Endpoint, sent: Option<usize>) -> (r: Result<(), Error>)
    ensures
        r == match sent {
            Some(0) => Ok(()),
            Some(n) => Err(Error::MismatchedSendSize(addr, n, 0)),
            None => Err(Error::SendFailure(addr)),
        },
{
    match sent {
        Some(0) => Ok(()),
        Some(n) => Err(Error::MismatchedSendSize(addr, n, 0)),
        None => Err(Error::SendFailure(addr)),
    }
}

/// The payload of the answer, given the datagram received and its sender
/// (`None` when receiving failed or timed out) and the address the local
/// socket is bound at. Only a datagram from `addr` itself is accepted.
pub fn recv_from(
    addr: Endpoint,
    local: PeerAddress,
    received: Option<(Vec<u8>, PeerAddress)>,
) -> (r: Result<Vec<u8>, Error>)
    ensures
        payload_view(r) == spec_recv_from(addr, local, datagram_view(received)),
{
    match received {
        Some((data, from)) => {
            let from_server = match &from {
                PeerAddress::V4(e) => *e == addr,
                PeerAddress::V6(_) => false,
            };
            if from_server {
                Ok(data)
            } else {
                Err(Error::ReceiveFailure(local))
            }
        },
        None => Err(Error::ReceiveFailure(local)),
    }
}

/// The address that the server's payload holds, or a receive-size mismatch
/// on `addr` when it is not four bytes long.
pub fn decode_addr(addr: Endpoint, addr_data: Vec<u8>) -> (r: Result<Ipv4Address, Error>)
    ensures
        r == spec_decode_addr(addr, addr_data@),
        addr_data@.len() == ADDRESS_LEN ==> r == Ok::<Ipv4Address, Error>(
            Ipv4Address(addr_data@[0], addr_data@[1], addr_data@[2], addr_data@[3]),
        ),
        addr_data@.len() != ADDRESS_LEN ==> r == Err::<Ipv4Address, Error>(
            Error::MismatchedRecvSize(addr, addr_data.len(), ADDRESS_LEN),
        ),
{
    match decode(addr_data.as_slice()) {
        Ok(a) => Ok(a),
        Err(DecodeError::MismatchedLength { actual, expected }) => Err(
            Error::MismatchedRecvSize(addr, actual, expected),
        ),
    }
}

/// What the session reports once the answer is in: the address the server
/// saw, when one datagram came from `addr` itself and held four bytes; a
/// receive failure on `local` when none came in time or it came from any
/// other sender; a receive-size mismatch when its length was wrong.
pub fn receive_address(
    addr: Endpoint,
    local: PeerAddress,
    received: Option<(Vec<u8>, PeerAddress)>,
) -> (r: Result<Ipv4Address, Error>)
    ensures
        r == spec_receive_address(addr, local, datagram_view(received)),
        received is None ==> r == Err::<Ipv4Address, Error>(Error::ReceiveFailure(local)),
        (received matches Some((_, from)) && from != PeerAddress::V4(addr)) ==> r == Err::<
            Ipv4Address,
            Error,
        >(Error::ReceiveFailure(local)),
{
    match recv_from(addr, local, received) {
        Ok(data) => decode_addr(addr, data),
        Err(e) => Err(e),
    }
}

} // verus!
