//! The server loop: answer every probe with the address it came from, and
//! keep serving whatever one interaction brings.
//!
//! The caller binds the listening socket and gives the outcome to
//! [`bind_socket`]; a failure there ends the server before it starts. Then,
//! forever, it receives one datagram into a buffer of [`RECV_BUFFER_LEN`]
//! bytes and hands its sender to [`recv_addr`]; for an IPv4 sender it sends
//! [`octets_from_v4_addr`] back to that sender and hands the count sent to
//! [`send_echo`]. Every error of an iteration is reported and the loop goes
//! on.
use vstd::prelude::*;
use crate::address::{Endpoint, PeerAddress};
use crate::codec::{encode, spec_encode, ADDRESS_LEN};
use crate::error::Error;

verus! {

/// The size of the buffer that probes are received into, in bytes: room for
/// payloads of other probe formats, whose content is never read.
pub const RECV_BUFFER_LEN: usize = 8;

/// Whom one iteration answers: the sender of the datagram when it is an IPv4
/// endpoint; an invalid address for any other sender; a receive failure on
/// `local` when receiving failed.
pub open spec fn spec_recv_addr(local: PeerAddress, received: Option<PeerAddress>) -> Result<
    Endpoint,
    Error,
> {
    match received {
        Some(PeerAddress::V4(e)) => Ok(e),
        Some(sender) => Err(Error::InvalidAddress(sender)),
        None => Err(Error::ReceiveFailure(local)),
    }
}

/// The outcome of binding the listening socket to `addr`: the socket, or a
/// bind failure on `addr`.
pub fn bind_socket<S>(addr: Endpoint, socket: Option<S>) -> (r: Result<S, Error>)
    ensures
        r == match socket {
            Some(s) => Ok::<S, Error>(s),
            None => Err(Error::BindFailure(addr)),
        },
{
    match socket {
        Some(s) => Ok(s),
        None => Err(Error::BindFailure(addr)),
    }
}

/// Whom to answer, given the sender of the datagram received (`None` when
/// receiving failed) and the address the listening socket is bound at: an
/// IPv4 sender is answered; any other sender is an invalid address, and a
/// failed receive a receive failure on `local`.
pub fn recv_addr(local: PeerAddress, received: Option<PeerAddress>) -> (r: Result<Endpoint, Error>)
    ensures
        r == spec_recv_addr(local, received),
        received matches Some(sender) ==> (sender is V6 ==> r == Err::<Endpoint, Error>(
            Error::InvalidAddress(sender),
        )),
{
    match received {
        Some(PeerAddress::V4(e)) => Ok(e),
        Some(sender) => Err(Error::InvalidAddress(sender)),
        None => Err(Error::ReceiveFailure(local)),
    }
}

/// The answer to a probe from `sockaddr`: the four octets of its address.
pub fn octets_from_v4_addr(sockaddr: Endpoint) -> (r: [u8; 4])
    ensures
        r@ == spec_encode(sockaddr.ip),
{
    encode(sockaddr.ip)
}

/// The outcome of sending the answer to `addr`, given the count of bytes the
/// transport reports sent (`None` for a transport error).
pub fn send_echo(addr: Endpoint, sent: Option<usize>) -> (r: Result<(), Error>)
    ensures
        r == match sent {
            Some(n) => if n == ADDRESS_LEN {
                Ok(())
            } else {
                Err(Error::MismatchedSendSize(addr, n, ADDRESS_LEN))
            },
            None => Err(Error::SendFailure(addr)),
        },
{
    match sent {
        Some(n) => if n == ADDRESS_LEN {
            Ok(())
        } else {
            Err(Error::MismatchedSendSize(addr, n, ADDRESS_LEN))
        },
        None => Err(Error::SendFailure(addr)),
    }
}

} // verus!
