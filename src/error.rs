//! The closed set of failures shared by the client and the server.
use vstd::prelude::*;
use crate::address::{decimal, endpoint_text, peer_text, push_decimal, Endpoint, PeerAddress};

verus! {

/// One failure of a client session or of one server iteration.
#[derive(Clone, PartialEq, Eq, Debug)]
pub enum Error {
    /// A datagram came from a peer that is not an IPv4 endpoint.
    InvalidAddress(PeerAddress),
    /// The socket could not be bound to the endpoint.
    BindFailure(Endpoint),
    /// The transport failed to send a datagram to the endpoint.
    SendFailure(Endpoint),
    /// Receiving on the socket bound at the address failed, timed out, or
    /// brought a datagram from an unexpected sender.
    ReceiveFailure(PeerAddress),
    /// The transport sent the first count of bytes to the endpoint where the
    /// second was expected.
    MismatchedSendSize(Endpoint, usize, usize),
    /// A payload from the endpoint held the first count of bytes where the
    /// second was expected.
    MismatchedRecvSize(Endpoint, usize, usize),
}

/// The message that describes an error.
pub open spec fn message(e: Error) -> Seq<char> {
    match e {
        Error::InvalidAddress(a) => "received invalid address "@ + peer_text(a),
        Error::BindFailure(a) => "unable to bind socket to "@ + endpoint_text(a),
        Error::SendFailure(a) => "error sending data to "@ + endpoint_text(a),
        Error::ReceiveFailure(a) => "error recieving data on "@ + peer_text(a),
        Error::MismatchedSendSize(a, size, expected) => "sent "@ + decimal(size as nat)
            + " of "@ + decimal(expected as nat) + " bytes to "@ + endpoint_text(a),
        Error::MismatchedRecvSize(a, size, expected) => "received "@ + decimal(size as nat)
            + " of "@ + decimal(expected as nat) + " bytes from "@ + endpoint_text(a),
    }
}

/// Appends "`size` of `expected` bytes `direction` `addr`" to `s`.
fn push_size_message(s: &mut String, size: usize, expected: usize, direction: &str, addr: &Endpoint)
    ensures
        final(s)@ == old(s)@ + decimal(size as nat) + " of "@ + decimal(expected as nat)
            + direction@ + endpoint_text(*addr),
{
    push_decimal(s, size as u64);
    s.append(" of ");
    push_decimal(s, expected as u64);
    s.append(direction);
    let text = addr.to_string();
    s.append(text.as_str());
}

impl Error {
    /// The message that describes this error.
    pub fn to_string(&self) -> (r: String)
        ensures
            r@ == message(*self),
    {
        match self {
            Error::InvalidAddress(a) => {
                let text = a.to_string();
                String::from_str("received invalid address ").concat(text.as_str())
            },
            Error::BindFailure(a) => {
                let text = a.to_string();
                String::from_str("unable to bind socket to ").concat(text.as_str())
            },
            Error::SendFailure(a) => {
                let text = a.to_string();
                String::from_str("error sending data to ").concat(text.as_str())
            },
            Error::ReceiveFailure(a) => {
                let text = a.to_string();
                String::from_str("error recieving data on ").concat(text.as_str())
            },
            Error::MismatchedSendSize(a, size, expected) => {
                let mut s = String::from_str("sent ");
                push_size_message(&mut s, *size, *expected, " bytes to ", a);
                s
            },
            Error::MismatchedRecvSize(a, size, expected) => {
                let mut s = String::from_str("received ");
                push_size_message(&mut s, *size, *expected, " bytes from ", a);
                s
            },
        }
    }
}

} // verus!
