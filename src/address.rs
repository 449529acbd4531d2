//! Plain-value models of the addresses that the protocol reads.
use vstd::prelude::*;

verus! {

/// An IPv4 address, held as its four octets in network order.
#[derive(Clone, Copy, PartialEq, Eq, Structural, Debug, Hash)]
pub struct Ipv4Address(pub u8, pub u8, pub u8, pub u8);

impl Ipv4Address {
    /// The unspecified address `0.0.0.0`.
    pub fn unspecified() -> (r: Ipv4Address)
        ensures
            r == Ipv4Address(0, 0, 0, 0),
    {
        Ipv4Address(0, 0, 0, 0)
    }

    /// The loopback address `127.0.0.1`.
    pub fn localhost() -> (r: Ipv4Address)
        ensures
            r == Ipv4Address(127, 0, 0, 1),
    {
        Ipv4Address(127, 0, 0, 1)
    }

    /// The dotted-quad text of this address.
    pub fn to_string(&self) -> (r: String)
        ensures
            r@ == ipv4_text(*self),
    {
        let dot = ".";
        let mut s = String::new();
        push_decimal(&mut s, self.0 as u64);
        s.append(dot);
        push_decimal(&mut s, self.1 as u64);
        s.append(dot);
        push_decimal(&mut s, self.2 as u64);
        s.append(dot);
        push_decimal(&mut s, self.3 as u64);
        proof {
            reveal_strlit(".");
        }
        assert(s@ =~= ipv4_text(*self));
        s
    }
}

/// An IPv4 address and a UDP port: where a socket is bound, or where a
/// datagram goes to or comes from.
#[derive(Clone, Copy, PartialEq, Eq, Structural, Debug, Hash)]
pub struct Endpoint {
    pub ip: Ipv4Address,
    pub port: u16,
}

impl Endpoint {
    /// The endpoint of `port` on `ip`.
    pub fn new(ip: Ipv4Address, port: u16) -> (r: Endpoint)
        ensures
            r == (Endpoint { ip, port }),
    {
        Endpoint { ip, port }
    }

    /// The text of this endpoint, address and port.
    pub fn to_string(&self) -> (r: String)
        ensures
            r@ == endpoint_text(*self),
    {
        let mut s = self.ip.to_string();
        s.append(":");
        push_decimal(&mut s, self.port as u64);
        proof {
            reveal_strlit(":");
        }
        assert(s@ =~= endpoint_text(*self));
        s
    }
}

/// The source address of a datagram, as the operating system reports it.
///
/// The protocol serves IPv4 peers only; an IPv6 peer is kept in its textual
/// form, since nothing but a message ever reads it.
#[derive(Clone, PartialEq, Eq, Debug, Hash)]
pub enum PeerAddress {
    V4(Endpoint),
    V6(String),
}

impl PeerAddress {
    /// The text of this peer address.
    pub fn to_string(&self) -> (r: String)
        ensures
            r@ == peer_text(*self),
    {
        match self {
            PeerAddress::V4(e) => e.to_string(),
            PeerAddress::V6(text) => text.clone(),
        }
    }
}

/// The ten decimal digits, in order of value.
pub open spec fn decimal_digits() -> Seq<char> {
    seq!['0', '1', '2', '3', '4', '5', '6', '7', '8', '9']
}

/// The decimal text of `n`: no sign, no leading zeros (`0` is written `0`).
pub open spec fn decimal(n: nat) -> Seq<char>
    decreases n,
{
    if n < 10 {
        seq![decimal_digits()[n as int]]
    } else {
        decimal(n / 10).push(decimal_digits()[(n % 10) as int])
    }
}

/// The dotted-quad text of an address, as in `127.0.0.1`.
pub open spec fn ipv4_text(a: Ipv4Address) -> Seq<char> {
    decimal(a.0 as nat) + seq!['.'] + decimal(a.1 as nat) + seq!['.'] + decimal(a.2 as nat)
        + seq!['.'] + decimal(a.3 as nat)
}

/// The text of an endpoint, as in `127.0.0.1:5300`.
pub open spec fn endpoint_text(e: Endpoint) -> Seq<char> {
    ipv4_text(e.ip) + seq![':'] + decimal(e.port as nat)
}

/// The text of a peer address.
pub open spec fn peer_text(p: PeerAddress) -> Seq<char> {
    match p {
        PeerAddress::V4(e) => endpoint_text(e),
        PeerAddress::V6(text) => text@,
    }
}

/// Appends the decimal text of `n` to `s`.
pub(crate) fn push_decimal(s: &mut String, n: u64)
    ensures
        final(s)@ == old(s)@ + decimal(n as nat),
    decreases n,
{
    let digits = "0123456789";
    proof {
        reveal_strlit("0123456789");
        assert(digits@ =~= decimal_digits());
    }
    if n >= 10 {
        push_decimal(s, n / 10);
    }
    let d = (n % 10) as usize;
    let digit = digits.substring_char(d, d + 1);
    assert(digit@ =~= seq![decimal_digits()[d as int]]);
    s.append(digit);
    assert(s@ =~= old(s)@ + decimal(n as nat));
}

} // verus!
