//! The two settings that the client and the server start from.
use vstd::prelude::*;
use crate::address::Ipv4Address;

verus! {

/// The UDP port that client and server use unless told otherwise.
pub const DEFAULT_PORT: u16 = 5300;

/// The client's settings: the server's address and port.
#[derive(Clone, Copy, PartialEq, Eq, Structural, Debug)]
pub struct ClientConfig {
    pub address: Ipv4Address,
    pub port: u16,
}

/// The server's settings: the address and port it listens on.
#[derive(Clone, Copy, PartialEq, Eq, Structural, Debug)]
pub struct ServerConfig {
    pub address: Ipv4Address,
    pub port: u16,
}

/// Whether `c` is an ASCII decimal digit.
pub open spec fn is_digit(c: char) -> bool {
    '0' <= c <= '9'
}

/// The value of a decimal digit.
pub open spec fn digit_value(c: char) -> nat {
    (c as int - '0' as int) as nat
}

/// The value of a string of decimal digits.
pub open spec fn digits_value(s: Seq<char>) -> nat
    decreases s.len(),
{
    if s.len() == 0 {
        0
    } else {
        digits_value(s.drop_last()) * 10 + digit_value(s.last())
    }
}

/// The digits of a port number's text: all of it but a leading `+`.
pub open spec fn port_digits(s: Seq<char>) -> Seq<char> {
    if s.len() > 0 && s[0] == '+' {
        s.drop_first()
    } else {
        s
    }
}

/// The port number that a text denotes: an optional `+`, then one or more
/// decimal digits whose value fits in 16 bits.
pub open spec fn spec_parse_port(s: Seq<char>) -> Option<u16> {
    let d = port_digits(s);
    if d.len() > 0 && (forall|i: int| 0 <= i < d.len() ==> is_digit(#[trigger] d[i]))
        && digits_value(d) <= u16::MAX {
        Some(digits_value(d) as u16)
    } else {
        None
    }
}

/// `n`, with every value past the largest port merged into one.
pub open spec fn capped(n: nat) -> nat {
    if n <= u16::MAX {
        n
    } else {
        (u16::MAX + 1) as nat
    }
}

/// The port number that `val` denotes, if it denotes one.
pub fn parse_port(val: &str) -> (r: Option<u16>)
    ensures
        r == spec_parse_port(val@),
{
    let n = val.unicode_len();
    let mut start: usize = 0;
    if n > 0 && val.get_char(0) == '+' {
        start = 1;
    }
    assert(port_digits(val@) =~= val@.subrange(start as int, n as int));
    if start >= n {
        return None;
    }
    let mut value: u32 = 0;
    let mut i: usize = start;
    while i < n
        invariant
            start <= i <= n,
            n == val@.len(),
            port_digits(val@) =~= val@.subrange(start as int, n as int),
            forall|j: int| start <= j < i ==> is_digit(#[trigger] val@[j]),
            value == capped(digits_value(val@.subrange(start as int, i as int))),
        decreases n - i,
    {
        let c = val.get_char(i);
        if !('0' <= c && c <= '9') {
            assert(!is_digit(port_digits(val@)[i - start]));
            return None;
        }
        let ghost prefix = val@.subrange(start as int, i as int);
        let ghost next = val@.subrange(start as int, i + 1);
        assert(next.drop_last() =~= prefix);
        let d = (c as u32) - ('0' as u32);
        if value > u16::MAX as u32 {
            assert(digits_value(next) >= digits_value(prefix)) by (nonlinear_arith)
                requires
                    digits_value(next) == digits_value(prefix) * 10 + digit_value(c),
            ;
        } else {
            value = value * 10 + d;
            if value > u16::MAX as u32 {
                value = u16::MAX as u32 + 1;
            }
        }
        i = i + 1;
    }
    if value <= u16::MAX as u32 {
        Some(value as u16)
    } else {
        None
    }
}

/// Whether `val` is a port number: nothing when it is, the message for the
/// user when it is not.
pub fn valid_port(val: String) -> (r: Result<(), String>)
    ensures
        r is Ok <==> spec_parse_port(val@) is Some,
        r matches Err(m) ==> m@ == "Not a valid port number"@,
{
    match parse_port(val.as_str()) {
        Some(_) => Ok(()),
        None => Err(String::from_str("Not a valid port number")),
    }
}

/// The port that an optional port argument selects: [`DEFAULT_PORT`] when
/// there is none, its number when it denotes one, nothing when it does not.
pub open spec fn spec_port_arg(port: Option<Seq<char>>) -> Option<u16> {
    match port {
        Some(text) => spec_parse_port(text),
        None => Some(DEFAULT_PORT),
    }
}

/// An optional argument, seen as its characters.
pub open spec fn str_view(s: Option<&str>) -> Option<Seq<char>> {
    match s {
        Some(t) => Some(t@),
        None => None,
    }
}

/// The port that an optional port argument selects.
fn port_arg(port: Option<&str>) -> (r: Option<u16>)
    ensures
        r == spec_port_arg(str_view(port)),
{
    match port {
        Some(text) => parse_port(text),
        None => Some(DEFAULT_PORT),
    }
}

impl ClientConfig {
    /// The client's settings from its arguments: the server's `address`, and
    /// the text of the port when one was given ([`DEFAULT_PORT`] otherwise).
    /// Nothing when the port text is not a port number.
    pub fn parse_args(address: Ipv4Address, port: Option<&str>) -> (r: Option<ClientConfig>)
        ensures
            r == match spec_port_arg(str_view(port)) {
                Some(p) => Some(ClientConfig { address, port: p }),
                None => None::<ClientConfig>,
            },
    {
        match port_arg(port) {
            Some(port) => Some(ClientConfig { address, port }),
            None => None,
        }
    }
}

impl ServerConfig {
    /// The server's settings from its arguments: the address to listen on
    /// when one was given (every interface otherwise), and the text of the
    /// port when one was given ([`DEFAULT_PORT`] otherwise). Nothing when the
    /// port text is not a port number.
    pub fn parse_args(address: Option<Ipv4Address>, port: Option<&str>) -> (r: Option<
        ServerConfig,
    >)
        ensures
            r == match spec_port_arg(str_view(port)) {
                Some(p) => Some(
                    ServerConfig {
                        address: match address {
                            Some(a) => a,
                            None => Ipv4Address(0, 0, 0, 0),
                        },
                        port: p,
                    },
                ),
                None => None::<ServerConfig>,
            },
    {
        let address = match address {
            Some(a) => a,
            None => Ipv4Address::unspecified(),
        };
        match port_arg(port) {
            Some(port) => Some(ServerConfig { address, port }),
            None => None,
        }
    }
}

} // verus!
