//! What one request and its answer achieve, from both ends.
use vstd::prelude::*;
use crate::address::{Endpoint, Ipv4Address, PeerAddress};
use crate::client::spec_receive_address;
use crate::codec::spec_encode;
use crate::error::Error;
use crate::server::spec_recv_addr;

verus! {

/// A probe from `client` that reaches the server is answered, to `client`
/// itself, with the payload of `client`'s address; and when the client,
/// having probed `server`, receives that payload from `server`, it reports
/// exactly the address that the server saw.
pub proof fn lemma_exchange_reports_sender(
    server: Endpoint,
    client: Endpoint,
    server_local: PeerAddress,
    client_local: PeerAddress,
)
    ensures
        spec_recv_addr(server_local, Some(PeerAddress::V4(client))) == Ok::<Endpoint, Error>(
            client,
        ),
        spec_receive_address(
            server,
            client_local,
            Some((spec_encode(client.ip), PeerAddress::V4(server))),
        ) == Ok::<Ipv4Address, Error>(client.ip),
{
}

} // verus!
