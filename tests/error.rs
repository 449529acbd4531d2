use echoip::address::{Endpoint, Ipv4Address, PeerAddress};
use echoip::error::Error;

#[test]
fn error_test_error_format() {
    let v4addr = Endpoint::new(Ipv4Address::localhost(), 0);
    let addr = PeerAddress::V4(v4addr);

    let msg = Error::InvalidAddress(addr.clone()).to_string();
    assert!(msg.ends_with("127.0.0.1:0"));

    let msg = Error::BindFailure(v4addr).to_string();
    assert!(msg.ends_with("127.0.0.1:0"));

    let msg = Error::SendFailure(v4addr).to_string();
    assert!(msg.ends_with("127.0.0.1:0"));

    let msg = Error::ReceiveFailure(addr).to_string();
    assert!(msg.ends_with("127.0.0.1:0"));

    let msg = Error::MismatchedSendSize(v4addr, 500, 1000).to_string();
    assert!(msg.ends_with("127.0.0.1:0"));
    assert!(msg.contains("500 of 1000"));

    let msg = Error::MismatchedRecvSize(v4addr, 500, 1000).to_string();
    assert!(msg.ends_with("127.0.0.1:0"));
    assert!(msg.contains("500 of 1000"));
}

#[test]
fn error_messages_in_full() {
    let a = Endpoint::new(Ipv4Address(192, 168, 10, 200), 5300);
    assert_eq!(
        Error::InvalidAddress(PeerAddress::V6("[fe80::1]:7".to_string())).to_string(),
        "received invalid address [fe80::1]:7"
    );
    assert_eq!(
        Error::BindFailure(a).to_string(),
        "unable to bind socket to 192.168.10.200:5300"
    );
    assert_eq!(
        Error::SendFailure(a).to_string(),
        "error sending data to 192.168.10.200:5300"
    );
    assert_eq!(
        Error::ReceiveFailure(PeerAddress::V4(a)).to_string(),
        "error recieving data on 192.168.10.200:5300"
    );
    assert_eq!(
        Error::MismatchedSendSize(a, 0, 4).to_string(),
        "sent 0 of 4 bytes to 192.168.10.200:5300"
    );
    assert_eq!(
        Error::MismatchedRecvSize(a, 16, 4).to_string(),
        "received 16 of 4 bytes from 192.168.10.200:5300"
    );
}

#[test]
fn address_text() {
    assert_eq!(Ipv4Address(0, 0, 0, 0).to_string(), "0.0.0.0");
    assert_eq!(Ipv4Address(255, 255, 255, 255).to_string(), "255.255.255.255");
    assert_eq!(Ipv4Address(10, 0, 0, 1).to_string(), "10.0.0.1");
    assert_eq!(
        Endpoint::new(Ipv4Address(1, 2, 3, 4), 65535).to_string(),
        "1.2.3.4:65535"
    );
    assert_eq!(
        PeerAddress::V6("[::]:0".to_string()).to_string(),
        "[::]:0"
    );
}

#[test]
fn port_text_values() {
    let ip = Ipv4Address(1, 1, 1, 1);
    assert_eq!(Endpoint::new(ip, 0).to_string(), "1.1.1.1:0");
    assert_eq!(Endpoint::new(ip, 9).to_string(), "1.1.1.1:9");
    assert_eq!(Endpoint::new(ip, 10).to_string(), "1.1.1.1:10");
    assert_eq!(Endpoint::new(ip, 5300).to_string(), "1.1.1.1:5300");
    assert_eq!(
        Error::MismatchedRecvSize(Endpoint::new(ip, 1), usize::MAX, 4).to_string(),
        format!("received {} of 4 bytes from 1.1.1.1:1", usize::MAX)
    );
}
