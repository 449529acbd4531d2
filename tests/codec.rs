use echoip::address::Ipv4Address;
use echoip::codec::{decode, encode, DecodeError};

fn round_trip(a: Ipv4Address) {
    assert_eq!(decode(&encode(a)), Ok(a));
}

#[test]
fn codec_round_trip_boundary_values() {
    round_trip(Ipv4Address(0, 0, 0, 0));
    round_trip(Ipv4Address(255, 255, 255, 255));
    round_trip(Ipv4Address(127, 0, 0, 1));
    round_trip(Ipv4Address(10, 0, 0, 1));
}

#[test]
fn codec_encodes_in_network_order() {
    assert_eq!(encode(Ipv4Address(10, 0, 0, 1)), [10, 0, 0, 1]);
    assert_eq!(encode(Ipv4Address(192, 168, 1, 254)), [192, 168, 1, 254]);
}

#[test]
fn codec_decodes_four_bytes_in_order() {
    assert_eq!(decode(&[1, 2, 3, 4]), Ok(Ipv4Address(1, 2, 3, 4)));
}

#[test]
fn codec_rejects_other_lengths() {
    for len in [0usize, 3, 5, 16] {
        let bytes = vec![7u8; len];
        assert_eq!(
            decode(&bytes),
            Err(DecodeError::MismatchedLength { actual: len, expected: 4 })
        );
    }
}
