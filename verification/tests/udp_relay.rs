//! UDP relay framing: header splice and strip on whole datagrams.

use socks5_core::address::Address;
use socks5_core::codec::DecodeError;
use socks5_core::error::ProtocolError;
use socks5_core::udp::UdpHeader;

#[test]
fn udp_header_parse_failure() {
    // datagram: 00 00 00 02 08 08 08 08 00 35 41 42 43 — address type 0x02
    let raw = [
        0x00, 0x00, 0x00, 0x02, 0x08, 0x08, 0x08, 0x08, 0x00, 0x35, 0x41, 0x42, 0x43,
    ];
    match UdpHeader::decode(&raw) {
        Err(DecodeError::Invalid {
            err: ProtocolError::InvalidAddressTypeInUdpHeader { frag, address_type },
        }) => {
            assert_eq!(frag, 0);
            assert_eq!(address_type, 2);
        }
        _ => panic!("expected an invalid address type in the UDP header"),
    }
}

#[test]
fn udp_datagram_strip() {
    // a valid datagram: header for 8.8.8.8:53, then the payload "ABC"
    let raw = [
        0x00, 0x00, 0x00, 0x01, 0x08, 0x08, 0x08, 0x08, 0x00, 0x35, 0x41, 0x42, 0x43,
    ];
    let (header, used) = UdpHeader::decode(&raw).unwrap();
    assert_eq!(used, 10);
    assert_eq!(header.frag, 0);
    match header.address {
        Address::V4 { ip, port } => {
            assert_eq!(ip, [8, 8, 8, 8]);
            assert_eq!(port, 53);
        }
        _ => panic!("expected an IPv4 destination"),
    }
    assert_eq!(&raw[used..], b"ABC");
}

#[test]
fn udp_datagram_splice() {
    let header = UdpHeader::new(0, Address::V4 { ip: [8, 8, 8, 8], port: 53 });
    let datagram = header.build_datagram(b"ABC");
    assert_eq!(
        datagram,
        vec![0x00, 0x00, 0x00, 0x01, 0x08, 0x08, 0x08, 0x08, 0x00, 0x35, 0x41, 0x42, 0x43]
    );
    // the payload begins exactly after serialized_len bytes
    assert_eq!(&datagram[header.serialized_len()..], b"ABC");
}

#[test]
fn udp_incomplete_hints() {
    assert!(matches!(
        UdpHeader::decode(&[]),
        Err(DecodeError::Incomplete { needed: 2 })
    ));
    assert!(matches!(
        UdpHeader::decode(&[0x00, 0x00]),
        Err(DecodeError::Incomplete { needed: 1 })
    ));
    assert!(matches!(
        UdpHeader::decode(&[0x00, 0x00, 0x00]),
        Err(DecodeError::Incomplete { needed: 1 })
    ));
}
