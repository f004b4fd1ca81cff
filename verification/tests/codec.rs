//! Byte-exact round trips, length checks and decode errors for every frame
//! codec.

use socks5_core::address::Address;
use socks5_core::codec::DecodeError;
use socks5_core::command::Command;
use socks5_core::error::ProtocolError;
use socks5_core::handshake::method::Method;
use socks5_core::handshake::password;
use socks5_core::handshake::{Request as HandshakeRequest, Response as HandshakeResponse};
use socks5_core::reply::Reply;
use socks5_core::request::Request;
use socks5_core::response::Response;
use socks5_core::udp::UdpHeader;

fn assert_addr_eq(a: &Address, b: &Address) {
    match (a, b) {
        (Address::V4 { ip: i1, port: p1 }, Address::V4 { ip: i2, port: p2 }) => {
            assert_eq!(i1, i2);
            assert_eq!(p1, p2);
        }
        (Address::V6 { segs: s1, port: p1 }, Address::V6 { segs: s2, port: p2 }) => {
            assert_eq!(s1, s2);
            assert_eq!(p1, p2);
        }
        (Address::Domain { name: n1, port: p1 }, Address::Domain { name: n2, port: p2 }) => {
            assert_eq!(n1, n2);
            assert_eq!(p1, p2);
        }
        _ => panic!("address variants differ"),
    }
}

fn roundtrip_addr(a: Address) {
    let bytes = a.encode();
    assert_eq!(bytes.len(), a.serialized_len());
    let (back, used) = Address::decode(&bytes).unwrap();
    assert_eq!(used, bytes.len());
    assert_addr_eq(&a, &back);
    assert_eq!(back.encode(), bytes);
}

#[test]
fn address_roundtrips() {
    roundtrip_addr(Address::V4 { ip: [127, 0, 0, 1], port: 80 });
    roundtrip_addr(Address::V4 { ip: [255, 255, 255, 255], port: 65535 });
    roundtrip_addr(Address::V6 { segs: [0, 0, 0, 0, 0, 0, 0, 1], port: 443 });
    roundtrip_addr(Address::V6 {
        segs: [0x2001, 0x0db8, 0xffff, 0x1234, 0, 0x00ff, 0xabcd, 0x0001],
        port: 1,
    });
    roundtrip_addr(Address::Domain { name: b"x".to_vec(), port: 1 });
    roundtrip_addr(Address::Domain { name: b"example.com".to_vec(), port: 65535 });
    roundtrip_addr(Address::Domain { name: vec![0xAB; 255], port: 7 });
    // an empty label is never emitted by conforming peers but still round-trips
    roundtrip_addr(Address::Domain { name: Vec::new(), port: 9 });
}

#[test]
fn address_exact_bytes() {
    let a = Address::V4 { ip: [127, 0, 0, 1], port: 80 };
    assert_eq!(a.encode(), vec![0x01, 127, 0, 0, 1, 0x00, 0x50]);
    let d = Address::Domain { name: b"ab".to_vec(), port: 80 };
    assert_eq!(d.encode(), vec![0x03, 0x02, b'a', b'b', 0x00, 0x50]);
    let v6 = Address::V6 { segs: [0x2001, 0, 0, 0, 0, 0, 0, 1], port: 443 };
    let mut expected = vec![0x04, 0x20, 0x01];
    expected.extend_from_slice(&[0u8; 14]);
    expected[16] = 0x01;
    expected.extend_from_slice(&[0x01, 0xBB]);
    assert_eq!(v6.encode(), expected);
}

#[test]
fn address_incomplete_hints() {
    // the hints reproduce the read batching: type byte, then the body
    assert!(matches!(
        Address::decode(&[]),
        Err(DecodeError::Incomplete { needed: 1 })
    ));
    assert!(matches!(
        Address::decode(&[0x01]),
        Err(DecodeError::Incomplete { needed: 6 })
    ));
    assert!(matches!(
        Address::decode(&[0x04]),
        Err(DecodeError::Incomplete { needed: 18 })
    ));
    assert!(matches!(
        Address::decode(&[0x03]),
        Err(DecodeError::Incomplete { needed: 1 })
    ));
    // after the length byte, the label and port arrive as one read
    assert!(matches!(
        Address::decode(&[0x03, 5]),
        Err(DecodeError::Incomplete { needed: 7 })
    ));
    assert!(matches!(
        Address::decode(&[0x03, 5, b'a']),
        Err(DecodeError::Incomplete { needed: 6 })
    ));
}

#[test]
fn address_invalid_type() {
    assert!(matches!(
        Address::decode(&[0x02, 0, 0]),
        Err(DecodeError::Invalid { err: 0x02 })
    ));
}

#[test]
fn max_serialized_len_is_tight() {
    let a = Address::Domain { name: vec![b'a'; 255], port: 1 };
    assert_eq!(a.serialized_len(), socks5_core::address::MAX_SERIALIZED_LEN);
}

#[test]
fn request_roundtrip() {
    let r = Request::new(
        Command::Connect,
        Address::V4 { ip: [10, 0, 0, 2], port: 1080 },
    );
    let bytes = r.encode();
    assert_eq!(bytes.len(), r.serialized_len());
    let (back, used) = Request::decode(&bytes).unwrap();
    assert_eq!(used, bytes.len());
    assert_eq!(back.command, Command::Connect);
    assert_addr_eq(&back.address, &r.address);
    assert_eq!(back.encode(), bytes);
}

#[test]
fn request_version_rejected() {
    // only the version byte may be consumed before the rejection
    match Request::decode(&[0x04]) {
        Err(DecodeError::Invalid { err: ProtocolError::ProtocolVersion { version } }) => {
            assert_eq!(version, 0x04)
        }
        _ => panic!("expected a version rejection"),
    }
}

#[test]
fn request_invalid_command() {
    match Request::decode(&[0x05, 0x09]) {
        Err(DecodeError::Invalid { err: ProtocolError::InvalidCommand { version, command } }) => {
            assert_eq!((version, command), (0x05, 0x09))
        }
        _ => panic!("expected an invalid command"),
    }
}

#[test]
fn request_invalid_address_type() {
    match Request::decode(&[0x05, 0x01, 0x00, 0x05]) {
        Err(DecodeError::Invalid {
            err: ProtocolError::InvalidAddressTypeInRequest { version, command, address_type },
        }) => {
            assert_eq!(version, 0x05);
            assert_eq!(command, Command::Connect);
            assert_eq!(address_type, 0x05);
        }
        _ => panic!("expected an invalid address type"),
    }
}

#[test]
fn request_reserved_byte_not_validated() {
    // a non-zero reserved byte is read and discarded
    let bytes = [0x05, 0x03, 0x7F, 0x01, 1, 2, 3, 4, 0x1F, 0x90];
    let (r, used) = Request::decode(&bytes).unwrap();
    assert_eq!(used, 10);
    assert_eq!(r.command, Command::Associate);
    assert_addr_eq(&r.address, &Address::V4 { ip: [1, 2, 3, 4], port: 8080 });
}

#[test]
fn response_roundtrip() {
    let r = Response::new(
        Reply::ConnectionRefused,
        Address::Domain { name: b"host".to_vec(), port: 9 },
    );
    let bytes = r.encode();
    assert_eq!(bytes.len(), r.serialized_len());
    let (back, used) = Response::decode(&bytes).unwrap();
    assert_eq!(used, bytes.len());
    assert_eq!(back.reply, Reply::ConnectionRefused);
    assert_addr_eq(&back.address, &r.address);
}

#[test]
fn response_version_rejected() {
    match Response::decode(&[0x04, 0x00]) {
        Err(DecodeError::Invalid { err: ProtocolError::ProtocolVersion { version } }) => {
            assert_eq!(version, 0x04)
        }
        _ => panic!("expected a version rejection"),
    }
}

#[test]
fn response_invalid_reply() {
    match Response::decode(&[0x05, 0x09]) {
        Err(DecodeError::Invalid { err: ProtocolError::InvalidReply { version, reply } }) => {
            assert_eq!((version, reply), (0x05, 0x09))
        }
        _ => panic!("expected an invalid reply"),
    }
}

#[test]
fn response_invalid_address_type() {
    match Response::decode(&[0x05, 0x00, 0x00, 0x07]) {
        Err(DecodeError::Invalid {
            err: ProtocolError::InvalidAddressTypeInResponse { version, reply, address_type },
        }) => {
            assert_eq!(version, 0x05);
            assert_eq!(reply, Reply::Succeeded);
            assert_eq!(address_type, 0x07);
        }
        _ => panic!("expected an invalid address type"),
    }
}

#[test]
fn reply_bytes_are_the_nine_assigned() {
    let all = [
        (Reply::Succeeded, 0x00),
        (Reply::GeneralFailure, 0x01),
        (Reply::ConnectionNotAllowed, 0x02),
        (Reply::NetworkUnreachable, 0x03),
        (Reply::HostUnreachable, 0x04),
        (Reply::ConnectionRefused, 0x05),
        (Reply::TtlExpired, 0x06),
        (Reply::CommandNotSupported, 0x07),
        (Reply::AddressTypeNotSupported, 0x08),
    ];
    for (rep, byte) in all {
        assert_eq!(rep.to_u8(), byte);
        assert_eq!(Reply::try_from(byte), Ok(rep));
    }
    assert_eq!(Reply::try_from(0x09), Err(0x09));
    assert_eq!(Command::try_from(0x00), Err(0x00));
    assert_eq!(Command::try_from(0x02), Ok(Command::Bind));
}

#[test]
fn method_request_roundtrip() {
    let r = HandshakeRequest::new(vec![Method(0x00), Method(0x02), Method(0x80)]);
    let bytes = r.encode();
    assert_eq!(bytes, vec![0x05, 0x03, 0x00, 0x02, 0x80]);
    assert_eq!(bytes.len(), r.serialized_len());
    let (back, used) = HandshakeRequest::decode(&bytes).unwrap();
    assert_eq!(used, 5);
    assert_eq!(back.methods, r.methods);
}

#[test]
fn method_request_empty_list_tolerated() {
    let (r, used) = HandshakeRequest::decode(&[0x05, 0x00]).unwrap();
    assert_eq!(used, 2);
    assert!(r.methods.is_empty());
}

#[test]
fn method_request_version_rejected() {
    match HandshakeRequest::decode(&[0x04, 0x01, 0x00]) {
        Err(DecodeError::Invalid { err: ProtocolError::ProtocolVersion { version } }) => {
            assert_eq!(version, 0x04)
        }
        _ => panic!("expected a version rejection"),
    }
}

#[test]
fn method_response_roundtrip_and_liberal_version() {
    let r = HandshakeResponse::new(Method(0x02));
    assert_eq!(r.encode(), vec![0x05, 0x02]);
    assert_eq!(r.serialized_len(), 2);
    let (back, used) = HandshakeResponse::decode(&[0x05, 0x02]).unwrap();
    assert_eq!(used, 2);
    assert_eq!(back.method, Method(0x02));
    // the version byte of a method response is read but not validated
    let (back, _) = HandshakeResponse::decode(&[0x04, 0x42]).unwrap();
    assert_eq!(back.method, Method(0x42));
}

#[test]
fn password_request_roundtrip() {
    let r = password::Request::new(b"user".to_vec(), b"pass".to_vec());
    let bytes = r.encode();
    assert_eq!(
        bytes,
        vec![0x01, 0x04, b'u', b's', b'e', b'r', 0x04, b'p', b'a', b's', b's']
    );
    assert_eq!(bytes.len(), r.serialized_len());
    let (back, used) = password::Request::decode(&bytes).unwrap();
    assert_eq!(used, bytes.len());
    assert_eq!(back.username, b"user".to_vec());
    assert_eq!(back.password, b"pass".to_vec());
}

#[test]
fn password_request_empty_fields_accepted() {
    let r = password::Request::new(Vec::new(), Vec::new());
    let bytes = r.encode();
    assert_eq!(bytes, vec![0x01, 0x00, 0x00]);
    let (back, used) = password::Request::decode(&bytes).unwrap();
    assert_eq!(used, 3);
    assert!(back.username.is_empty());
    assert!(back.password.is_empty());
}

#[test]
fn password_request_version_rejected() {
    match password::Request::decode(&[0x05, 0x01, b'u']) {
        Err(DecodeError::Invalid { err: password::Error::SubNegotiationVersion { version } }) => {
            assert_eq!(version, 0x05)
        }
        _ => panic!("expected a sub-negotiation version rejection"),
    }
}

#[test]
fn password_request_incomplete_hints() {
    assert!(matches!(
        password::Request::decode(&[]),
        Err(DecodeError::Incomplete { needed: 1 })
    ));
    assert!(matches!(
        password::Request::decode(&[0x01]),
        Err(DecodeError::Incomplete { needed: 1 })
    ));
    assert!(matches!(
        password::Request::decode(&[0x01, 0x02]),
        Err(DecodeError::Incomplete { needed: 2 })
    ));
    assert!(matches!(
        password::Request::decode(&[0x01, 0x02, b'a', b'b']),
        Err(DecodeError::Incomplete { needed: 1 })
    ));
    assert!(matches!(
        password::Request::decode(&[0x01, 0x02, b'a', b'b', 0x03]),
        Err(DecodeError::Incomplete { needed: 3 })
    ));
}

#[test]
fn password_response_roundtrip_and_liberal_status() {
    assert_eq!(password::Response::new(true).encode(), vec![0x01, 0x00]);
    assert_eq!(password::Response::new(false).encode(), vec![0x01, 0xFF]);
    let (ok, _) = password::Response::decode(&[0x01, 0x00]).unwrap();
    assert!(ok.status);
    let (fail, _) = password::Response::decode(&[0x01, 0xFF]).unwrap();
    assert!(!fail.status);
    // any non-zero status byte is read as failure
    let (odd, _) = password::Response::decode(&[0x01, 0x07]).unwrap();
    assert!(!odd.status);
}

#[test]
fn udp_header_roundtrip() {
    let h = UdpHeader::new(3, Address::V6 { segs: [1, 2, 3, 4, 5, 6, 7, 8], port: 53 });
    let bytes = h.encode();
    assert_eq!(bytes.len(), h.serialized_len());
    assert_eq!(bytes.len(), 22);
    let (back, used) = UdpHeader::decode(&bytes).unwrap();
    assert_eq!(used, 22);
    assert_eq!(back.frag, 3);
    assert_addr_eq(&back.address, &h.address);
}

#[test]
fn error_conversion_keeps_io_value() {
    let io = std::io::Error::new(std::io::ErrorKind::ConnectionReset, "gone");
    let e = socks5_core::Error::Io(io);
    let back = e.into_io_error();
    assert_eq!(back.kind(), std::io::ErrorKind::ConnectionReset);
    let p = socks5_core::Error::Protocol(ProtocolError::ProtocolVersion { version: 4 });
    let msg = format!("{}", p.into_io_error());
    assert!(msg.contains("4"));
}
