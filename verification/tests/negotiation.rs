//! Negotiation scenarios driven through the typestate handles, with a plain
//! token standing in for the transport.

use socks5_core::address::Address;
use socks5_core::auth::{NoAuth, Password};
use socks5_core::connection::{AuthDecision, Command, IncomingConnection, NeedAuthenticate};
use socks5_core::error::ProtocolError;
use socks5_core::handshake::method::Method;
use socks5_core::handshake::password;
use socks5_core::handshake::Request as HandshakeRequest;
use socks5_core::reply::Reply;
use socks5_core::request::Request;

#[test]
fn noauth_connect_happy_path() {
    // client: 05 01 00
    let (hs, used) = HandshakeRequest::decode(&[0x05, 0x01, 0x00]).unwrap();
    assert_eq!(used, 3);

    let conn: IncomingConnection<u32, NeedAuthenticate> = IncomingConnection::new(7);
    let chosen = NoAuth::new().as_handshake_method();
    assert_eq!(chosen, Method(0x00));

    let next = match conn.authenticate(hs, chosen) {
        AuthDecision::Proceed { response, next } => {
            // server: 05 00
            assert_eq!(response.encode(), vec![0x05, 0x00]);
            next
        }
        AuthDecision::Reject { .. } => panic!("the offer contains the chosen method"),
    };

    // client: 05 01 00 01 7F 00 00 01 00 50
    let bytes = [0x05, 0x01, 0x00, 0x01, 0x7F, 0x00, 0x00, 0x01, 0x00, 0x50];
    let (req, used) = Request::decode(&bytes).unwrap();
    assert_eq!(used, 10);

    match next.wait(req) {
        Command::Connect(c, addr) => {
            match addr {
                Address::V4 { ip, port } => {
                    assert_eq!(ip, [127, 0, 0, 1]);
                    assert_eq!(port, 80);
                }
                _ => panic!("expected an IPv4 destination"),
            }
            let (resp, ready) = c.reply(Reply::Succeeded, Address::unspecified());
            // server: 05 00 00 01 00 00 00 00 00 00
            assert_eq!(
                resp.encode(),
                vec![0x05, 0x00, 0x00, 0x01, 0x00, 0x00, 0x00, 0x00, 0x00, 0x00]
            );
            assert_eq!(ready.into_inner(), 7);
        }
        _ => panic!("expected a Connect command"),
    }
}

#[test]
fn no_acceptable_method() {
    // client offers GSSAPI and Password: 05 02 01 02
    let (hs, _) = HandshakeRequest::decode(&[0x05, 0x02, 0x01, 0x02]).unwrap();

    let conn: IncomingConnection<u32, NeedAuthenticate> = IncomingConnection::new(9);
    let chosen = NoAuth::new().as_handshake_method();

    match conn.authenticate(hs, chosen) {
        AuthDecision::Reject { response, error, stream } => {
            // server: 05 FF
            assert_eq!(response.encode(), vec![0x05, 0xFF]);
            match error {
                ProtocolError::NoAcceptableHandshakeMethod {
                    version,
                    chosen_method,
                    offered_methods,
                } => {
                    assert_eq!(version, 0x05);
                    assert_eq!(chosen_method, Method(0x00));
                    assert_eq!(offered_methods, vec![Method(0x01), Method(0x02)]);
                }
                _ => panic!("expected NoAcceptableHandshakeMethod"),
            }
            assert_eq!(stream, 9);
        }
        AuthDecision::Proceed { .. } => panic!("the offer lacks the chosen method"),
    }
}

#[test]
fn empty_method_list_rejected() {
    // N = 0 is tolerated as an empty offer rather than hanging, and comes
    // out as a refusal carrying the empty list
    let (hs, used) = HandshakeRequest::decode(&[0x05, 0x00]).unwrap();
    assert_eq!(used, 2);
    let conn: IncomingConnection<u32, NeedAuthenticate> = IncomingConnection::new(1);
    match conn.authenticate(hs, Method(0x00)) {
        AuthDecision::Reject { response, error, stream } => {
            assert_eq!(response.encode(), vec![0x05, 0xFF]);
            match error {
                ProtocolError::NoAcceptableHandshakeMethod { offered_methods, .. } => {
                    assert!(offered_methods.is_empty());
                }
                _ => panic!("expected NoAcceptableHandshakeMethod"),
            }
            assert_eq!(stream, 1);
        }
        AuthDecision::Proceed { .. } => panic!("an empty offer cannot contain the chosen method"),
    }
}

#[test]
fn password_success() {
    let auth = Password::new(b"user".to_vec(), b"pass".to_vec());
    assert_eq!(auth.as_handshake_method(), Method(0x02));

    // client: 01 04 75 73 65 72 04 70 61 73 73
    let bytes = [
        0x01, 0x04, 0x75, 0x73, 0x65, 0x72, 0x04, 0x70, 0x61, 0x73, 0x73,
    ];
    let (req, used) = password::Request::decode(&bytes).unwrap();
    assert_eq!(used, 11);

    let (resp, ok) = auth.evaluate(&req);
    assert!(ok);
    // server: 01 00
    assert_eq!(resp.encode(), vec![0x01, 0x00]);
}

#[test]
fn password_failure() {
    let auth = Password::new(b"user".to_vec(), b"pass".to_vec());
    let (req, _) = password::Request::decode(&[
        0x01, 0x04, 0x75, 0x73, 0x65, 0x72, 0x04, 0x70, 0x61, 0x73, 0x00,
    ])
    .unwrap();
    let (resp, ok) = auth.evaluate(&req);
    assert!(!ok);
    assert_eq!(resp.encode(), vec![0x01, 0xFF]);
}

#[test]
fn bind_two_reply_sequence() {
    let (hs, _) = HandshakeRequest::decode(&[0x05, 0x01, 0x00]).unwrap();
    let conn: IncomingConnection<u32, NeedAuthenticate> = IncomingConnection::new(3);
    let next = match conn.authenticate(hs, Method(0x00)) {
        AuthDecision::Proceed { next, .. } => next,
        AuthDecision::Reject { .. } => panic!("the offer contains the chosen method"),
    };

    // CMD = 0x02 (Bind)
    let bytes = [0x05, 0x02, 0x00, 0x01, 0x0A, 0x00, 0x00, 0x01, 0x1F, 0x40];
    let (req, _) = Request::decode(&bytes).unwrap();

    match next.wait(req) {
        Command::Bind(b, _) => {
            // first reply: the bound listen address (IPv4, 10 bytes)
            let (resp1, b) = b.reply(
                Reply::Succeeded,
                Address::V4 { ip: [10, 0, 0, 1], port: 4000 },
            );
            assert_eq!(resp1.encode().len(), 10);
            // second reply: the remote peer address (IPv6, 22 bytes)
            let (resp2, ready) = b.reply(
                Reply::Succeeded,
                Address::V6 { segs: [0, 0, 0, 0, 0, 0, 0, 1], port: 5000 },
            );
            assert_eq!(resp2.encode().len(), 22);
            // only now does the handle stand for the raw stream
            assert_eq!(ready.into_inner(), 3);
        }
        _ => panic!("expected a Bind command"),
    }
}

#[test]
fn associate_reply() {
    let (hs, _) = HandshakeRequest::decode(&[0x05, 0x01, 0x00]).unwrap();
    let conn: IncomingConnection<u32, NeedAuthenticate> = IncomingConnection::new(5);
    let next = match conn.authenticate(hs, Method(0x00)) {
        AuthDecision::Proceed { next, .. } => next,
        AuthDecision::Reject { .. } => panic!("the offer contains the chosen method"),
    };

    // CMD = 0x03 (Associate)
    let bytes = [0x05, 0x03, 0x00, 0x01, 0x00, 0x00, 0x00, 0x00, 0x00, 0x00];
    let (req, _) = Request::decode(&bytes).unwrap();

    match next.wait(req) {
        Command::Associate(a, _) => {
            let (resp, ready) = a.reply(
                Reply::Succeeded,
                Address::V4 { ip: [192, 168, 0, 1], port: 1080 },
            );
            assert_eq!(
                resp.encode(),
                vec![0x05, 0x00, 0x00, 0x01, 192, 168, 0, 1, 0x04, 0x38]
            );
            assert_eq!(ready.into_inner(), 5);
        }
        _ => panic!("expected an Associate command"),
    }
}

#[test]
fn transport_survives_the_handle() {
    let conn: IncomingConnection<String, NeedAuthenticate> =
        IncomingConnection::new(String::from("stream"));
    assert_eq!(conn.get_ref(), "stream");
    assert_eq!(conn.into_inner(), "stream");
}
