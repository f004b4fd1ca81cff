//! Server-side core of the SOCKS5 protocol: wire codecs for every frame of
//! the negotiation and for UDP relay headers, together with a typestate
//! negotiation driver whose stages expose only the legal next operations.
//!
//! All frame codecs work on in-memory byte buffers; the caller performs the
//! actual transport I/O and feeds complete prefixes in, guided by the
//! `Incomplete` outcomes of the decoders.

use vstd::prelude::*;

pub mod address;
pub mod auth;
pub mod codec;
pub mod command;
pub mod connection;
pub mod error;
pub mod handshake;
pub mod reply;
pub mod request;
pub mod response;
pub mod udp;

pub use address::Address;
pub use auth::NoAuth;
pub use auth::Password;
pub use codec::DecodeError;
pub use codec::ParseOutcome;
pub use command::Command;
pub use connection::IncomingConnection;
pub use error::Error;
pub use error::ProtocolError;
pub use reply::Reply;
pub use request::Request;
pub use response::Response;
pub use udp::UdpHeader;

verus! {

/// The protocol version byte carried by every TCP frame.
pub const SOCKS_VERSION: u8 = 0x05;

} // verus!
