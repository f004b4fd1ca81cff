//! Error taxonomy of the protocol core. Structural faults are `Protocol`
//! errors whose variants carry every field parsed before the offense;
//! transport faults are carried through as `Io`.

use crate::command::Command;
use crate::handshake::method::Method;
use crate::reply::Reply;
use vstd::prelude::*;

verus! {

/// Declares the standard I/O error type so that library values may carry
/// one. Relies on `std::io::Error` only as an opaque value.
#[verifier::external_type_specification]
#[verifier::external_body]
pub struct ExIoError(std::io::Error);

/// Mathematical model of a [`ProtocolError`] value.
#[verifier::ext_equal]
pub enum ProtocolErrorSpec {
    ProtocolVersion { version: u8 },
    NoAcceptableHandshakeMethod { version: u8, chosen_method: Method, offered_methods: Seq<Method> },
    InvalidCommand { version: u8, command: u8 },
    InvalidReply { version: u8, reply: u8 },
    InvalidAddressTypeInRequest { version: u8, command: Command, address_type: u8 },
    InvalidAddressTypeInResponse { version: u8, reply: Reply, address_type: u8 },
    InvalidAddressTypeInUdpHeader { frag: u8, address_type: u8 },
}

/// A structural fault in a protocol header. Each variant carries the data
/// already parsed successfully, so a log line can reconstruct the exchange.
#[derive(Debug)]
pub enum ProtocolError {
    ProtocolVersion { version: u8 },
    NoAcceptableHandshakeMethod { version: u8, chosen_method: Method, offered_methods: Vec<Method> },
    InvalidCommand { version: u8, command: u8 },
    InvalidReply { version: u8, reply: u8 },
    InvalidAddressTypeInRequest { version: u8, command: Command, address_type: u8 },
    InvalidAddressTypeInResponse { version: u8, reply: Reply, address_type: u8 },
    InvalidAddressTypeInUdpHeader { frag: u8, address_type: u8 },
}

impl View for ProtocolError {
    type V = ProtocolErrorSpec;

    open spec fn view(&self) -> ProtocolErrorSpec {
        match *self {
            ProtocolError::ProtocolVersion { version } => ProtocolErrorSpec::ProtocolVersion {
                version,
            },
            ProtocolError::NoAcceptableHandshakeMethod {
                version,
                chosen_method,
                ref offered_methods,
            } => ProtocolErrorSpec::NoAcceptableHandshakeMethod {
                version,
                chosen_method,
                offered_methods: offered_methods@,
            },
            ProtocolError::InvalidCommand { version, command } => ProtocolErrorSpec::InvalidCommand {
                version,
                command,
            },
            ProtocolError::InvalidReply { version, reply } => ProtocolErrorSpec::InvalidReply {
                version,
                reply,
            },
            ProtocolError::InvalidAddressTypeInRequest { version, command, address_type } => ProtocolErrorSpec::InvalidAddressTypeInRequest {
                version,
                command,
                address_type,
            },
            ProtocolError::InvalidAddressTypeInResponse { version, reply, address_type } => ProtocolErrorSpec::InvalidAddressTypeInResponse {
                version,
                reply,
                address_type,
            },
            ProtocolError::InvalidAddressTypeInUdpHeader { frag, address_type } => ProtocolErrorSpec::InvalidAddressTypeInUdpHeader {
                frag,
                address_type,
            },
        }
    }
}

/// Converging error type: a structural fault or a transport fault.
#[derive(Debug)]
pub enum Error {
    Protocol(ProtocolError),
    Io(std::io::Error),
}

impl ProtocolError {
    /// Lossy conversion into a generic I/O error, for callers that plumb a
    /// single error type through their stack. Relies on
    /// `std::io::Error::new` to wrap the debug form of the fault.
    #[verifier::external_body]
    pub fn into_io_error(self) -> std::io::Error {
        std::io::Error::new(std::io::ErrorKind::Other, format!("{:?}", self))
    }
}

impl Error {
    /// Lossy conversion into a generic I/O error: a transport fault is
    /// handed back as it is. Relies on `std::io::Error::new` to wrap the
    /// debug form of a structural fault.
    #[verifier::external_body]
    pub fn into_io_error(self) -> std::io::Error {
        match self {
            Error::Io(e) => e,
            Error::Protocol(p) => std::io::Error::new(
                std::io::ErrorKind::Other,
                format!("{:?}", p),
            ),
        }
    }
}

} // verus!
