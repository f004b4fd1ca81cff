//! The SOCKS5 request frame: version, command, reserved byte, address.

use crate::address::{lemma_address_roundtrip, parse_address, Address, AddressSpec};
use crate::codec::{DecodeError, ParseOutcome};
use crate::command::{command_from_u8, lemma_command_byte_roundtrip, Command};
use crate::error::{ProtocolError, ProtocolErrorSpec};
use vstd::prelude::*;
use vstd::slice::slice_subrange;

verus! {

/// SOCKS5 request sent by the client after authentication.
pub struct Request {
    pub command: Command,
    pub address: Address,
}

/// Mathematical model of a [`Request`] value.
#[verifier::ext_equal]
pub struct RequestSpec {
    pub command: Command,
    pub address: AddressSpec,
}

impl View for Request {
    type V = RequestSpec;

    open spec fn view(&self) -> RequestSpec {
        RequestSpec { command: self.command, address: self.address@ }
    }
}

/// The exact bytes of a request: version, command byte, reserved zero byte,
/// then the address.
pub open spec fn wire_request(r: RequestSpec) -> Seq<u8> {
    seq![0x05u8, r.command.spec_to_u8(), 0x00u8] + r.address.wire()
}

/// Parses a request out of a byte-sequence prefix. The version byte is
/// checked first; the reserved byte is read and discarded, never validated.
pub open spec fn parse_request(s: Seq<u8>) -> ParseOutcome<RequestSpec, ProtocolErrorSpec> {
    if s.len() < 1 {
        ParseOutcome::Incomplete { needed: 1 }
    } else if s[0] != 0x05 {
        ParseOutcome::Bad { err: ProtocolErrorSpec::ProtocolVersion { version: s[0] } }
    } else if s.len() < 2 {
        ParseOutcome::Incomplete { needed: 1 }
    } else {
        match command_from_u8(s[1]) {
            None => ParseOutcome::Bad {
                err: ProtocolErrorSpec::InvalidCommand { version: s[0], command: s[1] },
            },
            Some(cmd) => {
                if s.len() < 3 {
                    ParseOutcome::Incomplete { needed: 1 }
                } else {
                    match parse_address(s.skip(3)) {
                        ParseOutcome::Incomplete { needed } => ParseOutcome::Incomplete { needed },
                        ParseOutcome::Bad { err } => ParseOutcome::Bad {
                            err: ProtocolErrorSpec::InvalidAddressTypeInRequest {
                                version: s[0],
                                command: cmd,
                                address_type: err,
                            },
                        },
                        ParseOutcome::Done { frame, used } => ParseOutcome::Done {
                            frame: RequestSpec { command: cmd, address: frame },
                            used: 3 + used,
                        },
                    }
                }
            }
        }
    }
}

impl Request {
    /// A request for `command` aimed at `address`.
    pub fn new(command: Command, address: Address) -> (r: Request)
        ensures
            r.command == command,
            r.address@ == address@,
    {
        Request { command, address }
    }

    /// Structural invariant, inherited from the address.
    pub open spec fn wf(&self) -> bool {
        self.address.wf()
    }

    /// The exact number of bytes [`Request::write_to_buf`] appends.
    pub fn serialized_len(&self) -> (r: usize)
        requires
            self.wf(),
        ensures
            r == wire_request(self@).len(),
    {
        3 + self.address.serialized_len()
    }

    /// Appends the wire encoding of the frame to `buf`.
    pub fn write_to_buf(&self, buf: &mut Vec<u8>)
        requires
            self.wf(),
        ensures
            final(buf)@ == old(buf)@ + wire_request(self@),
    {
        buf.push(0x05);
        buf.push(self.command.to_u8());
        buf.push(0x00);
        self.address.write_to_buf(buf);
        assert(buf@ =~= old(buf)@ + wire_request(self@));
    }

    /// The wire encoding of the frame as a fresh buffer.
    pub fn encode(&self) -> (r: Vec<u8>)
        requires
            self.wf(),
        ensures
            r@ == wire_request(self@),
    {
        let mut buf: Vec<u8> = Vec::new();
        self.write_to_buf(&mut buf);
        buf
    }

    /// Decodes a request from the front of `buf`, mirroring
    /// [`parse_request`] exactly.
    pub fn decode(buf: &[u8]) -> (r: Result<(Request, usize), DecodeError<ProtocolError>>)
        ensures
            (match parse_request(buf@) {
                ParseOutcome::Done { frame, used } => r matches Ok(p) && p.0@ == frame && p.1
                    == used,
                ParseOutcome::Incomplete { needed } => r matches Err(DecodeError::Incomplete {
                    needed: n,
                }) && n == needed,
                ParseOutcome::Bad { err } => r matches Err(DecodeError::Invalid { err: e }) && e@
                    == err,
            }),
            r matches Ok(p) ==> p.0.wf() && p.1 <= buf@.len(),
    {
        if buf.len() < 1 {
            return Err(DecodeError::Incomplete { needed: 1 });
        }
        if buf[0] != 0x05 {
            return Err(DecodeError::Invalid {
                err: ProtocolError::ProtocolVersion { version: buf[0] },
            });
        }
        if buf.len() < 2 {
            return Err(DecodeError::Incomplete { needed: 1 });
        }
        let command = match Command::try_from(buf[1]) {
            Ok(c) => c,
            Err(code) => {
                return Err(DecodeError::Invalid {
                    err: ProtocolError::InvalidCommand { version: buf[0], command: code },
                });
            }
        };
        if buf.len() < 3 {
            return Err(DecodeError::Incomplete { needed: 1 });
        }
        let tail = slice_subrange(buf, 3, buf.len());
        proof {
            assert(tail@ =~= buf@.skip(3));
        }
        match Address::decode(tail) {
            Ok((address, used)) => Ok((Request { command, address }, 3 + used)),
            Err(DecodeError::Incomplete { needed }) => Err(DecodeError::Incomplete { needed }),
            Err(DecodeError::Invalid { err }) => Err(DecodeError::Invalid {
                err: ProtocolError::InvalidAddressTypeInRequest {
                    version: 0x05,
                    command,
                    address_type: err,
                },
            }),
        }
    }
}

/// Law: every well-formed request decodes back from its own encoding,
/// whatever bytes follow it.
pub proof fn lemma_request_roundtrip(r: RequestSpec, rest: Seq<u8>)
    requires
        r.address.wf(),
    ensures
        parse_request(wire_request(r) + rest) == (ParseOutcome::Done::<
            RequestSpec,
            ProtocolErrorSpec,
        > { frame: r, used: wire_request(r).len() as int }),
{
    let s = wire_request(r) + rest;
    assert(s[0] == 0x05);
    assert(s[1] == r.command.spec_to_u8());
    lemma_command_byte_roundtrip(r.command);
    assert(s.skip(3) =~= r.address.wire() + rest);
    lemma_address_roundtrip(r.address, rest);
}

/// Law: whatever the request decoder recognises is well formed and, if the
/// reserved byte was zero as conforming clients send it, encodes back to
/// exactly the bytes it consumed. The reserved byte is the one byte
/// decoding deliberately forgets.
pub proof fn lemma_request_parse_sound(s: Seq<u8>)
    ensures
        parse_request(s) matches ParseOutcome::Done { frame, used } ==> frame.address.wf() && 0
            <= used <= s.len() && (s[2] == 0 ==> wire_request(frame) == s.subrange(0, used)),
{
    if s.len() >= 3 && s[0] == 0x05 {
        match command_from_u8(s[1]) {
            Some(cmd) => {
                crate::address::lemma_address_parse_sound(s.skip(3));
                match parse_address(s.skip(3)) {
                    ParseOutcome::Done { frame: a, used: u } => {
                        assert(s[1] == cmd.spec_to_u8());
                        assert(a.wire() =~= s.skip(3).subrange(0, u));
                        if s[2] == 0 {
                            let frame = RequestSpec { command: cmd, address: a };
                            assert(wire_request(frame) =~= s.subrange(0, 3 + u));
                        }
                    }
                    _ => {}
                }
            }
            None => {}
        }
    }
}

/// Law: a request whose first byte is not the protocol version is rejected
/// after that byte alone.
pub proof fn lemma_version_rejected_request(s: Seq<u8>)
    requires
        s.len() >= 1,
        s[0] != 0x05,
    ensures
        parse_request(s) == (ParseOutcome::Bad::<RequestSpec, ProtocolErrorSpec> {
            err: ProtocolErrorSpec::ProtocolVersion { version: s[0] },
        }),
{
}

} // verus!
