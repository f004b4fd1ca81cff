//! The SOCKS5 response frame: version, reply, reserved byte, address.

use crate::address::{lemma_address_roundtrip, parse_address, Address, AddressSpec};
use crate::codec::{DecodeError, ParseOutcome};
use crate::error::{ProtocolError, ProtocolErrorSpec};
use crate::reply::{lemma_reply_byte_roundtrip, reply_from_u8, Reply};
use vstd::prelude::*;
use vstd::slice::slice_subrange;

verus! {

/// SOCKS5 response sent by the server to answer a request.
pub struct Response {
    pub reply: Reply,
    pub address: Address,
}

/// Mathematical model of a [`Response`] value.
#[verifier::ext_equal]
pub struct ResponseSpec {
    pub reply: Reply,
    pub address: AddressSpec,
}

impl View for Response {
    type V = ResponseSpec;

    open spec fn view(&self) -> ResponseSpec {
        ResponseSpec { reply: self.reply, address: self.address@ }
    }
}

/// The exact bytes of a response: version, reply byte, reserved zero byte,
/// then the address.
pub open spec fn wire_response(r: ResponseSpec) -> Seq<u8> {
    seq![0x05u8, r.reply.spec_to_u8(), 0x00u8] + r.address.wire()
}

/// Parses a response out of a byte-sequence prefix. The version byte is
/// checked first; the reserved byte is read and discarded, never validated.
pub open spec fn parse_response(s: Seq<u8>) -> ParseOutcome<ResponseSpec, ProtocolErrorSpec> {
    if s.len() < 1 {
        ParseOutcome::Incomplete { needed: 1 }
    } else if s[0] != 0x05 {
        ParseOutcome::Bad { err: ProtocolErrorSpec::ProtocolVersion { version: s[0] } }
    } else if s.len() < 2 {
        ParseOutcome::Incomplete { needed: 1 }
    } else {
        match reply_from_u8(s[1]) {
            None => ParseOutcome::Bad {
                err: ProtocolErrorSpec::InvalidReply { version: s[0], reply: s[1] },
            },
            Some(rep) => {
                if s.len() < 3 {
                    ParseOutcome::Incomplete { needed: 1 }
                } else {
                    match parse_address(s.skip(3)) {
                        ParseOutcome::Incomplete { needed } => ParseOutcome::Incomplete { needed },
                        ParseOutcome::Bad { err } => ParseOutcome::Bad {
                            err: ProtocolErrorSpec::InvalidAddressTypeInResponse {
                                version: s[0],
                                reply: rep,
                                address_type: err,
                            },
                        },
                        ParseOutcome::Done { frame, used } => ParseOutcome::Done {
                            frame: ResponseSpec { reply: rep, address: frame },
                            used: 3 + used,
                        },
                    }
                }
            }
        }
    }
}

impl Response {
    /// A response answering with `reply` and the bound `address`.
    pub fn new(reply: Reply, address: Address) -> (r: Response)
        ensures
            r.reply == reply,
            r.address@ == address@,
    {
        Response { reply, address }
    }

    /// Structural invariant, inherited from the address.
    pub open spec fn wf(&self) -> bool {
        self.address.wf()
    }

    /// The exact number of bytes [`Response::write_to_buf`] appends.
    pub fn serialized_len(&self) -> (r: usize)
        requires
            self.wf(),
        ensures
            r == wire_response(self@).len(),
    {
        3 + self.address.serialized_len()
    }

    /// Appends the wire encoding of the frame to `buf`.
    pub fn write_to_buf(&self, buf: &mut Vec<u8>)
        requires
            self.wf(),
        ensures
            final(buf)@ == old(buf)@ + wire_response(self@),
    {
        buf.push(0x05);
        buf.push(self.reply.to_u8());
        buf.push(0x00);
        self.address.write_to_buf(buf);
        assert(buf@ =~= old(buf)@ + wire_response(self@));
    }

    /// The wire encoding of the frame as a fresh buffer.
    pub fn encode(&self) -> (r: Vec<u8>)
        requires
            self.wf(),
        ensures
            r@ == wire_response(self@),
    {
        let mut buf: Vec<u8> = Vec::new();
        self.write_to_buf(&mut buf);
        buf
    }

    /// Decodes a response from the front of `buf`, mirroring
    /// [`parse_response`] exactly.
    pub fn decode(buf: &[u8]) -> (r: Result<(Response, usize), DecodeError<ProtocolError>>)
        ensures
            (match parse_response(buf@) {
                ParseOutcome::Done { frame, used } => r matches Ok(p) && p.0@ == frame && p.1
                    == used,
                ParseOutcome::Incomplete { needed } => r matches Err(DecodeError::Incomplete {
                    needed: n,
                }) && n == needed,
                ParseOutcome::Bad { err } => r matches Err(DecodeError::Invalid { err: e }) && e@
                    == err,
            }),
            r matches Ok(p) ==> p.0.wf() && p.1 <= buf@.len(),
    {
        if buf.len() < 1 {
            return Err(DecodeError::Incomplete { needed: 1 });
        }
        if buf[0] != 0x05 {
            return Err(DecodeError::Invalid {
                err: ProtocolError::ProtocolVersion { version: buf[0] },
            });
        }
        if buf.len() < 2 {
            return Err(DecodeError::Incomplete { needed: 1 });
        }
        let reply = match Reply::try_from(buf[1]) {
            Ok(rep) => rep,
            Err(code) => {
                return Err(DecodeError::Invalid {
                    err: ProtocolError::InvalidReply { version: buf[0], reply: code },
                });
            }
        };
        if buf.len() < 3 {
            return Err(DecodeError::Incomplete { needed: 1 });
        }
        let tail = slice_subrange(buf, 3, buf.len());
        proof {
            assert(tail@ =~= buf@.skip(3));
        }
        match Address::decode(tail) {
            Ok((address, used)) => Ok((Response { reply, address }, 3 + used)),
            Err(DecodeError::Incomplete { needed }) => Err(DecodeError::Incomplete { needed }),
            Err(DecodeError::Invalid { err }) => Err(DecodeError::Invalid {
                err: ProtocolError::InvalidAddressTypeInResponse {
                    version: 0x05,
                    reply,
                    address_type: err,
                },
            }),
        }
    }
}

/// Law: every well-formed response decodes back from its own encoding,
/// whatever bytes follow it.
pub proof fn lemma_response_roundtrip(r: ResponseSpec, rest: Seq<u8>)
    requires
        r.address.wf(),
    ensures
        parse_response(wire_response(r) + rest) == (ParseOutcome::Done::<
            ResponseSpec,
            ProtocolErrorSpec,
        > { frame: r, used: wire_response(r).len() as int }),
{
    let s = wire_response(r) + rest;
    assert(s[0] == 0x05);
    assert(s[1] == r.reply.spec_to_u8());
    lemma_reply_byte_roundtrip(r.reply);
    assert(s.skip(3) =~= r.address.wire() + rest);
    lemma_address_roundtrip(r.address, rest);
}

/// Law: whatever the response decoder recognises is well formed and, if
/// the reserved byte was zero as conforming servers send it, encodes back
/// to exactly the bytes it consumed. The reserved byte is the one byte
/// decoding deliberately forgets.
pub proof fn lemma_response_parse_sound(s: Seq<u8>)
    ensures
        parse_response(s) matches ParseOutcome::Done { frame, used } ==> frame.address.wf() && 0
            <= used <= s.len() && (s[2] == 0 ==> wire_response(frame) == s.subrange(0, used)),
{
    if s.len() >= 3 && s[0] == 0x05 {
        match reply_from_u8(s[1]) {
            Some(rep) => {
                crate::address::lemma_address_parse_sound(s.skip(3));
                match parse_address(s.skip(3)) {
                    ParseOutcome::Done { frame: a, used: u } => {
                        assert(s[1] == rep.spec_to_u8());
                        assert(a.wire() =~= s.skip(3).subrange(0, u));
                        if s[2] == 0 {
                            let frame = ResponseSpec { reply: rep, address: a };
                            assert(wire_response(frame) =~= s.subrange(0, 3 + u));
                        }
                    }
                    _ => {}
                }
            }
            None => {}
        }
    }
}

/// Law: a response whose first byte is not the protocol version is rejected
/// after that byte alone.
pub proof fn lemma_version_rejected_response(s: Seq<u8>)
    requires
        s.len() >= 1,
        s[0] != 0x05,
    ensures
        parse_response(s) == (ParseOutcome::Bad::<ResponseSpec, ProtocolErrorSpec> {
            err: ProtocolErrorSpec::ProtocolVersion { version: s[0] },
        }),
{
}

} // verus!
