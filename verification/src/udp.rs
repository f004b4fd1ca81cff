//! The SOCKS5 UDP relay header: two reserved bytes, a fragment number that
//! this core surfaces verbatim, and the destination address.

use crate::address::{lemma_address_roundtrip, parse_address, Address, AddressSpec};
use crate::codec::{push_bytes, DecodeError, ParseOutcome};
use crate::error::{ProtocolError, ProtocolErrorSpec};
use vstd::prelude::*;
use vstd::slice::slice_subrange;

verus! {

/// Header prepended to every datagram relayed over a UDP association.
pub struct UdpHeader {
    pub frag: u8,
    pub address: Address,
}

/// Mathematical model of a [`UdpHeader`] value.
#[verifier::ext_equal]
pub struct UdpHeaderSpec {
    pub frag: u8,
    pub address: AddressSpec,
}

impl View for UdpHeader {
    type V = UdpHeaderSpec;

    open spec fn view(&self) -> UdpHeaderSpec {
        UdpHeaderSpec { frag: self.frag, address: self.address@ }
    }
}

/// The exact bytes of a UDP header: two reserved zero bytes, the fragment
/// number, then the address.
pub open spec fn wire_udp_header(h: UdpHeaderSpec) -> Seq<u8> {
    seq![0x00u8, 0x00u8, h.frag] + h.address.wire()
}

/// Parses a UDP header out of a byte-sequence prefix. The two reserved
/// bytes are read and discarded, never validated.
pub open spec fn parse_udp_header(s: Seq<u8>) -> ParseOutcome<UdpHeaderSpec, ProtocolErrorSpec> {
    if s.len() < 2 {
        ParseOutcome::Incomplete { needed: 2 - s.len() }
    } else if s.len() < 3 {
        ParseOutcome::Incomplete { needed: 1 }
    } else {
        match parse_address(s.skip(3)) {
            ParseOutcome::Incomplete { needed } => ParseOutcome::Incomplete { needed },
            ParseOutcome::Bad { err } => ParseOutcome::Bad {
                err: ProtocolErrorSpec::InvalidAddressTypeInUdpHeader {
                    frag: s[2],
                    address_type: err,
                },
            },
            ParseOutcome::Done { frame, used } => ParseOutcome::Done {
                frame: UdpHeaderSpec { frag: s[2], address: frame },
                used: 3 + used,
            },
        }
    }
}

impl UdpHeader {
    /// A header carrying `frag` and aimed at `address`.
    pub fn new(frag: u8, address: Address) -> (r: UdpHeader)
        ensures
            r.frag == frag,
            r.address@ == address@,
    {
        UdpHeader { frag, address }
    }

    /// Structural invariant, inherited from the address.
    pub open spec fn wf(&self) -> bool {
        self.address.wf()
    }

    /// The exact number of bytes [`UdpHeader::write_to_buf`] appends.
    pub fn serialized_len(&self) -> (r: usize)
        requires
            self.wf(),
        ensures
            r == wire_udp_header(self@).len(),
    {
        3 + self.address.serialized_len()
    }

    /// Appends the wire encoding of the header to `buf`.
    pub fn write_to_buf(&self, buf: &mut Vec<u8>)
        requires
            self.wf(),
        ensures
            final(buf)@ == old(buf)@ + wire_udp_header(self@),
    {
        buf.push(0x00);
        buf.push(0x00);
        buf.push(self.frag);
        self.address.write_to_buf(buf);
        assert(buf@ =~= old(buf)@ + wire_udp_header(self@));
    }

    /// The wire encoding of the header as a fresh buffer.
    pub fn encode(&self) -> (r: Vec<u8>)
        requires
            self.wf(),
        ensures
            r@ == wire_udp_header(self@),
    {
        let mut buf: Vec<u8> = Vec::new();
        self.write_to_buf(&mut buf);
        buf
    }

    /// Decodes a UDP header from the front of `buf`, mirroring
    /// [`parse_udp_header`] exactly. On success the rest of `buf`, from
    /// index `p.1` on, is the datagram payload.
    pub fn decode(buf: &[u8]) -> (r: Result<(UdpHeader, usize), DecodeError<ProtocolError>>)
        ensures
            (match parse_udp_header(buf@) {
                ParseOutcome::Done { frame, used } => r matches Ok(p) && p.0@ == frame && p.1
                    == used,
                ParseOutcome::Incomplete { needed } => r matches Err(DecodeError::Incomplete {
                    needed: n,
                }) && n == needed,
                ParseOutcome::Bad { err } => r matches Err(DecodeError::Invalid { err: e }) && e@
                    == err,
            }),
            r matches Ok(p) ==> p.0.wf() && p.1 <= buf@.len(),
    {
        if buf.len() < 2 {
            return Err(DecodeError::Incomplete { needed: 2 - buf.len() });
        }
        if buf.len() < 3 {
            return Err(DecodeError::Incomplete { needed: 1 });
        }
        let frag = buf[2];
        let tail = slice_subrange(buf, 3, buf.len());
        proof {
            assert(tail@ =~= buf@.skip(3));
        }
        match Address::decode(tail) {
            Ok((address, used)) => Ok((UdpHeader { frag, address }, 3 + used)),
            Err(DecodeError::Incomplete { needed }) => Err(DecodeError::Incomplete { needed }),
            Err(DecodeError::Invalid { err }) => Err(DecodeError::Invalid {
                err: ProtocolError::InvalidAddressTypeInUdpHeader { frag, address_type: err },
            }),
        }
    }

    /// A complete relay datagram: this header followed by `payload`.
    pub fn build_datagram(&self, payload: &[u8]) -> (r: Vec<u8>)
        requires
            self.wf(),
        ensures
            r@ == wire_udp_header(self@) + payload@,
    {
        let mut buf: Vec<u8> = Vec::new();
        self.write_to_buf(&mut buf);
        push_bytes(&mut buf, payload);
        buf
    }
}

/// Law: every well-formed UDP header decodes back from its own encoding;
/// the bytes that follow it are exactly the payload it was built with.
pub proof fn lemma_udp_header_roundtrip(h: UdpHeaderSpec, rest: Seq<u8>)
    requires
        h.address.wf(),
    ensures
        parse_udp_header(wire_udp_header(h) + rest) == (ParseOutcome::Done::<
            UdpHeaderSpec,
            ProtocolErrorSpec,
        > { frame: h, used: wire_udp_header(h).len() as int }),
{
    let s = wire_udp_header(h) + rest;
    assert(s[2] == h.frag);
    assert(s.skip(3) =~= h.address.wire() + rest);
    lemma_address_roundtrip(h.address, rest);
}

/// Law: whatever the UDP-header decoder recognises is well formed and, if
/// the two reserved bytes were zero as conforming peers send them, encodes
/// back to exactly the bytes it consumed.
pub proof fn lemma_udp_header_parse_sound(s: Seq<u8>)
    ensures
        parse_udp_header(s) matches ParseOutcome::Done { frame, used } ==> frame.address.wf() && 0
            <= used <= s.len() && (s[0] == 0 && s[1] == 0 ==> wire_udp_header(frame) == s.subrange(
            0,
            used,
        )),
{
    if s.len() >= 3 {
        crate::address::lemma_address_parse_sound(s.skip(3));
        match parse_address(s.skip(3)) {
            ParseOutcome::Done { frame: a, used: u } => {
                assert(a.wire() =~= s.skip(3).subrange(0, u));
                if s[0] == 0 && s[1] == 0 {
                    let frame = UdpHeaderSpec { frag: s[2], address: a };
                    assert(wire_udp_header(frame) =~= s.subrange(0, 3 + u));
                }
            }
            _ => {}
        }
    }
}

} // verus!
