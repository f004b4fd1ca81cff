//! The SOCKS5 address: one of the three wire variants (IPv4, IPv6, domain
//! label), its exact byte encoding, and a decoder driven by byte-count hints.

use crate::codec::{
    be16, hi8, lo8, lemma_be16_join, lemma_be16_split, push_be16, push_bytes, read_be16,
    DecodeError, ParseOutcome,
};
use vstd::prelude::*;
use vstd::slice::{slice_subrange, slice_to_vec};

verus! {

/// Largest possible encoding: type byte, length byte, 255 label bytes, port.
pub const MAX_SERIALIZED_LEN: usize = 259;

/// Mathematical model of an [`Address`] value.
#[verifier::ext_equal]
pub enum AddressSpec {
    V4 { ip: Seq<u8>, port: u16 },
    V6 { segs: Seq<u16>, port: u16 },
    Domain { name: Seq<u8>, port: u16 },
}

impl AddressSpec {
    /// Structural invariant: fixed field widths, and a label that fits its
    /// one-byte length prefix.
    pub open spec fn wf(self) -> bool {
        match self {
            AddressSpec::V4 { ip, .. } => ip.len() == 4,
            AddressSpec::V6 { segs, .. } => segs.len() == 8,
            AddressSpec::Domain { name, .. } => name.len() <= 255,
        }
    }

    /// The exact bytes of the address on the wire: a type byte (0x01, 0x04
    /// or 0x03), the body, and the port most-significant byte first.
    pub open spec fn wire(self) -> Seq<u8> {
        match self {
            AddressSpec::V4 { ip, port } => seq![0x01u8] + ip + seq![hi8(port), lo8(port)],
            AddressSpec::V6 { segs, port } => seq![
                0x04u8,
                hi8(segs[0]),
                lo8(segs[0]),
                hi8(segs[1]),
                lo8(segs[1]),
                hi8(segs[2]),
                lo8(segs[2]),
                hi8(segs[3]),
                lo8(segs[3]),
                hi8(segs[4]),
                lo8(segs[4]),
                hi8(segs[5]),
                lo8(segs[5]),
                hi8(segs[6]),
                lo8(segs[6]),
                hi8(segs[7]),
                lo8(segs[7]),
                hi8(port),
                lo8(port),
            ],
            AddressSpec::Domain { name, port } => seq![0x03u8, name.len() as u8] + name + seq![
                hi8(port),
                lo8(port),
            ],
        }
    }
}

/// What any decoder sees in a byte-sequence prefix that should start with an
/// address: a complete address and the bytes it used, a request for more
/// bytes, or an unknown type byte.
pub open spec fn parse_address(s: Seq<u8>) -> ParseOutcome<AddressSpec, u8> {
    if s.len() < 1 {
        ParseOutcome::Incomplete { needed: 1 }
    } else if s[0] == 0x01 {
        if s.len() < 7 {
            ParseOutcome::Incomplete { needed: 7 - s.len() }
        } else {
            ParseOutcome::Done {
                frame: AddressSpec::V4 { ip: s.subrange(1, 5), port: be16(s[5], s[6]) },
                used: 7,
            }
        }
    } else if s[0] == 0x04 {
        if s.len() < 19 {
            ParseOutcome::Incomplete { needed: 19 - s.len() }
        } else {
            ParseOutcome::Done {
                frame: AddressSpec::V6 {
                    segs: seq![
                        be16(s[1], s[2]),
                        be16(s[3], s[4]),
                        be16(s[5], s[6]),
                        be16(s[7], s[8]),
                        be16(s[9], s[10]),
                        be16(s[11], s[12]),
                        be16(s[13], s[14]),
                        be16(s[15], s[16]),
                    ],
                    port: be16(s[17], s[18]),
                },
                used: 19,
            }
        }
    } else if s[0] == 0x03 {
        if s.len() < 2 {
            ParseOutcome::Incomplete { needed: 1 }
        } else {
            let l = s[1] as int;
            if s.len() < 4 + l {
                ParseOutcome::Incomplete { needed: 4 + l - s.len() }
            } else {
                ParseOutcome::Done {
                    frame: AddressSpec::Domain {
                        name: s.subrange(2, 2 + l),
                        port: be16(s[2 + l], s[3 + l]),
                    },
                    used: 4 + l,
                }
            }
        }
    } else {
        ParseOutcome::Bad { err: s[0] }
    }
}

/// SOCKS5 address. The domain label is opaque bytes, not text: sequences
/// that are not UTF-8 are preserved exactly.
pub enum Address {
    V4 { ip: [u8; 4], port: u16 },
    V6 { segs: [u16; 8], port: u16 },
    Domain { name: Vec<u8>, port: u16 },
}

impl View for Address {
    type V = AddressSpec;

    open spec fn view(&self) -> AddressSpec {
        match *self {
            Address::V4 { ip, port } => AddressSpec::V4 { ip: ip@, port },
            Address::V6 { segs, port } => AddressSpec::V6 { segs: segs@, port },
            Address::Domain { ref name, port } => AddressSpec::Domain { name: name@, port },
        }
    }
}

impl Address {
    /// Structural invariant; only the domain variant can break it, by
    /// holding a label longer than 255 bytes.
    pub open spec fn wf(&self) -> bool {
        self@.wf()
    }

    /// The all-zero IPv4 address with port 0, used as the placeholder bound
    /// address in replies.
    pub fn unspecified() -> (r: Address)
        ensures
            r@ == (AddressSpec::V4 { ip: seq![0u8, 0u8, 0u8, 0u8], port: 0u16 }),
            r.wf(),
    {
        let r = Address::V4 { ip: [0, 0, 0, 0], port: 0 };
        proof {
            assert(r@->V4_ip =~= seq![0u8, 0u8, 0u8, 0u8]);
        }
        r
    }

    /// The exact number of bytes [`Address::write_to_buf`] appends.
    pub fn serialized_len(&self) -> (r: usize)
        requires
            self.wf(),
        ensures
            r == self@.wire().len(),
    {
        let body: usize = match self {
            Address::V4 { .. } => 6,
            Address::V6 { .. } => 18,
            Address::Domain { name, .. } => 1 + name.len() + 2,
        };
        1 + body
    }

    /// Appends the wire encoding of the address to `buf`.
    pub fn write_to_buf(&self, buf: &mut Vec<u8>)
        requires
            self.wf(),
        ensures
            final(buf)@ == old(buf)@ + self@.wire(),
    {
        match self {
            Address::V4 { ip, port } => {
                buf.push(0x01);
                buf.push(ip[0]);
                buf.push(ip[1]);
                buf.push(ip[2]);
                buf.push(ip[3]);
                push_be16(buf, *port);
                assert(buf@ =~= old(buf)@ + self@.wire());
            }
            Address::V6 { segs, port } => {
                buf.push(0x04);
                push_be16(buf, segs[0]);
                push_be16(buf, segs[1]);
                push_be16(buf, segs[2]);
                push_be16(buf, segs[3]);
                push_be16(buf, segs[4]);
                push_be16(buf, segs[5]);
                push_be16(buf, segs[6]);
                push_be16(buf, segs[7]);
                push_be16(buf, *port);
                assert(buf@ =~= old(buf)@ + self@.wire());
            }
            Address::Domain { name, port } => {
                buf.push(0x03);
                buf.push(name.len() as u8);
                push_bytes(buf, name.as_slice());
                push_be16(buf, *port);
                assert(buf@ =~= old(buf)@ + self@.wire());
            }
        }
    }

    /// The wire encoding of the address as a fresh buffer.
    pub fn encode(&self) -> (r: Vec<u8>)
        requires
            self.wf(),
        ensures
            r@ == self@.wire(),
    {
        let mut buf: Vec<u8> = Vec::new();
        self.write_to_buf(&mut buf);
        buf
    }

    /// Decodes an address from the front of `buf`, mirroring
    /// [`parse_address`] exactly. An `Incomplete` error names how many more
    /// bytes must be appended before decoding can settle.
    pub fn decode(buf: &[u8]) -> (r: Result<(Address, usize), DecodeError<u8>>)
        ensures
            (match parse_address(buf@) {
                ParseOutcome::Done { frame, used } => r matches Ok(p) && p.0@ == frame && p.1
                    == used,
                ParseOutcome::Incomplete { needed } => r matches Err(DecodeError::Incomplete {
                    needed: n,
                }) && n == needed,
                ParseOutcome::Bad { err } => r matches Err(DecodeError::Invalid { err: e }) && e
                    == err,
            }),
            r matches Ok(p) ==> p.0.wf() && p.1 <= buf@.len(),
    {
        if buf.len() < 1 {
            return Err(DecodeError::Incomplete { needed: 1 });
        }
        let atyp = buf[0];
        if atyp == 0x01 {
            if buf.len() < 7 {
                return Err(DecodeError::Incomplete { needed: 7 - buf.len() });
            }
            let ip: [u8; 4] = [buf[1], buf[2], buf[3], buf[4]];
            let port = read_be16(buf[5], buf[6]);
            proof {
                assert(ip@ =~= buf@.subrange(1, 5));
            }
            Ok((Address::V4 { ip, port }, 7))
        } else if atyp == 0x04 {
            if buf.len() < 19 {
                return Err(DecodeError::Incomplete { needed: 19 - buf.len() });
            }
            let segs: [u16; 8] = [
                read_be16(buf[1], buf[2]),
                read_be16(buf[3], buf[4]),
                read_be16(buf[5], buf[6]),
                read_be16(buf[7], buf[8]),
                read_be16(buf[9], buf[10]),
                read_be16(buf[11], buf[12]),
                read_be16(buf[13], buf[14]),
                read_be16(buf[15], buf[16]),
            ];
            let port = read_be16(buf[17], buf[18]);
            proof {
                assert(segs@ =~= parse_address(buf@)->Done_frame->V6_segs);
            }
            Ok((Address::V6 { segs, port }, 19))
        } else if atyp == 0x03 {
            if buf.len() < 2 {
                return Err(DecodeError::Incomplete { needed: 1 });
            }
            let l = buf[1] as usize;
            if buf.len() < 4 + l {
                return Err(DecodeError::Incomplete { needed: 4 + l - buf.len() });
            }
            let name = slice_to_vec(slice_subrange(buf, 2, 2 + l));
            let port = read_be16(buf[2 + l], buf[3 + l]);
            Ok((Address::Domain { name, port }, 4 + l))
        } else {
            Err(DecodeError::Invalid { err: atyp })
        }
    }
}

/// The decimal digits of `n`, most significant first, as ASCII bytes.
pub open spec fn dec_digits(n: int) -> Seq<u8>
    decreases n,
    when n >= 0
    via dec_digits_decreases
{
    if n < 10 {
        seq![(0x30 + n) as u8]
    } else {
        dec_digits(n / 10) + seq![(0x30 + n % 10) as u8]
    }
}

#[via_fn]
proof fn dec_digits_decreases(n: int) {
    if n >= 10 {
        vstd::arithmetic::div_mod::lemma_div_decreases(n, 10);
    }
}

/// One lowercase hexadecimal digit as an ASCII byte.
pub open spec fn hex_digit(d: int) -> u8 {
    if d < 10 {
        (0x30 + d) as u8
    } else {
        (0x57 + d) as u8
    }
}

/// The lowercase hexadecimal digits of `n`, most significant first, as
/// ASCII bytes.
pub open spec fn hex_digits(n: int) -> Seq<u8>
    decreases n,
    when n >= 0
    via hex_digits_decreases
{
    if n < 16 {
        seq![hex_digit(n)]
    } else {
        hex_digits(n / 16) + seq![hex_digit(n % 16)]
    }
}

#[via_fn]
proof fn hex_digits_decreases(n: int) {
    if n >= 16 {
        vstd::arithmetic::div_mod::lemma_div_decreases(n, 16);
    }
}

/// Appends the decimal digits of `n` to `out`.
fn push_dec_u16(out: &mut Vec<u8>, n: u16)
    ensures
        final(out)@ == old(out)@ + dec_digits(n as int),
    decreases n,
{
    if n < 10 {
        out.push(0x30 + (n as u8));
        assert(out@ =~= old(out)@ + dec_digits(n as int));
    } else {
        proof {
            vstd::arithmetic::div_mod::lemma_div_decreases(n as int, 10);
        }
        push_dec_u16(out, n / 10);
        out.push(0x30 + ((n % 10) as u8));
        assert(out@ =~= old(out)@ + dec_digits(n as int));
    }
}

/// Appends the lowercase hexadecimal digits of `n` to `out`.
fn push_hex_u16(out: &mut Vec<u8>, n: u16)
    ensures
        final(out)@ == old(out)@ + hex_digits(n as int),
    decreases n,
{
    if n < 16 {
        let d = n as u8;
        if d < 10 {
            out.push(0x30 + d);
        } else {
            out.push(0x57 + d);
        }
        assert(out@ =~= old(out)@ + hex_digits(n as int));
    } else {
        proof {
            vstd::arithmetic::div_mod::lemma_div_decreases(n as int, 16);
        }
        push_hex_u16(out, n / 16);
        let d = (n % 16) as u8;
        if d < 10 {
            out.push(0x30 + d);
        } else {
            out.push(0x57 + d);
        }
        assert(out@ =~= old(out)@ + hex_digits(n as int));
    }
}

/// The characters that stand for the byte sequence `bytes` when it is read
/// as UTF-8, with every invalid sequence replaced; a function of the bytes
/// alone.
pub uninterp spec fn utf8_lossy_of(bytes: Seq<u8>) -> Seq<char>;

/// Relies on `String::from_utf8_lossy`: the result depends on the bytes
/// alone; invalid UTF-8 sequences come out as replacement characters.
#[verifier::external_body]
fn utf8_lossy(bytes: &[u8]) -> (r: String)
    ensures
        r@ == utf8_lossy_of(bytes@),
{
    String::from_utf8_lossy(bytes).into_owned()
}

/// The bytes behind the human-readable form of an address: dotted decimal
/// for IPv4, bracketed full lowercase hexadecimal segments for IPv6, the
/// raw label for a domain; then a colon and the decimal port.
pub open spec fn display_bytes(a: AddressSpec) -> Seq<u8> {
    match a {
        AddressSpec::V4 { ip, port } => dec_digits(ip[0] as int) + seq![0x2eu8] + dec_digits(
            ip[1] as int,
        ) + seq![0x2eu8] + dec_digits(ip[2] as int) + seq![0x2eu8] + dec_digits(ip[3] as int)
            + seq![0x3au8] + dec_digits(port as int),
        AddressSpec::V6 { segs, port } => seq![0x5bu8] + hex_digits(segs[0] as int) + seq![0x3au8]
            + hex_digits(segs[1] as int) + seq![0x3au8] + hex_digits(segs[2] as int) + seq![0x3au8]
            + hex_digits(segs[3] as int) + seq![0x3au8] + hex_digits(segs[4] as int) + seq![0x3au8]
            + hex_digits(segs[5] as int) + seq![0x3au8] + hex_digits(segs[6] as int) + seq![0x3au8]
            + hex_digits(segs[7] as int) + seq![0x5du8, 0x3au8] + dec_digits(port as int),
        AddressSpec::Domain { name, port } => name + seq![0x3au8] + dec_digits(port as int),
    }
}

impl Address {
    /// The human-readable form of the address: [`display_bytes`] read as
    /// UTF-8, with a lossy replacement of invalid label bytes.
    pub fn display_string(&self) -> (r: String)
        ensures
            r@ == utf8_lossy_of(display_bytes(self@)),
    {
        let mut buf: Vec<u8> = Vec::new();
        match self {
            Address::V4 { ip, port } => {
                push_dec_u16(&mut buf, ip[0] as u16);
                buf.push(0x2e);
                push_dec_u16(&mut buf, ip[1] as u16);
                buf.push(0x2e);
                push_dec_u16(&mut buf, ip[2] as u16);
                buf.push(0x2e);
                push_dec_u16(&mut buf, ip[3] as u16);
                buf.push(0x3a);
                push_dec_u16(&mut buf, *port);
                assert(buf@ =~= display_bytes(self@));
            }
            Address::V6 { segs, port } => {
                buf.push(0x5b);
                push_hex_u16(&mut buf, segs[0]);
                buf.push(0x3a);
                push_hex_u16(&mut buf, segs[1]);
                buf.push(0x3a);
                push_hex_u16(&mut buf, segs[2]);
                buf.push(0x3a);
                push_hex_u16(&mut buf, segs[3]);
                buf.push(0x3a);
                push_hex_u16(&mut buf, segs[4]);
                buf.push(0x3a);
                push_hex_u16(&mut buf, segs[5]);
                buf.push(0x3a);
                push_hex_u16(&mut buf, segs[6]);
                buf.push(0x3a);
                push_hex_u16(&mut buf, segs[7]);
                buf.push(0x5d);
                buf.push(0x3a);
                push_dec_u16(&mut buf, *port);
                assert(buf@ =~= display_bytes(self@));
            }
            Address::Domain { name, port } => {
                push_bytes(&mut buf, name.as_slice());
                buf.push(0x3a);
                push_dec_u16(&mut buf, *port);
                assert(buf@ =~= display_bytes(self@));
            }
        }
        utf8_lossy(buf.as_slice())
    }
}

/// Law: every well-formed address decodes back from its own encoding,
/// whatever bytes follow it, and uses exactly its encoded length.
pub proof fn lemma_address_roundtrip(a: AddressSpec, rest: Seq<u8>)
    requires
        a.wf(),
    ensures
        parse_address(a.wire() + rest) == (ParseOutcome::Done::<AddressSpec, u8> {
            frame: a,
            used: a.wire().len() as int,
        }),
{
    let s = a.wire() + rest;
    match a {
        AddressSpec::V4 { ip, port } => {
            assert(s[0] == 0x01);
            assert(s.len() >= 7);
            lemma_be16_split(port);
            assert(s.subrange(1, 5) =~= ip);
            assert(s[5] == hi8(port) && s[6] == lo8(port));
        }
        AddressSpec::V6 { segs, port } => {
            assert(s[0] == 0x04);
            assert(s.len() >= 19);
            lemma_be16_split(segs[0]);
            lemma_be16_split(segs[1]);
            lemma_be16_split(segs[2]);
            lemma_be16_split(segs[3]);
            lemma_be16_split(segs[4]);
            lemma_be16_split(segs[5]);
            lemma_be16_split(segs[6]);
            lemma_be16_split(segs[7]);
            lemma_be16_split(port);
            assert(parse_address(s)->Done_frame->V6_segs =~= segs);
        }
        AddressSpec::Domain { name, port } => {
            assert(s[0] == 0x03);
            assert(s[1] == name.len() as u8);
            assert(s.len() >= 4 + name.len());
            lemma_be16_split(port);
            let l = s[1] as int;
            assert(l == name.len());
            assert(s.subrange(2, 2 + l) =~= name);
            assert(s[2 + l] == hi8(port) && s[3 + l] == lo8(port));
        }
    }
}

/// Law: whatever a decoder recognises is well formed and encodes back to
/// exactly the bytes it consumed, so decoding then encoding reproduces the
/// original bytes.
pub proof fn lemma_address_parse_sound(s: Seq<u8>)
    ensures
        parse_address(s) matches ParseOutcome::Done { frame, used } ==> frame.wf() && 0 <= used
            <= s.len() && frame.wire() == s.subrange(0, used),
{
    if s.len() >= 1 {
        if s[0] == 0x01 && s.len() >= 7 {
            let frame = parse_address(s)->Done_frame;
            lemma_be16_join(s[5], s[6]);
            assert(frame.wire() =~= s.subrange(0, 7));
        } else if s[0] == 0x04 && s.len() >= 19 {
            let frame = parse_address(s)->Done_frame;
            lemma_be16_join(s[1], s[2]);
            lemma_be16_join(s[3], s[4]);
            lemma_be16_join(s[5], s[6]);
            lemma_be16_join(s[7], s[8]);
            lemma_be16_join(s[9], s[10]);
            lemma_be16_join(s[11], s[12]);
            lemma_be16_join(s[13], s[14]);
            lemma_be16_join(s[15], s[16]);
            lemma_be16_join(s[17], s[18]);
            assert(frame.wire() =~= s.subrange(0, 19));
        } else if s[0] == 0x03 && s.len() >= 2 {
            let l = s[1] as int;
            if s.len() >= 4 + l {
                let frame = parse_address(s)->Done_frame;
                lemma_be16_join(s[2 + l], s[3 + l]);
                assert(frame.wire() =~= s.subrange(0, 4 + l));
            }
        }
    }
}

} // verus!
