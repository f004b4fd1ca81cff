//! Shared building blocks of the wire codecs: big-endian 16-bit fields,
//! byte-buffer appends, and the common shape of every decoder's result.

use vstd::prelude::*;

verus! {

/// Outcome of parsing one frame out of a byte-sequence prefix, at the
/// specification level. `needed` counts the additional bytes the decoder
/// must be given beyond the sequence it saw; `used` is the exact number of
/// bytes the recognised frame occupies.
pub enum ParseOutcome<F, E> {
    Incomplete { needed: int },
    Bad { err: E },
    Done { frame: F, used: int },
}

/// Executable counterpart of [`ParseOutcome`]'s failure cases: either the
/// buffer ends before the frame does (`needed` more bytes must be read), or
/// the bytes are not a frame at all.
#[derive(Debug)]
pub enum DecodeError<E> {
    Incomplete { needed: usize },
    Invalid { err: E },
}

/// The 16-bit value transmitted most-significant byte first.
pub open spec fn be16(hi: u8, lo: u8) -> u16 {
    ((hi as u16) << 8) | (lo as u16)
}

/// High byte of a 16-bit field on the wire.
pub open spec fn hi8(x: u16) -> u8 {
    ((x >> 8) & 0xff) as u8
}

/// Low byte of a 16-bit field on the wire.
pub open spec fn lo8(x: u16) -> u8 {
    (x & 0xff) as u8
}

pub proof fn lemma_be16_split(x: u16)
    ensures
        be16(hi8(x), lo8(x)) == x,
{
    assert((((((x >> 8) & 0xff) as u8) as u16) << 8) | (((x & 0xff) as u8) as u16) == x)
        by (bit_vector);
}

pub proof fn lemma_be16_join(hi: u8, lo: u8)
    ensures
        hi8(be16(hi, lo)) == hi,
        lo8(be16(hi, lo)) == lo,
{
    assert((((((hi as u16) << 8) | (lo as u16)) >> 8) & 0xff) as u8 == hi) by (bit_vector);
    assert(((((hi as u16) << 8) | (lo as u16)) & 0xff) as u8 == lo) by (bit_vector);
}

pub fn read_be16(hi: u8, lo: u8) -> (r: u16)
    ensures
        r == be16(hi, lo),
{
    ((hi as u16) << 8) | (lo as u16)
}

/// Appends the two wire bytes of `x`, most significant first.
pub fn push_be16(out: &mut Vec<u8>, x: u16)
    ensures
        final(out)@ == old(out)@ + seq![hi8(x), lo8(x)],
{
    let hi: u8 = #[verifier::truncate] (((x >> 8) & 0xff) as u8);
    let lo: u8 = #[verifier::truncate] ((x & 0xff) as u8);
    out.push(hi);
    out.push(lo);
    assert(out@ =~= old(out)@ + seq![hi8(x), lo8(x)]);
}

/// Appends every byte of `src` to `out`, in order.
pub fn push_bytes(out: &mut Vec<u8>, src: &[u8])
    ensures
        final(out)@ == old(out)@ + src@,
{
    let mut i: usize = 0;
    while i < src.len()
        invariant
            i <= src.len(),
            out@ == old(out)@ + src@.subrange(0, i as int),
        decreases src.len() - i,
    {
        let b = src[i];
        out.push(b);
        assert(out@ =~= old(out)@ + src@.subrange(0, i + 1));
        i += 1;
    }
    assert(out@ =~= old(out)@ + src@);
}

/// Says whether the two byte slices hold the same bytes in the same order.
pub fn bytes_eq(a: &[u8], b: &[u8]) -> (r: bool)
    ensures
        r == (a@ == b@),
{
    if a.len() != b.len() {
        return false;
    }
    let mut i: usize = 0;
    while i < a.len()
        invariant
            i <= a.len(),
            a@.len() == b@.len(),
            forall|j: int| 0 <= j < i ==> a@[j] == b@[j],
        decreases a.len() - i,
    {
        if a[i] != b[i] {
            return false;
        }
        i += 1;
    }
    assert(a@ =~= b@);
    true
}

} // verus!
