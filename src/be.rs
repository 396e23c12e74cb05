//! Big-endian integers in byte sequences.
use vstd::prelude::*;

verus! {

/// The byte at `i`, or zero past either end of `b`.
pub open spec fn byte_at(b: Seq<u8>, i: int) -> u8 {
    if 0 <= i < b.len() {
        b[i]
    } else {
        0
    }
}

/// `b` with the bytes from `pos` on overwritten by `bytes`.
pub open spec fn splice(b: Seq<u8>, pos: int, bytes: Seq<u8>) -> Seq<u8> {
    b.subrange(0, pos) + bytes + b.subrange(pos + bytes.len(), b.len() as int)
}

pub open spec fn be16(v: u16) -> Seq<u8> {
    seq![(v >> 8u16) as u8, v as u8]
}

pub open spec fn be32(v: u32) -> Seq<u8> {
    seq![(v >> 24u32) as u8, (v >> 16u32) as u8, (v >> 8u32) as u8, v as u8]
}

pub open spec fn be64(v: u64) -> Seq<u8> {
    seq![
        (v >> 56u64) as u8,
        (v >> 48u64) as u8,
        (v >> 40u64) as u8,
        (v >> 32u64) as u8,
        (v >> 24u64) as u8,
        (v >> 16u64) as u8,
        (v >> 8u64) as u8,
        v as u8,
    ]
}

pub open spec fn read_be16(b: Seq<u8>, i: int) -> u16 {
    ((byte_at(b, i) as u16) << 8u16) | (byte_at(b, i + 1) as u16)
}

pub open spec fn read_be32(b: Seq<u8>, i: int) -> u32 {
    ((read_be16(b, i) as u32) << 16u32) | (read_be16(b, i + 2) as u32)
}

pub open spec fn read_be64(b: Seq<u8>, i: int) -> u64 {
    ((read_be32(b, i) as u64) << 32u64) | (read_be32(b, i + 4) as u64)
}

/// Reading back the bytes of a `u16` gives it.
pub proof fn lemma_be16_round_trip(v: u16)
    ensures
        read_be16(be16(v), 0) == v,
{
    let b = be16(v);
    assert(byte_at(b, 0) == (v >> 8u16) as u8);
    assert(byte_at(b, 1) == v as u8);
    assert(((((v >> 8u16) as u8) as u16) << 8u16) | ((v as u8) as u16) == v) by (bit_vector);
}

/// Reading back the bytes of a `u32` gives it.
pub proof fn lemma_be32_round_trip(v: u32)
    ensures
        read_be32(be32(v), 0) == v,
{
    let b = be32(v);
    assert(byte_at(b, 0) == (v >> 24u32) as u8);
    assert(byte_at(b, 1) == (v >> 16u32) as u8);
    assert(byte_at(b, 2) == (v >> 8u32) as u8);
    assert(byte_at(b, 3) == v as u8);
    assert(((((((((v >> 24u32) as u8) as u16) << 8u16) | (((v >> 16u32) as u8) as u16)) as u32)
        << 16u32) | ((((((v >> 8u32) as u8) as u16) << 8u16) | ((v as u8) as u16)) as u32)) == v)
        by (bit_vector);
}

/// Reading back the bytes of a `u64` gives it.
pub proof fn lemma_be64_round_trip(v: u64)
    ensures
        read_be64(be64(v), 0) == v,
{
    let b = be64(v);
    let hi = (v >> 32u64) as u32;
    let lo = v as u32;
    assert(be32(hi) =~= b.subrange(0, 4)) by {
        assert((hi >> 24u32) as u8 == (v >> 56u64) as u8) by (bit_vector)
            requires hi == (v >> 32u64) as u32;
        assert((hi >> 16u32) as u8 == (v >> 48u64) as u8) by (bit_vector)
            requires hi == (v >> 32u64) as u32;
        assert((hi >> 8u32) as u8 == (v >> 40u64) as u8) by (bit_vector)
            requires hi == (v >> 32u64) as u32;
        assert(hi as u8 == (v >> 32u64) as u8) by (bit_vector)
            requires hi == (v >> 32u64) as u32;
    }
    assert(be32(lo) =~= b.subrange(4, 8)) by {
        assert((lo >> 24u32) as u8 == (v >> 24u64) as u8) by (bit_vector)
            requires lo == v as u32;
        assert((lo >> 16u32) as u8 == (v >> 16u64) as u8) by (bit_vector)
            requires lo == v as u32;
        assert((lo >> 8u32) as u8 == (v >> 8u64) as u8) by (bit_vector)
            requires lo == v as u32;
        assert(lo as u8 == v as u8) by (bit_vector)
            requires lo == v as u32;
    }
    lemma_be32_round_trip(hi);
    lemma_be32_round_trip(lo);
    assert(read_be32(b, 0) == read_be32(be32(hi), 0));
    assert(read_be32(b, 4) == read_be32(be32(lo), 0));
    assert((((v >> 32u64) as u32) as u64) << 32u64 | ((v as u32) as u64) == v) by (bit_vector);
}

/// Reads a big-endian `u16` at `i`; missing bytes read as zero.
pub fn get_u16(b: &[u8], i: usize) -> (r: u16)
    requires
        i < usize::MAX,
    ensures
        r == read_be16(b@, i as int),
{
    let hi: u8 = if i < b.len() { b[i] } else { 0 };
    let lo: u8 = if i + 1 < b.len() { b[i + 1] } else { 0 };
    ((hi as u16) << 8u16) | (lo as u16)
}

/// Reads a big-endian `u32` at `i`; missing bytes read as zero.
pub fn get_u32(b: &[u8], i: usize) -> (r: u32)
    requires
        i < usize::MAX - 3,
    ensures
        r == read_be32(b@, i as int),
{
    ((get_u16(b, i) as u32) << 16u32) | (get_u16(b, i + 2) as u32)
}

/// Reads a big-endian `u64` at `i`; missing bytes read as zero.
pub fn get_u64(b: &[u8], i: usize) -> (r: u64)
    requires
        i < usize::MAX - 7,
    ensures
        r == read_be64(b@, i as int),
{
    ((get_u32(b, i) as u64) << 32u64) | (get_u32(b, i + 4) as u64)
}

/// Reads the byte at `i`; past the end it reads zero.
pub fn get_u8(b: &[u8], i: usize) -> (r: u8)
    ensures
        r == byte_at(b@, i as int),
{
    if i < b.len() {
        b[i]
    } else {
        0
    }
}

/// Writes `bytes` into `buffer` from `pos` on.
pub fn put_slice(buffer: &mut [u8], pos: usize, bytes: &[u8])
    requires
        pos + bytes@.len() <= old(buffer)@.len(),
    ensures
        final(buffer)@ == splice(old(buffer)@, pos as int, bytes@),
{
    let room = buffer.len();
    let mut i: usize = 0;
    while i < bytes.len()
        invariant
            pos + bytes@.len() <= buffer@.len(),
            room == buffer@.len(),
            i <= bytes@.len(),
            buffer@.len() == old(buffer)@.len(),
            buffer@ =~= old(buffer)@.subrange(0, pos as int) + bytes@.subrange(0, i as int)
                + old(buffer)@.subrange(pos + i, old(buffer)@.len() as int),
        decreases bytes@.len() - i,
    {
        buffer[pos + i] = bytes[i];
        i += 1;
    }
}

pub fn put_u8(buffer: &mut [u8], pos: usize, v: u8)
    requires
        pos < old(buffer)@.len(),
    ensures
        final(buffer)@ == splice(old(buffer)@, pos as int, seq![v]),
{
    buffer[pos] = v;
    assert(buffer@ =~= splice(old(buffer)@, pos as int, seq![v]));
}

pub fn put_u16(buffer: &mut [u8], pos: usize, v: u16)
    requires
        pos + 2 <= old(buffer)@.len(),
    ensures
        final(buffer)@ == splice(old(buffer)@, pos as int, be16(v)),
{
    let bytes = [(v >> 8u16) as u8, v as u8];
    assert(bytes@ =~= be16(v));
    put_slice(buffer, pos, &bytes);
}

pub fn put_u32(buffer: &mut [u8], pos: usize, v: u32)
    requires
        pos + 4 <= old(buffer)@.len(),
    ensures
        final(buffer)@ == splice(old(buffer)@, pos as int, be32(v)),
{
    let bytes = [(v >> 24u32) as u8, (v >> 16u32) as u8, (v >> 8u32) as u8, v as u8];
    assert(bytes@ =~= be32(v));
    put_slice(buffer, pos, &bytes);
}

pub fn put_u64(buffer: &mut [u8], pos: usize, v: u64)
    requires
        pos + 8 <= old(buffer)@.len(),
    ensures
        final(buffer)@ == splice(old(buffer)@, pos as int, be64(v)),
{
    let bytes = [
        (v >> 56u64) as u8,
        (v >> 48u64) as u8,
        (v >> 40u64) as u8,
        (v >> 32u64) as u8,
        (v >> 24u64) as u8,
        (v >> 16u64) as u8,
        (v >> 8u64) as u8,
        v as u8,
    ];
    assert(bytes@ =~= be64(v));
    put_slice(buffer, pos, &bytes);
}

} // verus!
