//! What a type provides to be written and read as a TLV record.
use vstd::prelude::*;

use crate::be::{
    be16, be32, be64, byte_at, get_u16, get_u32, get_u64, get_u8, put_slice, put_u16, put_u32,
    put_u64, put_u8, read_be16, read_be32, read_be64, splice,
};
use crate::error::TwineTlvError;
use crate::length::{encoded_size, read_len_at, read_length};
use crate::tlv::{write_outcome, write_tlv_at};

verus! {

/// The array whose view is `s`.
pub open spec fn array_from<const N: usize>(s: Seq<u8>) -> [u8; N] {
    choose|a: [u8; N]| a@ == s
}

/// The first `n` bytes of `b`, with zeros past its end.
pub open spec fn padded(b: Seq<u8>, n: nat) -> Seq<u8> {
    Seq::new(n, |i: int| byte_at(b, i))
}

/// An array is the one whose view it has.
pub proof fn lemma_array_from<const N: usize>(a: [u8; N])
    ensures
        array_from::<N>(a@) == a,
{
    let c = array_from::<N>(a@);
    assert(exists|x: [u8; N]| x@ == a@);
    assert(c@ == a@);
    assert(c =~= a);
}

/// Copies the first `N` bytes of `buffer` into an array, with zeros past its end.
pub fn take_array<const N: usize>(buffer: &[u8]) -> (r: [u8; N])
    ensures
        r == array_from::<N>(padded(buffer@, N as nat)),
        r@ == padded(buffer@, N as nat),
{
    let mut r = [0u8; N];
    let mut i: usize = 0;
    while i < N
        invariant
            i <= N,
            r@.len() == N,
            forall|j: int| 0 <= j < i ==> r@[j] == byte_at(buffer@, j),
        decreases N - i,
    {
        r[i] = get_u8(buffer, i);
        i += 1;
    }
    assert(r@ =~= padded(buffer@, N as nat));
    proof {
        lemma_array_from::<N>(r);
    }
    r
}

/// The type byte of a kind of record.
pub trait TlvType {
    const TLV_TYPE: u8;
}

/// The length of a record's value.
pub trait TlvLength {
    /// The value as it stands on the wire.
    spec fn value_bytes(&self) -> Seq<u8>;

    /// Whether every value of the type has the same length.
    spec fn constant_len() -> bool;

    /// The length of the value.
    fn tlv_len(&self) -> (r: usize)
        ensures
            r as nat == self.value_bytes().len(),
    ;

    /// Whether the type has a constant length.
    fn tlv_len_is_constant() -> (r: bool)
        ensures
            r == Self::constant_len(),
    ;

    /// The length of the whole record: type byte, length field and value.
    fn tlv_total_len(&self) -> (r: usize)
        requires
            self.value_bytes().len() + 4 <= usize::MAX,
        ensures
            r as nat == encoded_size(self.value_bytes().len()),
    {
        let len = self.tlv_len();
        if len < 0xFF {
            len + 2
        } else {
            len + 4
        }
    }
}

/// A type with a type byte and a length.
pub trait TlvMetadata: TlvType + TlvLength {

}

/// A type whose values all have the length `TLV_LEN`.
pub trait TlvConstantMetadata: TlvMetadata {
    const TLV_LEN: usize;

    proof fn lemma_constant_len(&self)
        ensures
            self.value_bytes().len() == Self::TLV_LEN,
            Self::constant_len(),
    ;

    /// The length of a whole record of this type.
    fn tlv_total_constant_len() -> (r: usize)
        requires
            Self::TLV_LEN + 4 <= usize::MAX,
        ensures
            r as nat == encoded_size(Self::TLV_LEN as nat),
    {
        if Self::TLV_LEN < 0xFF {
            Self::TLV_LEN + 2
        } else {
            Self::TLV_LEN + 4
        }
    }
}

/// Writing a value (without type byte and length field).
pub trait TryEncodeTlvValue: TlvLength {
    /// Writes the value at `pos`; returns the number of bytes written.
    fn try_encode_tlv_value(&self, buffer: &mut [u8], pos: usize) -> (r: Result<
        usize,
        TwineTlvError,
    >)
        ensures
            pos + self.value_bytes().len() <= old(buffer)@.len() ==> r == Ok::<
                usize,
                TwineTlvError,
            >(self.value_bytes().len() as usize) && final(buffer)@ == splice(
                old(buffer)@,
                pos as int,
                self.value_bytes(),
            ),
            pos + self.value_bytes().len() > old(buffer)@.len() ==> r == Err::<
                usize,
                TwineTlvError,
            >(TwineTlvError::BufferEncodeTooShort) && final(buffer)@ == old(buffer)@,
    ;
}

/// Reading a value from the bytes that follow a record's length field. It
/// trusts its input: bytes missing at the end read as zero, extra ones are
/// ignored.
pub trait DecodeTlvValueUnchecked: TlvLength + Sized {
    /// The value read from `bytes`.
    spec fn decode_value(bytes: Seq<u8>) -> Self;

    /// The values that the encoding carries.
    spec fn well_formed(&self) -> bool;

    fn decode_tlv_value_unchecked(buffer: &[u8]) -> (r: Self)
        ensures
            r == Self::decode_value(buffer@),
    ;

    /// Reading back what a well-formed value wrote gives the value.
    proof fn lemma_decode_encoded(&self)
        requires
            self.well_formed(),
        ensures
            Self::decode_value(self.value_bytes()) == *self,
    ;
}

/// The value bytes of the record at the front of `b`: what follows its type
/// byte and length field.
pub open spec fn record_value(b: Seq<u8>) -> Seq<u8> {
    let start = 1 + read_len_at(b, 1).1;
    if start <= b.len() {
        b.subrange(start as int, b.len() as int)
    } else {
        Seq::empty()
    }
}

/// Reading a whole record: type byte, length field, value.
pub trait DecodeTlvUnchecked: DecodeTlvValueUnchecked {
    /// Skips the type byte and length field at the front of `buffer` and
    /// reads the value from the rest; the type byte is not checked.
    fn decode_tlv_unchecked(buffer: &[u8]) -> (r: Self)
        ensures
            r == Self::decode_value(record_value(buffer@)),
    {
        let (_len, n) = read_length(buffer, 1);
        let end = buffer.len();
        let start = if 1 + n <= end {
            1 + n
        } else {
            end
        };
        let value = vstd::slice::slice_subrange(buffer, start, end);
        assert(1 + n > end ==> value@ =~= Seq::<u8>::empty());
        Self::decode_tlv_value_unchecked(value)
    }
}

/// Writing a whole record.
pub trait TryEncodeTlv: TryEncodeTlvValue + TlvType {
    /// Writes the record at the front of `buffer`; returns its size.
    fn try_encode_tlv(&self, buffer: &mut [u8]) -> (r: Result<usize, TwineTlvError>)
        ensures
            (r, final(buffer)@) == write_outcome(old(buffer)@, 0, Self::TLV_TYPE, self.value_bytes()),
    {
        write_tlv_at(buffer, 0, Self::TLV_TYPE, self)
    }

    /// Writes the record at `pos`; returns its size.
    fn try_encode_tlv_at(&self, buffer: &mut [u8], pos: usize) -> (r: Result<usize, TwineTlvError>)
        ensures
            (r, final(buffer)@) == write_outcome(
                old(buffer)@,
                pos as int,
                Self::TLV_TYPE,
                self.value_bytes(),
            ),
    {
        write_tlv_at(buffer, pos, Self::TLV_TYPE, self)
    }
}

impl TlvLength for u8 {
    open spec fn value_bytes(&self) -> Seq<u8> {
        seq![*self]
    }

    open spec fn constant_len() -> bool {
        true
    }

    fn tlv_len(&self) -> (r: usize) {
        1
    }

    fn tlv_len_is_constant() -> (r: bool) {
        true
    }
}

impl TlvLength for u16 {
    open spec fn value_bytes(&self) -> Seq<u8> {
        be16(*self)
    }

    open spec fn constant_len() -> bool {
        true
    }

    fn tlv_len(&self) -> (r: usize) {
        2
    }

    fn tlv_len_is_constant() -> (r: bool) {
        true
    }
}

impl TlvLength for u32 {
    open spec fn value_bytes(&self) -> Seq<u8> {
        be32(*self)
    }

    open spec fn constant_len() -> bool {
        true
    }

    fn tlv_len(&self) -> (r: usize) {
        4
    }

    fn tlv_len_is_constant() -> (r: bool) {
        true
    }
}

impl TlvLength for u64 {
    open spec fn value_bytes(&self) -> Seq<u8> {
        be64(*self)
    }

    open spec fn constant_len() -> bool {
        true
    }

    fn tlv_len(&self) -> (r: usize) {
        8
    }

    fn tlv_len_is_constant() -> (r: bool) {
        true
    }
}

impl<const N: usize> TlvLength for [u8; N] {
    open spec fn value_bytes(&self) -> Seq<u8> {
        self@
    }

    open spec fn constant_len() -> bool {
        true
    }

    fn tlv_len(&self) -> (r: usize) {
        N
    }

    fn tlv_len_is_constant() -> (r: bool) {
        true
    }
}

impl TryEncodeTlvValue for u8 {
    fn try_encode_tlv_value(&self, buffer: &mut [u8], pos: usize) -> (r: Result<usize, TwineTlvError>) {
        if pos >= buffer.len() {
            return Err(TwineTlvError::BufferEncodeTooShort);
        }
        put_u8(buffer, pos, *self);
        Ok(1)
    }
}

impl TryEncodeTlvValue for u16 {
    fn try_encode_tlv_value(&self, buffer: &mut [u8], pos: usize) -> (r: Result<usize, TwineTlvError>) {
        if pos >= buffer.len() || buffer.len() - pos < 2 {
            return Err(TwineTlvError::BufferEncodeTooShort);
        }
        put_u16(buffer, pos, *self);
        Ok(2)
    }
}

impl TryEncodeTlvValue for u32 {
    fn try_encode_tlv_value(&self, buffer: &mut [u8], pos: usize) -> (r: Result<usize, TwineTlvError>) {
        if pos >= buffer.len() || buffer.len() - pos < 4 {
            return Err(TwineTlvError::BufferEncodeTooShort);
        }
        put_u32(buffer, pos, *self);
        Ok(4)
    }
}

impl TryEncodeTlvValue for u64 {
    fn try_encode_tlv_value(&self, buffer: &mut [u8], pos: usize) -> (r: Result<usize, TwineTlvError>) {
        if pos >= buffer.len() || buffer.len() - pos < 8 {
            return Err(TwineTlvError::BufferEncodeTooShort);
        }
        put_u64(buffer, pos, *self);
        Ok(8)
    }
}

impl<const N: usize> TryEncodeTlvValue for [u8; N] {
    fn try_encode_tlv_value(&self, buffer: &mut [u8], pos: usize) -> (r: Result<usize, TwineTlvError>) {
        if pos > buffer.len() || buffer.len() - pos < N {
            return Err(TwineTlvError::BufferEncodeTooShort);
        }
        put_slice(buffer, pos, self.as_slice());
        Ok(N)
    }
}

impl DecodeTlvValueUnchecked for u8 {
    open spec fn decode_value(bytes: Seq<u8>) -> u8 {
        byte_at(bytes, 0)
    }

    open spec fn well_formed(&self) -> bool {
        true
    }

    fn decode_tlv_value_unchecked(buffer: &[u8]) -> (r: u8) {
        get_u8(buffer, 0)
    }

    proof fn lemma_decode_encoded(&self) {
    }
}

impl DecodeTlvValueUnchecked for u16 {
    open spec fn decode_value(bytes: Seq<u8>) -> u16 {
        read_be16(bytes, 0)
    }

    open spec fn well_formed(&self) -> bool {
        true
    }

    fn decode_tlv_value_unchecked(buffer: &[u8]) -> (r: u16) {
        get_u16(buffer, 0)
    }

    proof fn lemma_decode_encoded(&self) {
        crate::be::lemma_be16_round_trip(*self);
    }
}

impl DecodeTlvValueUnchecked for u32 {
    open spec fn decode_value(bytes: Seq<u8>) -> u32 {
        read_be32(bytes, 0)
    }

    open spec fn well_formed(&self) -> bool {
        true
    }

    fn decode_tlv_value_unchecked(buffer: &[u8]) -> (r: u32) {
        get_u32(buffer, 0)
    }

    proof fn lemma_decode_encoded(&self) {
        crate::be::lemma_be32_round_trip(*self);
    }
}

impl DecodeTlvValueUnchecked for u64 {
    open spec fn decode_value(bytes: Seq<u8>) -> u64 {
        read_be64(bytes, 0)
    }

    open spec fn well_formed(&self) -> bool {
        true
    }

    fn decode_tlv_value_unchecked(buffer: &[u8]) -> (r: u64) {
        get_u64(buffer, 0)
    }

    proof fn lemma_decode_encoded(&self) {
        crate::be::lemma_be64_round_trip(*self);
    }
}

impl<const N: usize> DecodeTlvValueUnchecked for [u8; N] {
    open spec fn decode_value(bytes: Seq<u8>) -> [u8; N] {
        array_from::<N>(padded(bytes, N as nat))
    }

    open spec fn well_formed(&self) -> bool {
        true
    }

    fn decode_tlv_value_unchecked(buffer: &[u8]) -> (r: [u8; N]) {
        take_array::<N>(buffer)
    }

    proof fn lemma_decode_encoded(&self) {
        assert(padded(self@, N as nat) =~= self@);
        lemma_array_from::<N>(*self);
    }
}

} // verus!
