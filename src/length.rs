//! The length field of a record: one byte below 255, else the marker 0xFF and
//! a big-endian `u16`.
use vstd::prelude::*;

use crate::be::{be16, byte_at, get_u16, get_u8, put_u16, put_u8, read_be16, splice};
use crate::error::TwineTlvError;

verus! {

/// First byte of an extended length field.
pub const TLV_EXTENDED_LEN_ID: u8 = 0xFF;

/// The length field for a value of `len` bytes (`len` at most `u16::MAX`).
pub open spec fn length_field(len: nat) -> Seq<u8> {
    if len < 255 {
        seq![len as u8]
    } else {
        seq![0xFFu8] + be16(len as u16)
    }
}

/// Type byte, length field and value together.
pub open spec fn encoded_size(len: nat) -> nat {
    if len < 255 {
        len + 2
    } else {
        len + 4
    }
}

/// The length read at `pos`, with the size of its field (1 or 3); bytes past
/// the end of `b` read as zero.
pub open spec fn read_len_at(b: Seq<u8>, pos: int) -> (nat, nat) {
    if byte_at(b, pos) == 0xFF {
        (read_be16(b, pos + 1) as nat, 3)
    } else {
        (byte_at(b, pos) as nat, 1)
    }
}

/// A length field takes one byte or three.
pub proof fn lemma_length_field_len(len: nat)
    ensures
        length_field(len).len() == encoded_size(len) - len - 1,
        length_field(len).len() == 1 || length_field(len).len() == 3,
{
}

/// A length field written at `pos` reads back as the length it was written for.
pub proof fn lemma_read_length_field(b: Seq<u8>, pos: int, len: nat)
    requires
        len <= u16::MAX,
        0 <= pos,
        pos + length_field(len).len() <= b.len(),
        b.subrange(pos, pos + length_field(len).len()) == length_field(len),
    ensures
        read_len_at(b, pos) == (len, length_field(len).len()),
{
    let f = length_field(len);
    assert(b[pos] == f[0]);
    if len < 255 {
        assert(byte_at(b, pos) == len as u8);
    } else {
        assert(b[pos + 1] == f[1]);
        assert(b[pos + 2] == f[2]);
        crate::be::lemma_be16_round_trip(len as u16);
        assert(read_be16(b, pos + 1) == read_be16(be16(len as u16), 0));
    }
}

/// Reads the length field at `pos`: returns the length and the number of
/// bytes its field takes (1, or 3 after the 0xFF marker).
pub fn read_length(buffer: &[u8], pos: usize) -> (r: (usize, usize))
    requires
        pos < usize::MAX - 2,
    ensures
        r.0 as nat == read_len_at(buffer@, pos as int).0,
        r.1 as nat == read_len_at(buffer@, pos as int).1,
{
    let first = get_u8(buffer, pos);
    if first == TLV_EXTENDED_LEN_ID {
        (get_u16(buffer, pos + 1) as usize, 3)
    } else {
        (first as usize, 1)
    }
}

/// Writes the length field for `length` at `pos` and returns its size.
pub fn write_length(buffer: &mut [u8], pos: usize, length: usize) -> (r: Result<usize, TwineTlvError>)
    ensures
        length > u16::MAX ==> r == Err::<usize, TwineTlvError>(TwineTlvError::BufferMaxLength)
            && final(buffer)@ == old(buffer)@,
        length <= u16::MAX && pos + length_field(length as nat).len() > old(buffer)@.len()
            ==> r == Err::<usize, TwineTlvError>(TwineTlvError::BufferEncodeTooShort)
            && final(buffer)@ == old(buffer)@,
        length <= u16::MAX && pos + length_field(length as nat).len() <= old(buffer)@.len()
            ==> r == Ok::<usize, TwineTlvError>(length_field(length as nat).len() as usize)
            && final(buffer)@ == splice(old(buffer)@, pos as int, length_field(length as nat)),
{
    if length > 0xFFFF {
        return Err(TwineTlvError::BufferMaxLength);
    }
    let room = buffer.len();
    if length < 0xFF {
        if pos >= room {
            return Err(TwineTlvError::BufferEncodeTooShort);
        }
        put_u8(buffer, pos, length as u8);
        Ok(1)
    } else {
        if pos >= room || room - pos < 3 {
            return Err(TwineTlvError::BufferEncodeTooShort);
        }
        put_u8(buffer, pos, TLV_EXTENDED_LEN_ID);
        let ghost mid = buffer@;
        put_u16(buffer, pos + 1, length as u16);
        assert(buffer@ =~= splice(old(buffer)@, pos as int, length_field(length as nat)));
        Ok(3)
    }
}

/// Reading a length field from the front of a byte source.
pub trait GetTlvLength {
    /// Reads the length field at the front and moves past it.
    fn get_tlv_length(&mut self) -> usize;
}

impl<'a> GetTlvLength for &'a [u8] {
    fn get_tlv_length(&mut self) -> (r: usize)
        ensures
            r as nat == read_len_at(old(self)@, 0).0,
            read_len_at(old(self)@, 0).1 <= old(self)@.len() ==> final(self)@ == old(self)@.subrange(
                read_len_at(old(self)@, 0).1 as int,
                old(self)@.len() as int,
            ),
            read_len_at(old(self)@, 0).1 > old(self)@.len() ==> final(self)@.len() == 0,
    {
        let (len, n) = read_length(*self, 0);
        let end = self.len();
        let start = if n < end {
            n
        } else {
            end
        };
        *self = vstd::slice::slice_subrange(*self, start, end);
        len
    }
}

/// Writing a length field into a byte buffer.
pub trait PutTlvLength {
    /// Writes the length field for `length` at `pos`; returns the bytes written.
    fn put_tlv_length(&mut self, pos: usize, length: usize) -> Result<usize, TwineTlvError>;
}

impl PutTlvLength for [u8] {
    fn put_tlv_length(&mut self, pos: usize, length: usize) -> (r: Result<usize, TwineTlvError>)
        ensures
            length > u16::MAX ==> r == Err::<usize, TwineTlvError>(TwineTlvError::BufferMaxLength)
                && final(self)@ == old(self)@,
            length <= u16::MAX && pos + length_field(length as nat).len() > old(self)@.len()
                ==> r == Err::<usize, TwineTlvError>(TwineTlvError::BufferEncodeTooShort)
                && final(self)@ == old(self)@,
            length <= u16::MAX && pos + length_field(length as nat).len() <= old(self)@.len()
                ==> r == Ok::<usize, TwineTlvError>(length_field(length as nat).len() as usize)
                && final(self)@ == splice(old(self)@, pos as int, length_field(length as nat)),
    {
        write_length(self, pos, length)
    }
}

} // verus!
