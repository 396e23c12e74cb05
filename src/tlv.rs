//! Writing one record, and checking one record of a constant-length type.
use vstd::prelude::*;

use crate::be::{get_u8, put_u8, splice};
use crate::error::TwineTlvError;
use crate::length::{
    encoded_size, length_field, lemma_length_field_len, read_len_at, read_length, write_length,
};
use crate::traits::{TlvConstantMetadata, TlvLength, TryEncodeTlvValue};

verus! {

/// The bytes of a record: type byte, length field, value.
pub open spec fn tlv_bytes(tlv_type: u8, value: Seq<u8>) -> Seq<u8> {
    seq![tlv_type] + length_field(value.len()) + value
}

/// What writing the record `(tlv_type, value)` at `pos` of `old` gives: the
/// outcome, and the buffer afterwards. Nothing is written when it fails.
pub open spec fn write_outcome(old: Seq<u8>, pos: int, tlv_type: u8, value: Seq<u8>) -> (
    Result<usize, TwineTlvError>,
    Seq<u8>,
) {
    if value.len() > u16::MAX {
        (Err(TwineTlvError::BufferMaxLength), old)
    } else if pos + encoded_size(value.len()) > old.len() {
        (Err(TwineTlvError::BufferEncodeTooShort), old)
    } else {
        (Ok(encoded_size(value.len()) as usize), splice(old, pos, tlv_bytes(tlv_type, value)))
    }
}

/// A record takes `encoded_size` bytes.
pub proof fn lemma_tlv_bytes_len(tlv_type: u8, value: Seq<u8>)
    ensures
        tlv_bytes(tlv_type, value).len() == encoded_size(value.len()),
{
    lemma_length_field_len(value.len());
}

/// Writes the record `(tlv_type, value)` at the front of `buffer`; returns
/// the number of bytes written.
pub fn write_tlv<T: TlvLength + TryEncodeTlvValue + ?Sized>(
    buffer: &mut [u8],
    tlv_type: u8,
    value: &T,
) -> (r: Result<usize, TwineTlvError>)
    ensures
        (r, final(buffer)@) == write_outcome(old(buffer)@, 0, tlv_type, value.value_bytes()),
{
    write_tlv_at(buffer, 0, tlv_type, value)
}

/// Writes the record `(tlv_type, value)` at `pos` of `buffer`; returns the
/// number of bytes written. Nothing is written when it fails.
pub fn write_tlv_at<T: TlvLength + TryEncodeTlvValue + ?Sized>(
    buffer: &mut [u8],
    pos: usize,
    tlv_type: u8,
    value: &T,
) -> (r: Result<usize, TwineTlvError>)
    ensures
        (r, final(buffer)@) == write_outcome(old(buffer)@, pos as int, tlv_type, value.value_bytes()),
{
    let value_len = value.tlv_len();
    if value_len > 0xFFFF {
        return Err(TwineTlvError::BufferMaxLength);
    }
    let header: usize = if value_len < 0xFF {
        2
    } else {
        4
    };
    let room = buffer.len();
    if pos > room || room - pos < header || room - pos - header < value_len {
        return Err(TwineTlvError::BufferEncodeTooShort);
    }
    let ghost v = value.value_bytes();
    let ghost b0 = buffer@;
    put_u8(buffer, pos, tlv_type);
    let n = write_length(buffer, pos + 1, value_len);
    let ghost b1 = buffer@;
    let m = value.try_encode_tlv_value(buffer, pos + header);
    proof {
        lemma_tlv_bytes_len(tlv_type, v);
        let f = length_field(v.len());
        assert(header == 1 + f.len());
        assert(b1 =~= b0.subrange(0, pos as int) + seq![tlv_type] + f + b0.subrange(
            pos + header,
            b0.len() as int,
        ));
        assert(buffer@ =~= splice(b0, pos as int, tlv_bytes(tlv_type, v)));
    }
    Ok(header + value_len)
}

/// Checks that `buffer` starts with a record of the constant-length type `T`:
/// that the buffer can hold such a record, that its type byte is `T`'s and
/// that its length field gives `T::TLV_LEN`. The value is not looked at.
pub fn validate_const_len_tlv<T: TlvConstantMetadata>(buffer: &[u8]) -> (r: Result<
    (),
    TwineTlvError,
>)
    requires
        T::TLV_LEN + 4 <= usize::MAX,
    ensures
        buffer@.len() < encoded_size(T::TLV_LEN as nat) ==> r == Err::<(), TwineTlvError>(
            TwineTlvError::BufferDecodeTooShort,
        ),
        buffer@.len() >= encoded_size(T::TLV_LEN as nat) && buffer@[0] != T::TLV_TYPE ==> r
            == Err::<(), TwineTlvError>(TwineTlvError::BufferWrongType),
        buffer@.len() >= encoded_size(T::TLV_LEN as nat) && buffer@[0] == T::TLV_TYPE
            && read_len_at(buffer@, 1).0 != T::TLV_LEN ==> r == Err::<(), TwineTlvError>(
            TwineTlvError::BufferDecodeUnexpectedTlvLength(
                T::TLV_LEN,
                read_len_at(buffer@, 1).0 as usize,
            ),
        ),
        buffer@.len() >= encoded_size(T::TLV_LEN as nat) && buffer@[0] == T::TLV_TYPE
            && read_len_at(buffer@, 1).0 == T::TLV_LEN ==> r == Ok::<(), TwineTlvError>(()),
{
    if buffer.len() < T::tlv_total_constant_len() {
        return Err(TwineTlvError::BufferDecodeTooShort);
    }
    let type_byte = get_u8(buffer, 0);
    if type_byte != T::TLV_TYPE {
        return Err(TwineTlvError::BufferWrongType);
    }
    let (len, _n) = read_length(buffer, 1);
    if len != T::TLV_LEN {
        return Err(TwineTlvError::BufferDecodeUnexpectedTlvLength(T::TLV_LEN, len));
    }
    Ok(())
}

} // verus!
