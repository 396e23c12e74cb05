//! A fixed-capacity buffer of back-to-back records.
use core::ops::Range;

use vstd::prelude::*;
use vstd::string::StringSliceAdditionalSpecFns;

use crate::be::{get_u16, get_u8, read_be16, splice};
use crate::error::TwineTlvError;
use crate::length::encoded_size;
use crate::text::{all_hex_digits, decode_hex_prefix, hex_decoded};
use crate::tlv::{tlv_bytes, write_outcome};
use crate::traits::{
    record_value, DecodeTlvUnchecked, DecodeTlvValueUnchecked, TlvLength, TlvMetadata, TlvType,
    TryEncodeTlv,
};

verus! {

/// The header of the record at `pos`, as (header size, value length), when
/// its type byte and whole length field lie inside `b`.
pub open spec fn header_at(b: Seq<u8>, pos: int) -> Option<(nat, nat)> {
    if 0 <= pos && pos + 1 < b.len() {
        if b[pos + 1] == 0xFF {
            if pos + 3 < b.len() {
                Some((4, read_be16(b, pos + 2) as nat))
            } else {
                None
            }
        } else {
            Some((2, b[pos + 1] as nat))
        }
    } else {
        None
    }
}

/// The size of the header at `pos` (zero when it is cut off).
pub open spec fn header_size(b: Seq<u8>, pos: int) -> nat {
    match header_at(b, pos) {
        Some(h) => h.0,
        None => 0,
    }
}

/// The value length declared at `pos` (zero when the header is cut off).
pub open spec fn value_len(b: Seq<u8>, pos: int) -> nat {
    match header_at(b, pos) {
        Some(h) => h.1,
        None => 0,
    }
}

/// A record starts at `pos`: its header is complete, its length is not zero
/// (a zero length marks the end of the data) and its value fits in `b`.
pub open spec fn record_at(b: Seq<u8>, pos: int) -> bool {
    &&& header_at(b, pos) is Some
    &&& value_len(b, pos) > 0
    &&& pos + header_size(b, pos) + value_len(b, pos) <= b.len()
}

/// Where the record at `pos` ends.
pub open spec fn record_end(b: Seq<u8>, pos: int) -> int {
    pos + header_size(b, pos) + value_len(b, pos)
}

/// Where the run of records that starts at `pos` ends.
pub open spec fn scan_end(b: Seq<u8>, pos: int) -> int
    decreases b.len() - pos,
{
    if record_at(b, pos) {
        scan_end(b, record_end(b, pos))
    } else {
        pos
    }
}

/// The records from `pos` on, each as its bytes.
pub open spec fn tlvs_from(b: Seq<u8>, pos: int) -> Seq<Seq<u8>>
    decreases b.len() - pos,
{
    if record_at(b, pos) {
        seq![b.subrange(pos, record_end(b, pos))] + tlvs_from(b, record_end(b, pos))
    } else {
        Seq::empty()
    }
}

/// The span of the first record from `pos` on whose type byte is `t`.
pub open spec fn find_from(b: Seq<u8>, pos: int, t: u8) -> Option<(int, int)>
    decreases b.len() - pos,
{
    if record_at(b, pos) {
        if b[pos] == t {
            Some((pos, record_end(b, pos)))
        } else {
            find_from(b, record_end(b, pos), t)
        }
    } else {
        None
    }
}

/// The logical length of a buffer: where its records end.
pub open spec fn logical_len(b: Seq<u8>) -> int {
    scan_end(b, 0)
}

/// The records of a buffer, each as its bytes.
pub open spec fn tlvs(b: Seq<u8>) -> Seq<Seq<u8>> {
    tlvs_from(b, 0)
}

/// The span of the first record of type `t`.
pub open spec fn find_span(b: Seq<u8>, t: u8) -> Option<(int, int)> {
    find_from(b, 0, t)
}

/// The first record of type `T::TLV_TYPE` in `b`, read as a `T`.
pub open spec fn decoded<T: DecodeTlvValueUnchecked + TlvType>(b: Seq<u8>) -> Option<T> {
    match find_span(b, T::TLV_TYPE) {
        Some(span) => Some(T::decode_value(record_value(b.subrange(span.0, span.1)))),
        None => None,
    }
}

/// `b` with the bytes of `[start, end)` taken out, the rest moved left and
/// zeros filled in at the end.
pub open spec fn compacted(b: Seq<u8>, start: int, end: int) -> Seq<u8> {
    b.subrange(0, start) + b.subrange(end, b.len() as int) + Seq::new(
        (end - start) as nat,
        |i: int| 0u8,
    )
}

/// What appending the record `(t, value)` to `b` gives: the outcome, and the
/// buffer afterwards.
pub open spec fn push_outcome(b: Seq<u8>, t: u8, value: Seq<u8>) -> (
    Result<usize, TwineTlvError>,
    Seq<u8>,
) {
    if value.len() > u16::MAX || logical_len(b) + encoded_size(value.len()) > b.len() {
        (Err(TwineTlvError::BufferMaxLength), b)
    } else {
        (Ok(encoded_size(value.len()) as usize), splice(b, logical_len(b), tlv_bytes(t, value)))
    }
}

pub open spec fn unit_result(r: Result<usize, TwineTlvError>) -> Result<(), TwineTlvError> {
    match r {
        Ok(_) => Ok(()),
        Err(e) => Err(e),
    }
}

/// What replacing the first record of type `t` in `b` by `(t, value)` gives:
/// written over in place for a constant-length type, else taken out and
/// appended at the end. Nothing happens when there is no such record.
pub open spec fn replace_outcome(b: Seq<u8>, t: u8, value: Seq<u8>, constant: bool) -> (
    Result<(), TwineTlvError>,
    Seq<u8>,
) {
    match find_span(b, t) {
        None => (Ok(()), b),
        Some(span) => if constant {
            (unit_result(write_outcome(b, span.0, t, value).0), write_outcome(b, span.0, t, value).1)
        } else {
            (
                unit_result(push_outcome(compacted(b, span.0, span.1), t, value).0),
                push_outcome(compacted(b, span.0, span.1), t, value).1,
            )
        },
    }
}

pub(crate) proof fn lemma_record_end(b: Seq<u8>, pos: int)
    requires
        record_at(b, pos),
    ensures
        pos < record_end(b, pos) <= b.len(),
        pos + 1 < b.len(),
{
}

pub(crate) proof fn lemma_scan_bounds(b: Seq<u8>, pos: int)
    requires
        0 <= pos <= b.len(),
    ensures
        pos <= scan_end(b, pos) <= b.len(),
    decreases b.len() - pos,
{
    if record_at(b, pos) {
        lemma_scan_bounds(b, record_end(b, pos));
    }
}

pub(crate) proof fn lemma_find_bounds(b: Seq<u8>, pos: int, t: u8)
    requires
        0 <= pos,
    ensures
        find_from(b, pos, t) matches Some(span) ==> pos <= span.0 < span.1 <= b.len()
            && record_at(b, span.0) && span.1 == record_end(b, span.0) && b[span.0] == t,
    decreases b.len() - pos,
{
    if record_at(b, pos) && b[pos] != t {
        lemma_find_bounds(b, record_end(b, pos), t);
    }
}

/// A collection of records in a buffer of `CAPACITY` bytes. The records
/// stand back to back from offset 0; the bytes after them are unused and
/// kept zero by the operations here.
///
/// The logical length is where the run of records from offset 0 ends: at
/// the first record whose length field reads zero, whose header is cut off
/// by the end of the buffer, or whose value would run past it. A record of
/// length zero therefore cannot be told apart from unused space.
#[derive(Clone, Copy, Debug)]
pub struct TlvCollection<const CAPACITY: usize> {
    buffer: [u8; CAPACITY],
}

impl<const CAPACITY: usize> View for TlvCollection<CAPACITY> {
    type V = Seq<u8>;

    closed spec fn view(&self) -> Seq<u8> {
        self.buffer@
    }
}

impl<const CAPACITY: usize> Default for TlvCollection<CAPACITY> {
    fn default() -> (r: Self)
        ensures
            r@ == Seq::new(CAPACITY as nat, |i: int| 0u8),
    {
        let r = TlvCollection { buffer: [0u8; CAPACITY] };
        assert(r@ =~= Seq::new(CAPACITY as nat, |i: int| 0u8));
        r
    }
}

impl<const CAPACITY: usize> TlvCollection<CAPACITY> {
    /// The view holds all `CAPACITY` bytes.
    pub proof fn lemma_view_len(&self)
        ensures
            self@.len() == CAPACITY,
    {
    }

    /// Takes a buffer as it stands; its contents are not checked.
    pub fn new_from_static(buffer: [u8; CAPACITY]) -> (r: Self)
        ensures
            r@ == buffer@,
    {
        TlvCollection { buffer }
    }

    /// A collection from hex text of at most `2 * CAPACITY` digits, the rest
    /// of the buffer zero. Fails with `BufferMaxLength` when the text is
    /// longer, and with `HexError` when it is not even-length hex text.
    pub fn new_from_str(collection: &str) -> (r: Result<Self, TwineTlvError>)
        ensures
            collection.spec_bytes().len() / 2 > CAPACITY ==> r == Err::<Self, TwineTlvError>(
                TwineTlvError::BufferMaxLength,
            ),
            collection.spec_bytes().len() / 2 <= CAPACITY && !(collection.spec_bytes().len() % 2
                == 0 && all_hex_digits(collection.spec_bytes())) ==> r == Err::<Self, TwineTlvError>(
                TwineTlvError::HexError,
            ),
            collection.spec_bytes().len() / 2 <= CAPACITY && collection.spec_bytes().len() % 2 == 0
                && all_hex_digits(collection.spec_bytes()) ==> (r matches Ok(c) && c@ == hex_decoded(
                collection.spec_bytes(),
            ) + Seq::new(
                (CAPACITY - collection.spec_bytes().len() / 2) as nat,
                |i: int| 0u8,
            )),
    {
        let src = collection.as_bytes();
        let n = src.len() / 2;
        if n > CAPACITY {
            return Err(TwineTlvError::BufferMaxLength);
        }
        let mut buffer = [0u8; CAPACITY];
        if decode_hex_prefix(src, &mut buffer, n) {
            assert(src@.subrange(0, 2 * n) =~= src@);
            assert(buffer@ =~= hex_decoded(src@) + Seq::new((CAPACITY - n) as nat, |i: int| 0u8));
            Ok(TlvCollection { buffer })
        } else {
            Err(TwineTlvError::HexError)
        }
    }

    /// The buffer, all `CAPACITY` bytes of it.
    pub fn as_bytes(&self) -> (r: &[u8])
        ensures
            r@ == self@,
    {
        self.buffer.as_slice()
    }

    /// The header at `pos`: (header size, value length), when the type byte
    /// and the whole length field lie inside `buffer`.
    fn header(buffer: &[u8], pos: usize) -> (r: Option<(usize, usize)>)
        ensures
            r matches Some(h) ==> header_at(buffer@, pos as int) == Some((h.0 as nat, h.1 as nat)),
            r is None ==> header_at(buffer@, pos as int) is None,
    {
        let n = buffer.len();
        if pos >= n || n - pos < 2 {
            return None;
        }
        if buffer[pos + 1] == 0xFF {
            if n - pos < 4 {
                None
            } else {
                Some((4, get_u16(buffer, pos + 2) as usize))
            }
        } else {
            Some((2, buffer[pos + 1] as usize))
        }
    }

    /// The end of the record at `pos`, if a record starts there.
    pub(crate) fn record_end_at(buffer: &[u8], pos: usize) -> (r: Option<usize>)
        ensures
            r is Some <==> record_at(buffer@, pos as int),
            r matches Some(end) ==> end == record_end(buffer@, pos as int),
    {
        match Self::header(buffer, pos) {
            Some((h, l)) => {
                if l > 0 && l <= buffer.len() - pos - h {
                    Some(pos + h + l)
                } else {
                    None
                }
            },
            None => None,
        }
    }

    /// The value length declared at `pos` (bytes past the end read as zero).
    pub fn peek_tlv_len(buffer: &[u8], pos: usize) -> (r: usize)
        requires
            pos < usize::MAX - 3,
        ensures
            r as nat == crate::length::read_len_at(buffer@, pos + 1).0,
    {
        let (len, _n) = crate::length::read_length(buffer, pos + 1);
        len
    }

    /// The size of the record at `pos`: header and value (bytes past the
    /// end read as zero).
    pub fn next_tlv_position(buffer: &[u8], pos: usize) -> (r: usize)
        requires
            pos < usize::MAX - 3,
        ensures
            r as nat == 1 + crate::length::read_len_at(buffer@, pos + 1).1
                + crate::length::read_len_at(buffer@, pos + 1).0,
    {
        let (len, n) = crate::length::read_length(buffer, pos + 1);
        1 + n + len
    }

    /// Where the records of `buffer` end.
    pub fn find_buffer_len(buffer: &[u8]) -> (r: usize)
        ensures
            r == logical_len(buffer@),
    {
        let mut cursor: usize = 0;
        loop
            invariant
                0 <= cursor <= buffer@.len(),
                scan_end(buffer@, cursor as int) == scan_end(buffer@, 0),
            decreases buffer@.len() - cursor,
        {
            match Self::record_end_at(buffer, cursor) {
                Some(end) => {
                    proof {
                        lemma_record_end(buffer@, cursor as int);
                    }
                    cursor = end;
                },
                None => {
                    return cursor;
                },
            }
        }
    }

    /// The logical length: where the records end.
    pub fn len(&self) -> (r: usize)
        ensures
            r == logical_len(self@),
    {
        Self::find_buffer_len(self.buffer.as_slice())
    }

    /// The number of records.
    pub fn count(&self) -> (r: usize)
        ensures
            r == tlvs(self@).len(),
    {
        let buffer = self.buffer.as_slice();
        let mut count: usize = 0;
        let mut cursor: usize = 0;
        loop
            invariant
                0 <= cursor <= buffer@.len(),
                buffer@ == self@,
                count <= cursor,
                count + tlvs_from(buffer@, cursor as int).len() == tlvs(buffer@).len(),
            decreases buffer@.len() - cursor,
        {
            match Self::record_end_at(buffer, cursor) {
                Some(end) => {
                    proof {
                        lemma_record_end(buffer@, cursor as int);
                    }
                    count += 1;
                    cursor = end;
                },
                None => {
                    return count;
                },
            }
        }
    }

    /// The span of the first record of type `tlv_type` in `buffer`.
    pub fn find_tlv_with_type(tlv_type: u8, buffer: &[u8]) -> (r: Option<Range<usize>>)
        ensures
            r matches Some(range) ==> find_span(buffer@, tlv_type) == Some(
                (range.start as int, range.end as int),
            ),
            r is None ==> find_span(buffer@, tlv_type) is None,
    {
        let mut cursor: usize = 0;
        loop
            invariant
                0 <= cursor <= buffer@.len(),
                find_from(buffer@, cursor as int, tlv_type) == find_span(buffer@, tlv_type),
            decreases buffer@.len() - cursor,
        {
            match Self::record_end_at(buffer, cursor) {
                Some(end) => {
                    proof {
                        lemma_record_end(buffer@, cursor as int);
                    }
                    if buffer[cursor] == tlv_type {
                        return Some(Range { start: cursor, end });
                    }
                    cursor = end;
                },
                None => {
                    return None;
                },
            }
        }
    }

    /// Whether a record of type `tlv_type` is present.
    pub fn contains_tlv(&self, tlv_type: u8) -> (r: bool)
        ensures
            r == find_span(self@, tlv_type) is Some,
    {
        self.find_tlv(tlv_type).is_some()
    }

    /// The bytes of the first record of type `tlv_type`, type byte and length
    /// field included.
    pub fn find_tlv(&self, tlv_type: u8) -> (r: Option<&[u8]>)
        ensures
            r matches Some(s) ==> find_span(self@, tlv_type) matches Some(span) && s@ == self@.subrange(
                span.0,
                span.1,
            ),
            r is None ==> find_span(self@, tlv_type) is None,
    {
        let buffer = self.buffer.as_slice();
        proof {
            lemma_find_bounds(buffer@, 0, tlv_type);
        }
        match Self::find_tlv_with_type(tlv_type, buffer) {
            Some(range) => Some(vstd::slice::slice_subrange(buffer, range.start, range.end)),
            None => None,
        }
    }

    /// Reads the first record of type `T::TLV_TYPE` as a `T`. The record is
    /// trusted to be one that `T` wrote.
    pub fn decode_type_unchecked<T: DecodeTlvUnchecked + TlvMetadata>(&self) -> (r: Option<T>)
        ensures
            r == decoded::<T>(self@),
    {
        match self.find_tlv(T::TLV_TYPE) {
            Some(record) => Some(T::decode_tlv_unchecked(record)),
            None => None,
        }
    }

    /// Takes out the bytes `[start, end)`, moves what follows to the left
    /// and fills the end with zeros.
    fn remove_data_and_compact_buffer(buffer: &mut [u8; CAPACITY], start: usize, end: usize)
        requires
            start <= end <= CAPACITY,
        ensures
            final(buffer)@ == compacted(old(buffer)@, start as int, end as int),
    {
        let width = end - start;
        let mut i: usize = start;
        while i < CAPACITY
            invariant
                start <= i <= CAPACITY,
                start <= end <= CAPACITY,
                width == end - start,
                buffer@.len() == CAPACITY,
                forall|k: int| 0 <= k < start ==> buffer@[k] == old(buffer)@[k],
                forall|k: int|
                    start <= k < i ==> buffer@[k] == compacted(
                        old(buffer)@,
                        start as int,
                        end as int,
                    )[k],
                forall|k: int| i <= k < CAPACITY ==> buffer@[k] == old(buffer)@[k],
            decreases CAPACITY - i,
        {
            let b: u8 = if i < CAPACITY - width {
                buffer[i + width]
            } else {
                0
            };
            proof {
                let c = compacted(old(buffer)@, start as int, end as int);
                assert(c.len() == CAPACITY);
                if i < CAPACITY - width {
                    assert(c[i as int] == old(buffer)@[i + width]);
                } else {
                    assert(c[i as int] == 0);
                }
            }
            buffer[i] = b;
            i += 1;
        }
        assert(buffer@ =~= compacted(old(buffer)@, start as int, end as int));
    }

    /// Appends a record at the end of the collection; returns its size.
    /// Fails with `BufferMaxLength`, and changes nothing, when it would not
    /// fit in the capacity.
    pub fn push<T: TryEncodeTlv + TlvMetadata>(&mut self, tlv: T) -> (r: Result<
        usize,
        TwineTlvError,
    >)
        ensures
            (r, final(self)@) == push_outcome(old(self)@, T::TLV_TYPE, tlv.value_bytes()),
            r is Ok <==> tlv.value_bytes().len() <= u16::MAX && logical_len(old(self)@)
                + encoded_size(tlv.value_bytes().len()) <= CAPACITY,
            r is Err ==> final(self)@ == old(self)@,
    {
        let len = self.len();
        let value_len = tlv.tlv_len();
        proof {
            lemma_scan_bounds(self@, 0);
        }
        if value_len > 0xFFFF || value_len > CAPACITY - len || CAPACITY - len - value_len < (
        if value_len < 0xFF {
            2
        } else {
            4
        }) {
            return Err(TwineTlvError::BufferMaxLength);
        }
        tlv.try_encode_tlv_at(&mut self.buffer, len)
    }

    /// Removes the first record of type `T::TLV_TYPE`, moving the records
    /// after it to the left. Nothing happens when there is none.
    pub fn remove<T: TlvMetadata>(&mut self)
        ensures
            find_span(old(self)@, T::TLV_TYPE) matches Some(span) ==> final(self)@ == compacted(
                old(self)@,
                span.0,
                span.1,
            ),
            find_span(old(self)@, T::TLV_TYPE) is None ==> final(self)@ == old(self)@,
    {
        proof {
            lemma_find_bounds(self@, 0, T::TLV_TYPE);
        }
        match Self::find_tlv_with_type(T::TLV_TYPE, self.buffer.as_slice()) {
            Some(range) => {
                Self::remove_data_and_compact_buffer(&mut self.buffer, range.start, range.end);
            },
            None => {},
        }
    }

    /// Replaces the first record of type `T::TLV_TYPE` with `tlv`. A type of
    /// constant length is written over the old record, at the same offset; a
    /// type of variable length is removed and then appended at the end.
    /// Nothing happens when there is no such record.
    pub fn replace<T: TryEncodeTlv + TlvMetadata>(&mut self, tlv: T) -> (r: Result<
        (),
        TwineTlvError,
    >)
        ensures
            (r, final(self)@) == replace_outcome(
                old(self)@,
                T::TLV_TYPE,
                tlv.value_bytes(),
                T::constant_len(),
            ),
    {
        proof {
            lemma_find_bounds(self@, 0, T::TLV_TYPE);
        }
        match Self::find_tlv_with_type(T::TLV_TYPE, self.buffer.as_slice()) {
            Some(range) => {
                if T::tlv_len_is_constant() {
                    match tlv.try_encode_tlv_at(&mut self.buffer, range.start) {
                        Ok(_) => Ok(()),
                        Err(e) => Err(e),
                    }
                } else {
                    Self::remove_data_and_compact_buffer(&mut self.buffer, range.start, range.end);
                    match self.push(tlv) {
                        Ok(_) => Ok(()),
                        Err(e) => Err(e),
                    }
                }
            },
            None => Ok(()),
        }
    }
}

} // verus!
