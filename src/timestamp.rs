//! Timestamps and the delay timer.
use vstd::prelude::*;

use crate::be::{be32, be64, get_u32, get_u64, put_u32, put_u64, read_be32, read_be64, splice};
use crate::error::TwineTlvError;
use crate::random::unix_time_seconds;
use crate::traits::{
    DecodeTlvUnchecked, DecodeTlvValueUnchecked, TlvConstantMetadata, TlvLength, TlvMetadata,
    TlvType, TryEncodeTlv, TryEncodeTlvValue,
};

verus! {

/// Whether a timestamp comes from an authoritative source.
#[derive(Clone, Copy, Debug, PartialEq, Eq)]
pub struct Authoritative(pub bool);

/// A Thread timestamp: seconds (48 bits), ticks of 1/32768 s (15 bits) and
/// the authoritative flag.
#[derive(Clone, Copy, Debug, PartialEq, Eq)]
pub struct Timestamp {
    pub seconds: u64,
    pub ticks: u16,
    pub auth: Authoritative,
}

impl View for Timestamp {
    /// (seconds, ticks, authoritative)
    type V = (u64, u16, bool);

    open spec fn view(&self) -> (u64, u16, bool) {
        (self.seconds, self.ticks, self.auth.0)
    }
}

/// The 64-bit form: `seconds << 16 | ticks << 1 | authoritative`.
pub open spec fn timestamp_bits(seconds: u64, ticks: u16, auth: bool) -> u64 {
    (seconds << 16u64) | (((ticks & 0x7FFFu16) as u64) << 1u64) | (if auth {
        1u64
    } else {
        0u64
    })
}

/// The timestamp that a 64-bit form stands for.
pub open spec fn timestamp_of_bits(v: u64) -> (u64, u16, bool) {
    (v >> 16u64, ((v >> 1u64) & 0x7FFFu64) as u16, v & 1u64 == 1u64)
}

/// Reading a timestamp's 64-bit form gives it back, when its seconds fit in
/// 48 bits and its ticks in 15.
pub proof fn lemma_timestamp_bits_round_trip(seconds: u64, ticks: u16, auth: bool)
    requires
        seconds < 0x1_0000_0000_0000,
        ticks < 0x8000,
    ensures
        timestamp_of_bits(timestamp_bits(seconds, ticks, auth)) == (seconds, ticks, auth),
{
    let a: u64 = if auth {
        1u64
    } else {
        0u64
    };
    let v = (seconds << 16u64) | (((ticks & 0x7FFFu16) as u64) << 1u64) | a;
    assert(v >> 16u64 == seconds && ((v >> 1u64) & 0x7FFFu64) as u16 == ticks && (v & 1u64 == 1u64)
        == (a == 1u64)) by (bit_vector)
        requires
            seconds < 0x1_0000_0000_0000u64,
            ticks < 0x8000u16,
            a <= 1u64,
            v == (seconds << 16u64) | (((ticks & 0x7FFFu16) as u64) << 1u64) | a,
    ;
}

impl Timestamp {
    pub fn new(seconds: u64, ticks: u16, auth: Authoritative) -> (r: Self)
        ensures
            r@ == (seconds, ticks, auth.0),
    {
        Timestamp { seconds, ticks, auth }
    }

    /// The time now, with no ticks; `None` when the clock reads earlier than
    /// the Unix epoch.
    pub fn now(auth: Authoritative) -> (r: Option<Self>)
        ensures
            r matches Some(t) ==> t@.1 == 0 && t@.2 == auth.0,
    {
        match unix_time_seconds() {
            Some(seconds) => Some(Timestamp { seconds, ticks: 0, auth }),
            None => None,
        }
    }

    pub fn seconds(&self) -> (r: u64)
        ensures
            r == self@.0,
    {
        self.seconds
    }

    pub fn ticks(&self) -> (r: u16)
        ensures
            r == self@.1,
    {
        self.ticks
    }

    pub fn is_authoritative(&self) -> (r: bool)
        ensures
            r == self@.2,
    {
        self.auth.0
    }

    /// The 64-bit form: `seconds << 16 | ticks << 1 | authoritative`.
    pub fn to_bits(&self) -> (r: u64)
        ensures
            r == timestamp_bits(self@.0, self@.1, self@.2),
    {
        let a: u64 = if self.auth.0 {
            1
        } else {
            0
        };
        (self.seconds << 16u64) | (((self.ticks & 0x7FFFu16) as u64) << 1u64) | a
    }

    /// The timestamp that a 64-bit form stands for.
    pub fn from_bits(v: u64) -> (r: Self)
        ensures
            r@ == timestamp_of_bits(v),
    {
        Timestamp {
            seconds: v >> 16u64,
            ticks: ((v >> 1u64) & 0x7FFFu64) as u16,
            auth: Authoritative(v & 1u64 == 1u64),
        }
    }
}

impl From<(u64, u16, Authoritative)> for Timestamp {
    fn from(v: (u64, u16, Authoritative)) -> (r: Timestamp)
        ensures
            r@ == (v.0, v.1, v.2.0),
    {
        Timestamp { seconds: v.0, ticks: v.1, auth: v.2 }
    }
}

impl vstd::std_specs::convert::FromSpecImpl<(u64, u16, Authoritative)> for Timestamp {
    open spec fn obeys_from_spec() -> bool {
        true
    }

    open spec fn from_spec(v: (u64, u16, Authoritative)) -> Timestamp {
        Timestamp { seconds: v.0, ticks: v.1, auth: v.2 }
    }
}

/// The timestamp of the active operational dataset.
#[derive(Clone, Copy, Debug, PartialEq, Eq)]
pub struct ActiveTimestamp(pub Timestamp);

/// The timestamp of the pending operational dataset.
#[derive(Clone, Copy, Debug, PartialEq, Eq)]
pub struct PendingTimestamp(pub Timestamp);

impl From<Timestamp> for ActiveTimestamp {
    fn from(v: Timestamp) -> (r: ActiveTimestamp)
        ensures
            r.0 == v,
    {
        ActiveTimestamp(v)
    }
}

impl vstd::std_specs::convert::FromSpecImpl<Timestamp> for ActiveTimestamp {
    open spec fn obeys_from_spec() -> bool {
        true
    }

    open spec fn from_spec(v: Timestamp) -> ActiveTimestamp {
        ActiveTimestamp(v)
    }
}

impl From<ActiveTimestamp> for Timestamp {
    fn from(v: ActiveTimestamp) -> (r: Timestamp)
        ensures
            r == v.0,
    {
        v.0
    }
}

impl vstd::std_specs::convert::FromSpecImpl<ActiveTimestamp> for Timestamp {
    open spec fn obeys_from_spec() -> bool {
        true
    }

    open spec fn from_spec(v: ActiveTimestamp) -> Timestamp {
        v.0
    }
}

impl TlvType for ActiveTimestamp {
    const TLV_TYPE: u8 = 0x0E;
}

impl TlvLength for ActiveTimestamp {
    open spec fn value_bytes(&self) -> Seq<u8> {
        be64(timestamp_bits(self.0@.0, self.0@.1, self.0@.2))
    }

    open spec fn constant_len() -> bool {
        true
    }

    fn tlv_len(&self) -> (r: usize) {
        8
    }

    fn tlv_len_is_constant() -> (r: bool) {
        true
    }
}

impl TlvMetadata for ActiveTimestamp {

}

impl TlvConstantMetadata for ActiveTimestamp {
    const TLV_LEN: usize = 8;

    proof fn lemma_constant_len(&self)
        ensures
            self.value_bytes().len() == 8,
    {
    }
}

impl TryEncodeTlvValue for ActiveTimestamp {
    fn try_encode_tlv_value(&self, buffer: &mut [u8], pos: usize) -> (r: Result<usize, TwineTlvError>) {
        if pos > buffer.len() || buffer.len() - pos < 8 {
            return Err(TwineTlvError::BufferEncodeTooShort);
        }
        put_u64(buffer, pos, self.0.to_bits());
        Ok(8)
    }
}

impl DecodeTlvValueUnchecked for ActiveTimestamp {
    open spec fn decode_value(bytes: Seq<u8>) -> ActiveTimestamp {
        ActiveTimestamp(Timestamp { seconds: timestamp_of_bits(read_be64(bytes, 0)).0, ticks: timestamp_of_bits(read_be64(bytes, 0)).1, auth: Authoritative(timestamp_of_bits(read_be64(bytes, 0)).2) })
    }

    open spec fn well_formed(&self) -> bool {
        self.0@.0 < 0x1_0000_0000_0000 && self.0@.1 < 0x8000
    }

    fn decode_tlv_value_unchecked(buffer: &[u8]) -> (r: ActiveTimestamp) {
        ActiveTimestamp(Timestamp::from_bits(get_u64(buffer, 0)))
    }

    proof fn lemma_decode_encoded(&self) {
        let v = timestamp_bits(self.0@.0, self.0@.1, self.0@.2);
        crate::be::lemma_be64_round_trip(v);
        lemma_timestamp_bits_round_trip(self.0@.0, self.0@.1, self.0@.2);
    }
}

impl DecodeTlvUnchecked for ActiveTimestamp {

}

impl TryEncodeTlv for ActiveTimestamp {

}

impl From<Timestamp> for PendingTimestamp {
    fn from(v: Timestamp) -> (r: PendingTimestamp)
        ensures
            r.0 == v,
    {
        PendingTimestamp(v)
    }
}

impl vstd::std_specs::convert::FromSpecImpl<Timestamp> for PendingTimestamp {
    open spec fn obeys_from_spec() -> bool {
        true
    }

    open spec fn from_spec(v: Timestamp) -> PendingTimestamp {
        PendingTimestamp(v)
    }
}

impl From<PendingTimestamp> for Timestamp {
    fn from(v: PendingTimestamp) -> (r: Timestamp)
        ensures
            r == v.0,
    {
        v.0
    }
}

impl vstd::std_specs::convert::FromSpecImpl<PendingTimestamp> for Timestamp {
    open spec fn obeys_from_spec() -> bool {
        true
    }

    open spec fn from_spec(v: PendingTimestamp) -> Timestamp {
        v.0
    }
}

impl TlvType for PendingTimestamp {
    const TLV_TYPE: u8 = 0x33;
}

impl TlvLength for PendingTimestamp {
    open spec fn value_bytes(&self) -> Seq<u8> {
        be64(timestamp_bits(self.0@.0, self.0@.1, self.0@.2))
    }

    open spec fn constant_len() -> bool {
        true
    }

    fn tlv_len(&self) -> (r: usize) {
        8
    }

    fn tlv_len_is_constant() -> (r: bool) {
        true
    }
}

impl TlvMetadata for PendingTimestamp {

}

impl TlvConstantMetadata for PendingTimestamp {
    const TLV_LEN: usize = 8;

    proof fn lemma_constant_len(&self)
        ensures
            self.value_bytes().len() == 8,
    {
    }
}

impl TryEncodeTlvValue for PendingTimestamp {
    fn try_encode_tlv_value(&self, buffer: &mut [u8], pos: usize) -> (r: Result<usize, TwineTlvError>) {
        if pos > buffer.len() || buffer.len() - pos < 8 {
            return Err(TwineTlvError::BufferEncodeTooShort);
        }
        put_u64(buffer, pos, self.0.to_bits());
        Ok(8)
    }
}

impl DecodeTlvValueUnchecked for PendingTimestamp {
    open spec fn decode_value(bytes: Seq<u8>) -> PendingTimestamp {
        PendingTimestamp(Timestamp { seconds: timestamp_of_bits(read_be64(bytes, 0)).0, ticks: timestamp_of_bits(read_be64(bytes, 0)).1, auth: Authoritative(timestamp_of_bits(read_be64(bytes, 0)).2) })
    }

    open spec fn well_formed(&self) -> bool {
        self.0@.0 < 0x1_0000_0000_0000 && self.0@.1 < 0x8000
    }

    fn decode_tlv_value_unchecked(buffer: &[u8]) -> (r: PendingTimestamp) {
        PendingTimestamp(Timestamp::from_bits(get_u64(buffer, 0)))
    }

    proof fn lemma_decode_encoded(&self) {
        let v = timestamp_bits(self.0@.0, self.0@.1, self.0@.2);
        crate::be::lemma_be64_round_trip(v);
        lemma_timestamp_bits_round_trip(self.0@.0, self.0@.1, self.0@.2);
    }
}

impl DecodeTlvUnchecked for PendingTimestamp {

}

impl TryEncodeTlv for PendingTimestamp {

}

/// The delay before a pending dataset is applied, in milliseconds.
#[derive(Clone, Copy, Debug, Default, PartialEq, Eq)]
pub struct DelayTimer(pub u32);

impl View for DelayTimer {
    type V = u32;

    open spec fn view(&self) -> u32 {
        self.0
    }
}

impl DelayTimer {
    pub fn new(millis: u32) -> (r: Self)
        ensures
            r@ == millis,
    {
        DelayTimer(millis)
    }

    pub fn millis(&self) -> (r: u32)
        ensures
            r == self@,
    {
        self.0
    }
}

impl TlvType for DelayTimer {
    const TLV_TYPE: u8 = 0x34;
}

impl TlvLength for DelayTimer {
    open spec fn value_bytes(&self) -> Seq<u8> {
        be32(self.0)
    }

    open spec fn constant_len() -> bool {
        true
    }

    fn tlv_len(&self) -> (r: usize) {
        4
    }

    fn tlv_len_is_constant() -> (r: bool) {
        true
    }
}

impl TlvMetadata for DelayTimer {

}

impl TlvConstantMetadata for DelayTimer {
    const TLV_LEN: usize = 4;

    proof fn lemma_constant_len(&self)
        ensures
            self.value_bytes().len() == 4,
    {
    }
}

impl TryEncodeTlvValue for DelayTimer {
    fn try_encode_tlv_value(&self, buffer: &mut [u8], pos: usize) -> (r: Result<usize, TwineTlvError>) {
        if pos > buffer.len() || buffer.len() - pos < 4 {
            return Err(TwineTlvError::BufferEncodeTooShort);
        }
        put_u32(buffer, pos, self.0);
        Ok(4)
    }
}

impl DecodeTlvValueUnchecked for DelayTimer {
    open spec fn decode_value(bytes: Seq<u8>) -> DelayTimer {
        DelayTimer(read_be32(bytes, 0))
    }

    open spec fn well_formed(&self) -> bool {
        true
    }

    fn decode_tlv_value_unchecked(buffer: &[u8]) -> (r: DelayTimer) {
        DelayTimer(get_u32(buffer, 0))
    }

    proof fn lemma_decode_encoded(&self) {
        crate::be::lemma_be32_round_trip(self.0);
    }
}

impl DecodeTlvUnchecked for DelayTimer {

}

impl TryEncodeTlv for DelayTimer {

}

/// The type bytes and lengths of the timestamp and delay records.
pub proof fn lemma_timestamp_tlv_types()
    ensures
        ActiveTimestamp::TLV_TYPE == 0x0E && ActiveTimestamp::TLV_LEN == 8,
        PendingTimestamp::TLV_TYPE == 0x33 && PendingTimestamp::TLV_LEN == 8,
        DelayTimer::TLV_TYPE == 0x34 && DelayTimer::TLV_LEN == 4,
{
}

} // verus!
