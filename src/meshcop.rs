//! MeshCoP record tags, and records with a one-byte length read one after
//! another from a byte sequence.
use vstd::prelude::*;

use crate::codec_error::TwineCodecError;

verus! {

/// The MeshCoP record types this library names.
#[derive(Clone, Copy, Debug, PartialEq, Eq, Structural)]
pub enum MeshCopTlvTag {
    Channel,
    PanId,
    ExtendedPanId,
    NetworkName,
    Pskc,
    NetworkKey,
    NetworkMeshLocalPrefix,
    SteeringData,
    SecurityPolicy,
    ActiveTimestamp,
    ChannelMask,
    WakeUpChannel,
    /// Any other type byte.
    Unknown(u8),
}

/// The tag of the type byte `v`.
pub open spec fn tag_of(v: u8) -> MeshCopTlvTag {
    if v == 0 {
        MeshCopTlvTag::Channel
    } else if v == 1 {
        MeshCopTlvTag::PanId
    } else if v == 2 {
        MeshCopTlvTag::ExtendedPanId
    } else if v == 3 {
        MeshCopTlvTag::NetworkName
    } else if v == 4 {
        MeshCopTlvTag::Pskc
    } else if v == 5 {
        MeshCopTlvTag::NetworkKey
    } else if v == 7 {
        MeshCopTlvTag::NetworkMeshLocalPrefix
    } else if v == 8 {
        MeshCopTlvTag::SteeringData
    } else if v == 12 {
        MeshCopTlvTag::SecurityPolicy
    } else if v == 14 {
        MeshCopTlvTag::ActiveTimestamp
    } else if v == 53 {
        MeshCopTlvTag::ChannelMask
    } else if v == 74 {
        MeshCopTlvTag::WakeUpChannel
    } else {
        MeshCopTlvTag::Unknown(v)
    }
}

/// The type byte of the tag `t`.
pub open spec fn tag_value(t: MeshCopTlvTag) -> u8 {
    match t {
        MeshCopTlvTag::Channel => 0,
        MeshCopTlvTag::PanId => 1,
        MeshCopTlvTag::ExtendedPanId => 2,
        MeshCopTlvTag::NetworkName => 3,
        MeshCopTlvTag::Pskc => 4,
        MeshCopTlvTag::NetworkKey => 5,
        MeshCopTlvTag::NetworkMeshLocalPrefix => 7,
        MeshCopTlvTag::SteeringData => 8,
        MeshCopTlvTag::SecurityPolicy => 12,
        MeshCopTlvTag::ActiveTimestamp => 14,
        MeshCopTlvTag::ChannelMask => 53,
        MeshCopTlvTag::WakeUpChannel => 74,
        MeshCopTlvTag::Unknown(v) => v,
    }
}

/// Every type byte comes back from its tag.
pub proof fn lemma_tag_round_trip(v: u8)
    ensures
        tag_value(tag_of(v)) == v,
{
}

impl From<u8> for MeshCopTlvTag {
    fn from(value: u8) -> (r: MeshCopTlvTag)
        ensures
            r == tag_of(value),
    {
        match value {
            0 => MeshCopTlvTag::Channel,
            1 => MeshCopTlvTag::PanId,
            2 => MeshCopTlvTag::ExtendedPanId,
            3 => MeshCopTlvTag::NetworkName,
            4 => MeshCopTlvTag::Pskc,
            5 => MeshCopTlvTag::NetworkKey,
            7 => MeshCopTlvTag::NetworkMeshLocalPrefix,
            8 => MeshCopTlvTag::SteeringData,
            12 => MeshCopTlvTag::SecurityPolicy,
            14 => MeshCopTlvTag::ActiveTimestamp,
            53 => MeshCopTlvTag::ChannelMask,
            74 => MeshCopTlvTag::WakeUpChannel,
            _ => MeshCopTlvTag::Unknown(value),
        }
    }
}

impl vstd::std_specs::convert::FromSpecImpl<u8> for MeshCopTlvTag {
    open spec fn obeys_from_spec() -> bool {
        true
    }

    open spec fn from_spec(value: u8) -> MeshCopTlvTag {
        tag_of(value)
    }
}

impl From<MeshCopTlvTag> for u8 {
    fn from(value: MeshCopTlvTag) -> (r: u8)
        ensures
            r == tag_value(value),
    {
        match value {
            MeshCopTlvTag::Channel => 0,
            MeshCopTlvTag::PanId => 1,
            MeshCopTlvTag::ExtendedPanId => 2,
            MeshCopTlvTag::NetworkName => 3,
            MeshCopTlvTag::Pskc => 4,
            MeshCopTlvTag::NetworkKey => 5,
            MeshCopTlvTag::NetworkMeshLocalPrefix => 7,
            MeshCopTlvTag::SteeringData => 8,
            MeshCopTlvTag::SecurityPolicy => 12,
            MeshCopTlvTag::ActiveTimestamp => 14,
            MeshCopTlvTag::ChannelMask => 53,
            MeshCopTlvTag::WakeUpChannel => 74,
            MeshCopTlvTag::Unknown(v) => v,
        }
    }
}

impl vstd::std_specs::convert::FromSpecImpl<MeshCopTlvTag> for u8 {
    open spec fn obeys_from_spec() -> bool {
        true
    }

    open spec fn from_spec(value: MeshCopTlvTag) -> u8 {
        tag_value(value)
    }
}

pub const MESHCOP_TLV_TYPE_NAME: &'static str = "MeshCopTlv";

/// A MeshCoP record with a one-byte length: tag, length, value.
#[derive(Clone, Debug, PartialEq, Eq)]
pub struct MeshCopTlv {
    tag: MeshCopTlvTag,
    length: u8,
    value: Vec<u8>,
}

impl View for MeshCopTlv {
    /// (tag, length, value)
    type V = (MeshCopTlvTag, u8, Seq<u8>);

    closed spec fn view(&self) -> (MeshCopTlvTag, u8, Seq<u8>) {
        (self.tag, self.length, self.value@)
    }
}

impl MeshCopTlv {
    pub fn tag(&self) -> (r: MeshCopTlvTag)
        ensures
            r == self@.0,
    {
        self.tag
    }

    /// The length that the record declares.
    pub fn length(&self) -> (r: usize)
        ensures
            r == self@.1,
    {
        self.length as usize
    }

    pub fn value(&self) -> (r: &[u8])
        ensures
            r@ == self@.2,
    {
        self.value.as_slice()
    }

    /// Reads the record at `pos`; returns it with the position after it.
    /// Fails with `BufferBytesConversion` when the bytes end before it does.
    pub fn decode(bytes: &[u8], pos: usize) -> (r: Result<(Self, usize), TwineCodecError>)
        ensures
            (pos + 2 <= bytes@.len() && pos + 2 + bytes@[pos + 1] <= bytes@.len()) ==> (r matches Ok(
                (tlv, next),
            ) && tlv@ == (tag_of(bytes@[pos as int]), bytes@[pos + 1], bytes@.subrange(
                pos + 2,
                pos + 2 + bytes@[pos + 1],
            )) && next == pos + 2 + bytes@[pos + 1]),
            !(pos + 2 <= bytes@.len() && pos + 2 + bytes@[pos + 1] <= bytes@.len()) ==> r == Err::<
                (Self, usize),
                TwineCodecError,
            >(TwineCodecError::BufferBytesConversion(MESHCOP_TLV_TYPE_NAME)),
    {
        if pos >= bytes.len() || bytes.len() - pos < 2 {
            return Err(TwineCodecError::BufferBytesConversion(MESHCOP_TLV_TYPE_NAME));
        }
        let length = bytes[pos + 1];
        if bytes.len() - pos - 2 < length as usize {
            return Err(TwineCodecError::BufferBytesConversion(MESHCOP_TLV_TYPE_NAME));
        }
        let start = pos + 2;
        let end = start + length as usize;
        let value = vstd::slice::slice_to_vec(vstd::slice::slice_subrange(bytes, start, end));
        Ok((MeshCopTlv { tag: MeshCopTlvTag::from(bytes[pos]), length, value }, end))
    }

    /// Appends the record: type byte, declared length, value.
    pub fn encode(&self, out: &mut Vec<u8>)
        ensures
            final(out)@ == old(out)@ + seq![tag_value(self@.0), self@.1] + self@.2,
    {
        out.push(u8::from(self.tag));
        out.push(self.length);
        let mut i: usize = 0;
        while i < self.value.len()
            invariant
                i <= self.value@.len(),
                out@ == old(out)@ + seq![tag_value(self@.0), self@.1] + self.value@.subrange(
                    0,
                    i as int,
                ),
            decreases self.value@.len() - i,
        {
            out.push(self.value[i]);
            i += 1;
            assert(out@ =~= old(out)@ + seq![tag_value(self@.0), self@.1] + self.value@.subrange(
                0,
                i as int,
            ));
        }
        assert(self.value@.subrange(0, self.value@.len() as int) =~= self.value@);
    }
}

/// The bytes of the records `rs` (as views), each encoded in turn.
pub open spec fn meshcop_encoded(rs: Seq<(MeshCopTlvTag, u8, Seq<u8>)>) -> Seq<u8>
    decreases rs.len(),
{
    if rs.len() == 0 {
        Seq::empty()
    } else {
        meshcop_encoded(rs.drop_last()) + seq![tag_value(rs.last().0), rs.last().1] + rs.last().2
    }
}

/// The most records an `OperationalDatasetTlvsVec` holds.
pub const MESHCOP_TLVS_MAX: usize = 32;

/// Up to 32 MeshCoP records, to be put together into one dataset.
#[derive(Clone, Debug, PartialEq, Eq)]
pub struct OperationalDatasetTlvsVec {
    tlvs: Vec<MeshCopTlv>,
}

impl View for OperationalDatasetTlvsVec {
    type V = Seq<(MeshCopTlvTag, u8, Seq<u8>)>;

    closed spec fn view(&self) -> Seq<(MeshCopTlvTag, u8, Seq<u8>)> {
        self.tlvs@.map_values(|t: MeshCopTlv| t@)
    }
}

impl OperationalDatasetTlvsVec {
    pub fn new() -> (r: Self)
        ensures
            r@ == Seq::<(MeshCopTlvTag, u8, Seq<u8>)>::empty(),
    {
        let r = OperationalDatasetTlvsVec { tlvs: Vec::new() };
        assert(r@ =~= Seq::<(MeshCopTlvTag, u8, Seq<u8>)>::empty());
        r
    }

    /// Adds a record at the end; when 32 are held already, hands it back.
    pub fn push(&mut self, tlv: MeshCopTlv) -> (r: Result<(), MeshCopTlv>)
        ensures
            old(self)@.len() < MESHCOP_TLVS_MAX ==> r is Ok && final(self)@ == old(self)@.push(
                tlv@,
            ),
            old(self)@.len() >= MESHCOP_TLVS_MAX ==> r == Err::<(), MeshCopTlv>(tlv)
                && final(self)@ == old(self)@,
    {
        if self.tlvs.len() >= MESHCOP_TLVS_MAX {
            return Err(tlv);
        }
        self.tlvs.push(tlv);
        assert(self@ =~= old(self)@.push(tlv@));
        Ok(())
    }

    /// The records' bytes, each encoded in turn.
    pub fn to_bytes(&self) -> (r: Vec<u8>)
        ensures
            r@ == meshcop_encoded(self@),
    {
        let mut out: Vec<u8> = Vec::new();
        let mut i: usize = 0;
        while i < self.tlvs.len()
            invariant
                i <= self.tlvs@.len(),
                out@ == meshcop_encoded(self@.subrange(0, i as int)),
            decreases self.tlvs@.len() - i,
        {
            self.tlvs[i].encode(&mut out);
            proof {
                let rs = self@.subrange(0, i + 1);
                assert(rs.drop_last() =~= self@.subrange(0, i as int));
                assert(rs.last() == self.tlvs@[i as int]@);
            }
            i += 1;
        }
        assert(self@.subrange(0, self@.len() as int) =~= self@);
        out
    }

    /// The number of bytes the records take, encoded.
    pub fn dataset_length(&self) -> (r: usize)
        ensures
            r == meshcop_encoded(self@).len(),
    {
        self.to_bytes().len()
    }

    /// Whether the records fit in an operational dataset (254 bytes).
    pub fn is_valid(&self) -> (r: bool)
        ensures
            r == (meshcop_encoded(self@).len() <= 254),
    {
        self.dataset_length() <= 254
    }
}

} // verus!
