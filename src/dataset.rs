//! The operational dataset: the records of a Thread network's parameters.
use vstd::prelude::*;
use vstd::string::{StringExecFns, StringSliceAdditionalSpecFns};

use crate::codec_error::TwineCodecError;
use crate::collection::{
    decoded, find_span, logical_len, push_outcome, replace_outcome, tlvs_from, tlvs, record_at,
    record_end, TlvCollection,
};
use crate::error::TwineTlvError;
use crate::keys::{ExtendedPanId, MeshLocalPrefix, NetworkKey, Pskc};
use crate::network_name::NetworkName;
use crate::radio::{Channel, ChannelMask, PanId};
use crate::security_policy::SecurityPolicy;
use crate::laws::{lemma_push_appends, tail_is_zero};
use crate::be::{be16, be32, be64};
use crate::keys::{prefix_text, ULA_PREFIX_BYTE};
use crate::meshcop::{meshcop_encoded, OperationalDatasetTlvsVec};
use crate::network_name::twine_name_bytes;
use crate::radio::{reverse_bits, DEFAULT_CHANNEL_MASK};
use crate::security_policy::DEFAULT_SECURITY_POLICY;
use crate::timestamp::timestamp_bits;
use crate::tlv::tlv_bytes;
use crate::security_policy::policy_text;
use crate::text::{
    all_hex_digits, decimal, decode_hex_exact, hex_decoded, hex_encode, hex_lower, hex_padded,
    push_decimal, push_decimal_u64, push_hex_bytes, push_hex_padded,
};
use crate::timestamp::{ActiveTimestamp, Authoritative, DelayTimer, PendingTimestamp, Timestamp};
use crate::traits::{
    record_value, DecodeTlvUnchecked, DecodeTlvValueUnchecked, TlvConstantMetadata, TlvLength,
    TlvType,
};

verus! {

/// The most bytes an operational dataset's records take.
pub const OPERATIONAL_DATASET_MAX_SIZE: usize = 256;

/// The most bytes of a dataset as a plain byte array.
pub const OPERATIONAL_DATASET_MAX_LENGTH: usize = 254;

pub const OPERATIONAL_DATASET_TLVS_TYPE_NAME: &'static str = "OperationalDatasetTlvs";

/// The records of an operational dataset, in a buffer of
/// `OPERATIONAL_DATASET_MAX_SIZE` bytes.
#[derive(Clone, Copy, Debug)]
pub struct OperationalDataset {
    collection: TlvCollection<OPERATIONAL_DATASET_MAX_SIZE>,
}

impl View for OperationalDataset {
    type V = Seq<u8>;

    closed spec fn view(&self) -> Seq<u8> {
        self.collection@
    }
}

/// Maps an error of the record layer into the dataset's errors.
pub open spec fn codec_result(r: Result<(), TwineTlvError>) -> Result<(), TwineCodecError> {
    match r {
        Ok(()) => Ok(()),
        Err(e) => Err(TwineCodecError::Tlv(e)),
    }
}

/// The records of a dataset that `OperationalDataset::random` makes, from
/// the clock's seconds and the values drawn at random.
pub open spec fn random_dataset_records(
    seconds: u64,
    channel: u16,
    xpan: Seq<u8>,
    prefix_random: Seq<u8>,
    key: Seq<u8>,
    pan_id: u16,
    pskc: Seq<u8>,
) -> Seq<Seq<u8>> {
    seq![
        tlv_bytes(ActiveTimestamp::TLV_TYPE, be64(timestamp_bits(seconds, 0, false))),
        tlv_bytes(Channel::TLV_TYPE, seq![0u8] + be16(channel)),
        tlv_bytes(ChannelMask::TLV_TYPE, seq![0u8, 4u8] + be32(reverse_bits(DEFAULT_CHANNEL_MASK))),
        tlv_bytes(ExtendedPanId::TLV_TYPE, xpan),
        tlv_bytes(MeshLocalPrefix::TLV_TYPE, seq![ULA_PREFIX_BYTE] + prefix_random),
        tlv_bytes(NetworkKey::TLV_TYPE, key),
        tlv_bytes(NetworkName::TLV_TYPE, twine_name_bytes(pan_id)),
        tlv_bytes(PanId::TLV_TYPE, be16(pan_id)),
        tlv_bytes(Pskc::TLV_TYPE, pskc),
        tlv_bytes(SecurityPolicy::TLV_TYPE, be32(DEFAULT_SECURITY_POLICY)),
    ]
}

impl OperationalDataset {
    /// The view holds all `OPERATIONAL_DATASET_MAX_SIZE` bytes.
    pub proof fn lemma_view_len(&self)
        ensures
            self@.len() == OPERATIONAL_DATASET_MAX_SIZE,
    {
        self.collection.lemma_view_len();
    }

    /// A dataset over the given records.
    pub fn from_collection(collection: TlvCollection<OPERATIONAL_DATASET_MAX_SIZE>) -> (r: Self)
        ensures
            r@ == collection@,
    {
        OperationalDataset { collection }
    }

    /// The records.
    pub fn collection(&self) -> (r: &TlvCollection<OPERATIONAL_DATASET_MAX_SIZE>)
        ensures
            r@ == self@,
    {
        &self.collection
    }

    /// A dataset from hex text (no separators, either case), the rest of the
    /// buffer zero. The records are not checked. Fails with `HexDecodeError`
    /// on text of odd length, of more than `2 * OPERATIONAL_DATASET_MAX_SIZE`
    /// digits, or with a character that is not a hex digit.
    pub fn from_hex(s: &str) -> (r: Result<Self, TwineCodecError>)
        ensures
            r is Ok <==> (s.spec_bytes().len() % 2 == 0 && s.spec_bytes().len() / 2
                <= OPERATIONAL_DATASET_MAX_SIZE && all_hex_digits(s.spec_bytes())),
            r is Err ==> r == Err::<Self, TwineCodecError>(TwineCodecError::HexDecodeError),
            r matches Ok(d) ==> d@ == hex_decoded(s.spec_bytes()) + Seq::new(
                (OPERATIONAL_DATASET_MAX_SIZE - s.spec_bytes().len() / 2) as nat,
                |i: int| 0u8,
            ),
    {
        let src = s.as_bytes();
        if src.len() % 2 != 0 {
            return Err(TwineCodecError::HexDecodeError);
        }
        let n = src.len() / 2;
        if n > OPERATIONAL_DATASET_MAX_SIZE {
            return Err(TwineCodecError::HexDecodeError);
        }
        let mut buffer = [0u8; OPERATIONAL_DATASET_MAX_SIZE];
        if !decode_hex_exact(src, &mut buffer) {
            return Err(TwineCodecError::HexDecodeError);
        }
        assert(buffer@ =~= hex_decoded(src@) + Seq::new(
            (OPERATIONAL_DATASET_MAX_SIZE - n) as nat,
            |i: int| 0u8,
        ));
        Ok(OperationalDataset { collection: TlvCollection::new_from_static(buffer) })
    }

    /// The records as lowercase hex text: the logical length's bytes, two
    /// digits each.
    pub fn as_hex_string(&self) -> (r: String)
        ensures
            r@ == hex_lower(self@.subrange(0, logical_len(self@))),
    {
        let len = self.collection.len();
        let bytes = self.collection.as_bytes();
        proof {
            crate::collection::lemma_scan_bounds(bytes@, 0);
        }
        hex_encode(vstd::slice::slice_subrange(bytes, 0, len))
    }

    pub fn active_timestamp(&self) -> (r: Option<Timestamp>)
        ensures
            r == (match decoded::<ActiveTimestamp>(self@) {
                Some(t) => Some(t.0),
                None => None::<Timestamp>,
            }),
    {
        match self.collection.decode_type_unchecked::<ActiveTimestamp>() {
            Some(t) => Some(t.0),
            None => None,
        }
    }

    pub fn pending_timestamp(&self) -> (r: Option<Timestamp>)
        ensures
            r == (match decoded::<PendingTimestamp>(self@) {
                Some(t) => Some(t.0),
                None => None::<Timestamp>,
            }),
    {
        match self.collection.decode_type_unchecked::<PendingTimestamp>() {
            Some(t) => Some(t.0),
            None => None,
        }
    }

    /// Sets the active timestamp: written over the present one, or appended
    /// when there is none.
    pub fn set_active_timestamp(&mut self, timestamp: Timestamp) -> (r: Result<(), TwineCodecError>)
        ensures
            find_span(old(self)@, ActiveTimestamp::TLV_TYPE) is Some ==> (r, final(self)@) == (
                codec_result(
                    replace_outcome(
                        old(self)@,
                        ActiveTimestamp::TLV_TYPE,
                        ActiveTimestamp(timestamp).value_bytes(),
                        true,
                    ).0,
                ),
                replace_outcome(
                    old(self)@,
                    ActiveTimestamp::TLV_TYPE,
                    ActiveTimestamp(timestamp).value_bytes(),
                    true,
                ).1,
            ),
            find_span(old(self)@, ActiveTimestamp::TLV_TYPE) is None ==> (
                match push_outcome(
                    old(self)@,
                    ActiveTimestamp::TLV_TYPE,
                    ActiveTimestamp(timestamp).value_bytes(),
                ).0 {
                    Ok(_) => r == Ok::<(), TwineCodecError>(()),
                    Err(e) => r == Err::<(), TwineCodecError>(TwineCodecError::Tlv(e)),
                }) && final(self)@ == push_outcome(
                old(self)@,
                ActiveTimestamp::TLV_TYPE,
                ActiveTimestamp(timestamp).value_bytes(),
            ).1,
    {
        let active = ActiveTimestamp(timestamp);
        if self.collection.contains_tlv(ActiveTimestamp::TLV_TYPE) {
            match self.collection.replace(active) {
                Ok(()) => Ok(()),
                Err(e) => Err(TwineCodecError::Tlv(e)),
            }
        } else {
            match self.collection.push(active) {
                Ok(_) => Ok(()),
                Err(e) => Err(TwineCodecError::Tlv(e)),
            }
        }
    }

    pub fn delay_timer(&self) -> (r: Option<DelayTimer>)
        ensures
            r == decoded::<DelayTimer>(self@),
    {
        self.collection.decode_type_unchecked::<DelayTimer>()
    }

    pub fn channel(&self) -> (r: Option<Channel>)
        ensures
            r == decoded::<Channel>(self@),
    {
        self.collection.decode_type_unchecked::<Channel>()
    }

    pub fn pan_id(&self) -> (r: Option<PanId>)
        ensures
            r == decoded::<PanId>(self@),
    {
        self.collection.decode_type_unchecked::<PanId>()
    }

    pub fn channel_mask(&self) -> (r: Option<ChannelMask>)
        ensures
            r == decoded::<ChannelMask>(self@),
    {
        self.collection.decode_type_unchecked::<ChannelMask>()
    }

    pub fn extended_pan_id(&self) -> (r: Option<ExtendedPanId>)
        ensures
            r == decoded::<ExtendedPanId>(self@),
    {
        self.collection.decode_type_unchecked::<ExtendedPanId>()
    }

    pub fn network_name(&self) -> (r: Option<NetworkName>)
        ensures
            r == decoded::<NetworkName>(self@),
    {
        self.collection.decode_type_unchecked::<NetworkName>()
    }

    pub fn pskc(&self) -> (r: Option<Pskc>)
        ensures
            r == decoded::<Pskc>(self@),
    {
        self.collection.decode_type_unchecked::<Pskc>()
    }

    pub fn network_key(&self) -> (r: Option<NetworkKey>)
        ensures
            r == decoded::<NetworkKey>(self@),
    {
        self.collection.decode_type_unchecked::<NetworkKey>()
    }

    pub fn mesh_local_prefix(&self) -> (r: Option<MeshLocalPrefix>)
        ensures
            r == decoded::<MeshLocalPrefix>(self@),
    {
        self.collection.decode_type_unchecked::<MeshLocalPrefix>()
    }

    pub fn security_policy(&self) -> (r: Option<SecurityPolicy>)
        ensures
            r == decoded::<SecurityPolicy>(self@),
    {
        self.collection.decode_type_unchecked::<SecurityPolicy>()
    }

    /// Whether an active timestamp is present.
    pub fn is_active(&self) -> (r: bool)
        ensures
            r == find_span(self@, ActiveTimestamp::TLV_TYPE) is Some,
    {
        self.collection.contains_tlv(ActiveTimestamp::TLV_TYPE)
    }

    /// Whether a pending timestamp is present.
    pub fn is_pending(&self) -> (r: bool)
        ensures
            r == find_span(self@, PendingTimestamp::TLV_TYPE) is Some,
    {
        self.collection.contains_tlv(PendingTimestamp::TLV_TYPE)
    }

    /// A new active dataset with random values: the time now as active
    /// timestamp, a random channel of page 0, the default channel mask,
    /// random extended PAN ID, mesh-local prefix and network key, the name
    /// `Twine-` and the PAN ID in hex, a random PAN ID and PSKc, and the
    /// default security policy, in that order. Fails when the clock or the
    /// random source does.
    pub fn random() -> (r: Result<Self, TwineCodecError>)
        ensures
            r matches Ok(d) ==> tail_is_zero(d@) && logical_len(d@) <= 107 && exists|
                seconds: u64,
                channel: u16,
                xpan: Seq<u8>,
                prefix_random: Seq<u8>,
                key: Seq<u8>,
                pan_id: u16,
                pskc: Seq<u8>,
            |
                11 <= channel <= 26 && xpan.len() == 8 && prefix_random.len() == 7 && key.len()
                    == 16 && pan_id != 0xffff && pskc.len() == 16 && tlvs(d@)
                    == #[trigger] random_dataset_records(
                    seconds,
                    channel,
                    xpan,
                    prefix_random,
                    key,
                    pan_id,
                    pskc,
                ),
    {
        let mut collection = TlvCollection::<OPERATIONAL_DATASET_MAX_SIZE>::default();
        proof {
            assert(!record_at(collection@, 0));
            assert(logical_len(collection@) == 0);
            assert(tlvs(collection@) =~= Seq::<Seq<u8>>::empty());
        }
        let now = match Timestamp::now(Authoritative(false)) {
            Some(t) => t,
            None => {
                return Err(TwineCodecError::Internal("clock reads before the Unix epoch"));
            },
        };
        let active = ActiveTimestamp(now);
        proof {
            active.lemma_constant_len();
            lemma_push_appends(collection@, ActiveTimestamp::TLV_TYPE, active.value_bytes());
        }
        if let Err(e) = collection.push(active) {
            return Err(TwineCodecError::Tlv(e));
        }
        let channel = Channel::random();
        proof {
            channel.lemma_constant_len();
            lemma_push_appends(collection@, Channel::TLV_TYPE, channel.value_bytes());
        }
        if let Err(e) = collection.push(channel) {
            return Err(TwineCodecError::Tlv(e));
        }
        let mask = ChannelMask::default();
        proof {
            mask.lemma_constant_len();
            lemma_push_appends(collection@, ChannelMask::TLV_TYPE, mask.value_bytes());
        }
        if let Err(e) = collection.push(mask) {
            return Err(TwineCodecError::Tlv(e));
        }
        let xpan = ExtendedPanId::random()?;
        proof {
            xpan.lemma_constant_len();
            lemma_push_appends(collection@, ExtendedPanId::TLV_TYPE, xpan.value_bytes());
        }
        if let Err(e) = collection.push(xpan) {
            return Err(TwineCodecError::Tlv(e));
        }
        let prefix = MeshLocalPrefix::random_ula()?;
        proof {
            prefix.lemma_constant_len();
            lemma_push_appends(collection@, MeshLocalPrefix::TLV_TYPE, prefix.value_bytes());
        }
        if let Err(e) = collection.push(prefix) {
            return Err(TwineCodecError::Tlv(e));
        }
        let key = NetworkKey::random()?;
        proof {
            key.lemma_constant_len();
            lemma_push_appends(collection@, NetworkKey::TLV_TYPE, key.value_bytes());
        }
        if let Err(e) = collection.push(key) {
            return Err(TwineCodecError::Tlv(e));
        }
        let pan_id = PanId::random();
        let name = NetworkName::for_pan_id(pan_id.get());
        proof {
            name.lemma_value_len();
            lemma_push_appends(collection@, NetworkName::TLV_TYPE, name.value_bytes());
        }
        if let Err(e) = collection.push(name) {
            return Err(TwineCodecError::Tlv(e));
        }
        proof {
            pan_id.lemma_constant_len();
            lemma_push_appends(collection@, PanId::TLV_TYPE, pan_id.value_bytes());
        }
        if let Err(e) = collection.push(pan_id) {
            return Err(TwineCodecError::Tlv(e));
        }
        let pskc = Pskc::random()?;
        proof {
            pskc.lemma_constant_len();
            lemma_push_appends(collection@, Pskc::TLV_TYPE, pskc.value_bytes());
        }
        if let Err(e) = collection.push(pskc) {
            return Err(TwineCodecError::Tlv(e));
        }
        let policy = SecurityPolicy::default();
        proof {
            policy.lemma_constant_len();
            lemma_push_appends(collection@, SecurityPolicy::TLV_TYPE, policy.value_bytes());
        }
        if let Err(e) = collection.push(policy) {
            return Err(TwineCodecError::Tlv(e));
        }
        proof {
            let records = random_dataset_records(
                now@.0,
                channel@.0,
                xpan@,
                prefix@.subrange(1, 8),
                key@,
                pan_id@,
                pskc@,
            );
            assert(prefix@ =~= seq![ULA_PREFIX_BYTE] + prefix@.subrange(1, 8));
            assert(tlvs(collection@) =~= records);
        }
        Ok(OperationalDataset { collection })
    }

    /// Walks the records from the first.
    pub fn iter(&self) -> (r: OperationalDatasetIter)
        ensures
            r.remaining() == tlvs(self@),
    {
        OperationalDatasetIter { collection: self.collection, cursor: 0 }
    }
}

impl core::str::FromStr for OperationalDataset {
    type Err = TwineCodecError;

    /// The same as [`OperationalDataset::from_hex`].
    fn from_str(s: &str) -> (r: Result<Self, Self::Err>)
        ensures
            r is Ok <==> (s.spec_bytes().len() % 2 == 0 && s.spec_bytes().len() / 2
                <= OPERATIONAL_DATASET_MAX_SIZE && all_hex_digits(s.spec_bytes())),
            r is Err ==> r == Err::<Self, TwineCodecError>(TwineCodecError::HexDecodeError),
            r matches Ok(d) ==> d@ == hex_decoded(s.spec_bytes()) + Seq::new(
                (OPERATIONAL_DATASET_MAX_SIZE - s.spec_bytes().len() / 2) as nat,
                |i: int| 0u8,
            ),
    {
        OperationalDataset::from_hex(s)
    }
}

/// One record of an operational dataset, read as the type its type byte
/// names.
#[derive(Clone, Debug, PartialEq, Eq)]
pub enum OperationalDatasetItem {
    ActiveTimestamp(ActiveTimestamp),
    PendingTimestamp(PendingTimestamp),
    DelayTimer(DelayTimer),
    Channel(Channel),
    ChannelMask(ChannelMask),
    ExtendedPanId(ExtendedPanId),
    MeshLocalPrefix(MeshLocalPrefix),
    NetworkKey(NetworkKey),
    NetworkName(NetworkName),
    PanId(PanId),
    Pskc(Pskc),
    SecurityPolicy(SecurityPolicy),
    /// A record of a type not listed here, all its bytes.
    Unknown(Vec<u8>),
}

/// The item that the record `b` (type byte first) stands for.
pub open spec fn item_of(b: Seq<u8>) -> OperationalDatasetItem {
    let t = b[0];
    let v = record_value(b);
    if t == ActiveTimestamp::TLV_TYPE {
        OperationalDatasetItem::ActiveTimestamp(ActiveTimestamp::decode_value(v))
    } else if t == PendingTimestamp::TLV_TYPE {
        OperationalDatasetItem::PendingTimestamp(PendingTimestamp::decode_value(v))
    } else if t == DelayTimer::TLV_TYPE {
        OperationalDatasetItem::DelayTimer(DelayTimer::decode_value(v))
    } else if t == Channel::TLV_TYPE {
        OperationalDatasetItem::Channel(Channel::decode_value(v))
    } else if t == ChannelMask::TLV_TYPE {
        OperationalDatasetItem::ChannelMask(ChannelMask::decode_value(v))
    } else if t == ExtendedPanId::TLV_TYPE {
        OperationalDatasetItem::ExtendedPanId(ExtendedPanId::decode_value(v))
    } else if t == MeshLocalPrefix::TLV_TYPE {
        OperationalDatasetItem::MeshLocalPrefix(MeshLocalPrefix::decode_value(v))
    } else if t == NetworkKey::TLV_TYPE {
        OperationalDatasetItem::NetworkKey(NetworkKey::decode_value(v))
    } else if t == NetworkName::TLV_TYPE {
        OperationalDatasetItem::NetworkName(NetworkName::decode_value(v))
    } else if t == PanId::TLV_TYPE {
        OperationalDatasetItem::PanId(PanId::decode_value(v))
    } else if t == Pskc::TLV_TYPE {
        OperationalDatasetItem::Pskc(Pskc::decode_value(v))
    } else if t == SecurityPolicy::TLV_TYPE {
        OperationalDatasetItem::SecurityPolicy(SecurityPolicy::decode_value(v))
    } else {
        OperationalDatasetItem::Unknown(vstd::pervasive::arbitrary())
    }
}

/// The text of an item: its name, a colon, and its value. For a network
/// name this is the start of the text, which goes on with the name.
pub open spec fn item_text(item: OperationalDatasetItem) -> Seq<char> {
    match item {
        OperationalDatasetItem::ActiveTimestamp(t) => "Active Timestamp: "@ + decimal(t.0@.0 as nat),
        OperationalDatasetItem::PendingTimestamp(t) => "Pending Timestamp: "@ + decimal(
            t.0@.0 as nat,
        ),
        OperationalDatasetItem::DelayTimer(d) => "Delay Timer: "@ + decimal(d@ as nat),
        OperationalDatasetItem::Channel(c) => "Channel: "@ + decimal(c@.0 as nat),
        OperationalDatasetItem::ChannelMask(m) => "Channel Mask: 0x"@ + hex_padded(m@.2, 8),
        OperationalDatasetItem::ExtendedPanId(x) => "Ext PAN ID: "@ + hex_lower(x@),
        OperationalDatasetItem::MeshLocalPrefix(p) => "Mesh Local Prefix: "@ + prefix_text(p@),
        OperationalDatasetItem::NetworkKey(k) => "Network Key: "@ + hex_lower(k@),
        OperationalDatasetItem::NetworkName(_) => "Network Name: "@,
        OperationalDatasetItem::PanId(p) => "PAN ID: 0x"@ + hex_padded(p@ as u32, 4),
        OperationalDatasetItem::Pskc(p) => "PSKc: "@ + hex_lower(p@),
        OperationalDatasetItem::SecurityPolicy(p) => "Security Policy: "@ + policy_text(p@),
        OperationalDatasetItem::Unknown(b) => "Unknown TLV: "@ + hex_lower(b@),
    }
}

impl OperationalDatasetItem {
    /// The item as one line of text, such as `Channel: 12`. A network name
    /// that is not valid UTF-8 is shown as `?`.
    pub fn to_display_string(&self) -> (r: String)
        ensures
            !(self is NetworkName) ==> r@ == item_text(*self),
            self is NetworkName ==> item_text(*self).is_prefix_of(r@),
    {
        match self {
            OperationalDatasetItem::ActiveTimestamp(t) => {
                let mut s = String::from_str("Active Timestamp: ");
                push_decimal_u64(&mut s, t.0.seconds());
                s
            },
            OperationalDatasetItem::PendingTimestamp(t) => {
                let mut s = String::from_str("Pending Timestamp: ");
                push_decimal_u64(&mut s, t.0.seconds());
                s
            },
            OperationalDatasetItem::DelayTimer(d) => {
                let mut s = String::from_str("Delay Timer: ");
                push_decimal(&mut s, d.millis());
                s
            },
            OperationalDatasetItem::Channel(c) => {
                let mut s = String::from_str("Channel: ");
                push_decimal(&mut s, c.channel() as u32);
                s
            },
            OperationalDatasetItem::ChannelMask(m) => {
                let mut s = String::from_str("Channel Mask: 0x");
                push_hex_padded(&mut s, m.mask(), 8);
                s
            },
            OperationalDatasetItem::ExtendedPanId(x) => {
                let mut s = String::from_str("Ext PAN ID: ");
                push_hex_bytes(&mut s, x.as_bytes());
                s
            },
            OperationalDatasetItem::MeshLocalPrefix(p) => {
                let s = String::from_str("Mesh Local Prefix: ");
                let text = p.to_display_string();
                s.concat(text.as_str())
            },
            OperationalDatasetItem::NetworkKey(k) => {
                let mut s = String::from_str("Network Key: ");
                push_hex_bytes(&mut s, k.as_bytes());
                s
            },
            OperationalDatasetItem::NetworkName(n) => {
                let s = String::from_str("Network Name: ");
                let r = match n.as_string() {
                    Some(text) => s.concat(text.as_str()),
                    None => s.concat("?"),
                };
                assert(item_text(*self).is_prefix_of(r@)) by {
                    assert(r@.subrange(0, item_text(*self).len() as int) =~= item_text(*self));
                }
                r
            },
            OperationalDatasetItem::PanId(p) => {
                let mut s = String::from_str("PAN ID: 0x");
                push_hex_padded(&mut s, p.get() as u32, 4);
                s
            },
            OperationalDatasetItem::Pskc(p) => {
                let mut s = String::from_str("PSKc: ");
                push_hex_bytes(&mut s, p.as_bytes());
                s
            },
            OperationalDatasetItem::SecurityPolicy(p) => {
                let s = String::from_str("Security Policy: ");
                let text = p.to_display_string();
                s.concat(text.as_str())
            },
            OperationalDatasetItem::Unknown(bytes) => {
                let mut s = String::from_str("Unknown TLV: ");
                push_hex_bytes(&mut s, bytes.as_slice());
                s
            },
        }
    }
}

/// Reads one record (type byte first) as the type its type byte names.
pub fn decode_operational_dataset_item(tlv: &[u8]) -> (r: OperationalDatasetItem)
    requires
        tlv@.len() > 0,
    ensures
        r matches OperationalDatasetItem::Unknown(bytes) ==> bytes@ == tlv@ && item_of(
            tlv@,
        ) is Unknown,
        !(r is Unknown) ==> r == item_of(tlv@),
{
    let t = tlv[0];
    if t == ActiveTimestamp::TLV_TYPE {
        OperationalDatasetItem::ActiveTimestamp(ActiveTimestamp::decode_tlv_unchecked(tlv))
    } else if t == PendingTimestamp::TLV_TYPE {
        OperationalDatasetItem::PendingTimestamp(PendingTimestamp::decode_tlv_unchecked(tlv))
    } else if t == DelayTimer::TLV_TYPE {
        OperationalDatasetItem::DelayTimer(DelayTimer::decode_tlv_unchecked(tlv))
    } else if t == Channel::TLV_TYPE {
        OperationalDatasetItem::Channel(Channel::decode_tlv_unchecked(tlv))
    } else if t == ChannelMask::TLV_TYPE {
        OperationalDatasetItem::ChannelMask(ChannelMask::decode_tlv_unchecked(tlv))
    } else if t == ExtendedPanId::TLV_TYPE {
        OperationalDatasetItem::ExtendedPanId(ExtendedPanId::decode_tlv_unchecked(tlv))
    } else if t == MeshLocalPrefix::TLV_TYPE {
        OperationalDatasetItem::MeshLocalPrefix(MeshLocalPrefix::decode_tlv_unchecked(tlv))
    } else if t == NetworkKey::TLV_TYPE {
        OperationalDatasetItem::NetworkKey(NetworkKey::decode_tlv_unchecked(tlv))
    } else if t == NetworkName::TLV_TYPE {
        OperationalDatasetItem::NetworkName(NetworkName::decode_tlv_unchecked(tlv))
    } else if t == PanId::TLV_TYPE {
        OperationalDatasetItem::PanId(PanId::decode_tlv_unchecked(tlv))
    } else if t == Pskc::TLV_TYPE {
        OperationalDatasetItem::Pskc(Pskc::decode_tlv_unchecked(tlv))
    } else if t == SecurityPolicy::TLV_TYPE {
        OperationalDatasetItem::SecurityPolicy(SecurityPolicy::decode_tlv_unchecked(tlv))
    } else {
        OperationalDatasetItem::Unknown(vstd::slice::slice_to_vec(tlv))
    }
}

/// Walks the records of a dataset, reading each as an item.
#[derive(Clone, Copy, Debug)]
pub struct OperationalDatasetIter {
    collection: TlvCollection<OPERATIONAL_DATASET_MAX_SIZE>,
    cursor: usize,
}

impl OperationalDatasetIter {
    /// The records not walked yet.
    pub closed spec fn remaining(&self) -> Seq<Seq<u8>> {
        tlvs_from(self.collection@, self.cursor as int)
    }

    /// The next record as an item; `None` after the last one.
    pub fn next(&mut self) -> (r: Option<OperationalDatasetItem>)
        ensures
            old(self).remaining().len() == 0 ==> r is None && final(self).remaining()
                == old(self).remaining(),
            old(self).remaining().len() > 0 ==> (r matches Some(item) && (!(item is Unknown)
                ==> item == item_of(old(self).remaining()[0])) && (item matches OperationalDatasetItem::Unknown(
                bytes,
            ) ==> bytes@ == old(self).remaining()[0] && item_of(old(self).remaining()[0]) is Unknown))
                && final(self).remaining() == old(self).remaining().drop_first(),
    {
        let buffer = self.collection.as_bytes();
        match TlvCollection::<OPERATIONAL_DATASET_MAX_SIZE>::record_end_at(buffer, self.cursor) {
            Some(end) => {
                proof {
                    crate::collection::lemma_record_end(buffer@, self.cursor as int);
                }
                let record = vstd::slice::slice_subrange(buffer, self.cursor, end);
                let item = decode_operational_dataset_item(record);
                self.cursor = end;
                Some(item)
            },
            None => None,
        }
    }
}

/// A dataset as a plain byte array of at most
/// `OPERATIONAL_DATASET_MAX_LENGTH` bytes.
#[derive(Clone, Copy, Debug, PartialEq, Eq)]
pub struct OperationalDatasetTlvs {
    tlvs: [u8; OPERATIONAL_DATASET_MAX_LENGTH],
    length: u8,
}

impl View for OperationalDatasetTlvs {
    /// (all bytes, length in use)
    type V = (Seq<u8>, u8);

    closed spec fn view(&self) -> (Seq<u8>, u8) {
        (self.tlvs@, self.length)
    }
}

impl Default for OperationalDatasetTlvs {
    /// No bytes in use.
    fn default() -> (r: Self)
        ensures
            r@ == (Seq::new(OPERATIONAL_DATASET_MAX_LENGTH as nat, |i: int| 0u8), 0u8),
    {
        let r = OperationalDatasetTlvs { tlvs: [0u8; OPERATIONAL_DATASET_MAX_LENGTH], length: 0 };
        assert(r@.0 =~= Seq::new(OPERATIONAL_DATASET_MAX_LENGTH as nat, |i: int| 0u8));
        r
    }
}

impl OperationalDatasetTlvs {
    /// All bytes of the array, in use or not.
    pub fn as_bytes(&self) -> (r: &[u8])
        ensures
            r@ == self@.0,
    {
        self.tlvs.as_slice()
    }

    /// The number of bytes in use.
    pub fn len(&self) -> (r: usize)
        ensures
            r == self@.1,
    {
        self.length as usize
    }

    /// All bytes of the array as lowercase hex text, two digits each.
    pub fn as_string(&self) -> (r: String)
        ensures
            r@ == hex_lower(self@.0),
    {
        hex_encode(self.tlvs.as_slice())
    }

    /// The bytes, the rest of the array zero; more than
    /// `OPERATIONAL_DATASET_MAX_LENGTH` bytes give `BufferMaxLength`.
    pub fn from_bytes(bytes: &[u8]) -> (r: Result<Self, TwineCodecError>)
        ensures
            bytes@.len() > OPERATIONAL_DATASET_MAX_LENGTH ==> r == Err::<Self, TwineCodecError>(
                TwineCodecError::BufferMaxLength(
                    OPERATIONAL_DATASET_TLVS_TYPE_NAME,
                    OPERATIONAL_DATASET_MAX_LENGTH,
                    bytes@.len() as usize,
                ),
            ),
            bytes@.len() <= OPERATIONAL_DATASET_MAX_LENGTH ==> (r matches Ok(t) && t@ == (
                bytes@ + Seq::new(
                    (OPERATIONAL_DATASET_MAX_LENGTH - bytes@.len()) as nat,
                    |i: int| 0u8,
                ),
                bytes@.len() as u8,
            )),
    {
        let length = bytes.len();
        if length > OPERATIONAL_DATASET_MAX_LENGTH {
            return Err(
                TwineCodecError::BufferMaxLength(
                    OPERATIONAL_DATASET_TLVS_TYPE_NAME,
                    OPERATIONAL_DATASET_MAX_LENGTH,
                    length,
                ),
            );
        }
        let mut tlvs = [0u8; OPERATIONAL_DATASET_MAX_LENGTH];
        let mut i: usize = 0;
        while i < length
            invariant
                i <= length,
                length == bytes@.len(),
                length <= OPERATIONAL_DATASET_MAX_LENGTH,
                tlvs@.len() == OPERATIONAL_DATASET_MAX_LENGTH,
                forall|j: int| 0 <= j < i ==> tlvs@[j] == bytes@[j],
                forall|j: int| i <= j < OPERATIONAL_DATASET_MAX_LENGTH ==> tlvs@[j] == 0,
            decreases length - i,
        {
            tlvs[i] = bytes[i];
            i += 1;
        }
        assert(tlvs@ =~= bytes@ + Seq::new(
            (OPERATIONAL_DATASET_MAX_LENGTH - length) as nat,
            |i: int| 0u8,
        ));
        Ok(OperationalDatasetTlvs { tlvs, length: length as u8 })
    }
}

impl TryFrom<Vec<u8>> for OperationalDatasetTlvs {
    type Error = TwineCodecError;

    fn try_from(bytes: Vec<u8>) -> (r: Result<Self, Self::Error>)
        ensures
            bytes@.len() > OPERATIONAL_DATASET_MAX_LENGTH ==> r == Err::<Self, TwineCodecError>(
                TwineCodecError::BufferMaxLength(
                    OPERATIONAL_DATASET_TLVS_TYPE_NAME,
                    OPERATIONAL_DATASET_MAX_LENGTH,
                    bytes@.len() as usize,
                ),
            ),
            bytes@.len() <= OPERATIONAL_DATASET_MAX_LENGTH ==> (r matches Ok(t) && t@ == (
                bytes@ + Seq::new(
                    (OPERATIONAL_DATASET_MAX_LENGTH - bytes@.len()) as nat,
                    |i: int| 0u8,
                ),
                bytes@.len() as u8,
            )),
    {
        OperationalDatasetTlvs::from_bytes(bytes.as_slice())
    }
}

impl TryFrom<OperationalDatasetTlvsVec> for OperationalDatasetTlvs {
    type Error = TwineCodecError;

    /// The records' bytes, encoded in turn; more than
    /// `OPERATIONAL_DATASET_MAX_LENGTH` of them give `BufferMaxLength`.
    fn try_from(vec: OperationalDatasetTlvsVec) -> (r: Result<Self, Self::Error>)
        ensures
            meshcop_encoded(vec@).len() > OPERATIONAL_DATASET_MAX_LENGTH ==> r == Err::<
                Self,
                TwineCodecError,
            >(
                TwineCodecError::BufferMaxLength(
                    OPERATIONAL_DATASET_TLVS_TYPE_NAME,
                    OPERATIONAL_DATASET_MAX_LENGTH,
                    meshcop_encoded(vec@).len() as usize,
                ),
            ),
            meshcop_encoded(vec@).len() <= OPERATIONAL_DATASET_MAX_LENGTH ==> (r matches Ok(t)
                && t@ == (
                meshcop_encoded(vec@) + Seq::new(
                    (OPERATIONAL_DATASET_MAX_LENGTH - meshcop_encoded(vec@).len()) as nat,
                    |i: int| 0u8,
                ),
                meshcop_encoded(vec@).len() as u8,
            )),
    {
        let bytes = vec.to_bytes();
        OperationalDatasetTlvs::from_bytes(bytes.as_slice())
    }
}

impl vstd::std_specs::convert::TryFromSpecImpl<OperationalDatasetTlvsVec> for OperationalDatasetTlvs {
    open spec fn obeys_try_from_spec() -> bool {
        false
    }

    open spec fn try_from_spec(v: OperationalDatasetTlvsVec) -> Result<Self, TwineCodecError> {
        vstd::pervasive::arbitrary()
    }
}

impl vstd::std_specs::convert::TryFromSpecImpl<Vec<u8>> for OperationalDatasetTlvs {
    open spec fn obeys_try_from_spec() -> bool {
        false
    }

    open spec fn try_from_spec(v: Vec<u8>) -> Result<Self, TwineCodecError> {
        vstd::pervasive::arbitrary()
    }
}

/// The type bytes of the dataset's records, and the lengths of those of
/// constant length.
pub proof fn lemma_dataset_tlv_types()
    ensures
        Channel::TLV_TYPE == 0x00 && Channel::TLV_LEN == 3,
        PanId::TLV_TYPE == 0x01 && PanId::TLV_LEN == 2,
        ExtendedPanId::TLV_TYPE == 0x02 && ExtendedPanId::TLV_LEN == 8,
        NetworkName::TLV_TYPE == 0x03,
        Pskc::TLV_TYPE == 0x04 && Pskc::TLV_LEN == 16,
        NetworkKey::TLV_TYPE == 0x05 && NetworkKey::TLV_LEN == 16,
        MeshLocalPrefix::TLV_TYPE == 0x07 && MeshLocalPrefix::TLV_LEN == 8,
        SecurityPolicy::TLV_TYPE == 0x0C && SecurityPolicy::TLV_LEN == 4,
        ActiveTimestamp::TLV_TYPE == 0x0E && ActiveTimestamp::TLV_LEN == 8,
        PendingTimestamp::TLV_TYPE == 0x33 && PendingTimestamp::TLV_LEN == 8,
        DelayTimer::TLV_TYPE == 0x34 && DelayTimer::TLV_LEN == 4,
        ChannelMask::TLV_TYPE == 0x35 && ChannelMask::TLV_LEN == 6,
{
    crate::radio::lemma_radio_tlv_types();
    crate::keys::lemma_key_tlv_types();
    crate::timestamp::lemma_timestamp_tlv_types();
    crate::security_policy::lemma_security_policy_tlv_type();
    crate::network_name::lemma_network_name_tlv_type();
}

} // verus!
