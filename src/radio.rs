//! IEEE 802.15.4 radio values: PAN ID, channel, channel mask, capabilities,
//! addresses.
use vstd::prelude::*;

use crate::be::{
    be16, be32, byte_at, get_u16, get_u32, get_u64, get_u8, put_slice, put_u16, put_u32, put_u8,
    read_be16, read_be32, read_be64, splice,
};
use crate::codec_error::TwineCodecError;
use crate::error::TwineTlvError;
use crate::random::{fill_random_bytes, random_range_u16};
use crate::traits::{
    array_from, lemma_array_from, padded, take_array, DecodeTlvUnchecked, DecodeTlvValueUnchecked,
    TlvConstantMetadata, TlvLength, TlvMetadata, TlvType, TryEncodeTlv, TryEncodeTlvValue,
};

verus! {

/// IEEE 802.15.4 PAN ID.
#[derive(Clone, Copy, Debug, PartialEq, Eq)]
pub struct PanId(pub u16);

impl View for PanId {
    type V = u16;

    open spec fn view(&self) -> u16 {
        self.0
    }
}

impl PanId {
    /// A PAN ID.
    pub fn new(pan_id: u16) -> (r: Self)
        ensures
            r@ == pan_id,
    {
        PanId(pan_id)
    }

    /// The broadcast PAN ID, 0xffff.
    pub fn broadcast() -> (r: Self)
        ensures
            r@ == 0xffff,
    {
        PanId(0xffff)
    }

    /// The PAN ID as a number.
    pub fn get(&self) -> (r: u16)
        ensures
            r == self@,
    {
        self.0
    }

    /// A random PAN ID other than the broadcast one.
    pub fn random() -> (r: Self)
        ensures
            r@ != 0xffff,
    {
        PanId(random_range_u16(0, 0xfffe))
    }
}

impl From<u16> for PanId {
    fn from(v: u16) -> (r: PanId)
        ensures
            r@ == v,
    {
        PanId(v)
    }
}

impl vstd::std_specs::convert::FromSpecImpl<u16> for PanId {
    open spec fn obeys_from_spec() -> bool {
        true
    }

    open spec fn from_spec(v: u16) -> PanId {
        PanId(v)
    }
}

impl From<PanId> for u16 {
    fn from(v: PanId) -> (r: u16)
        ensures
            r == v@,
    {
        v.0
    }
}

impl vstd::std_specs::convert::FromSpecImpl<PanId> for u16 {
    open spec fn obeys_from_spec() -> bool {
        true
    }

    open spec fn from_spec(v: PanId) -> u16 {
        v@
    }
}

impl TlvType for PanId {
    const TLV_TYPE: u8 = 0x01;
}

impl TlvLength for PanId {
    open spec fn value_bytes(&self) -> Seq<u8> {
        be16(self.0)
    }

    open spec fn constant_len() -> bool {
        true
    }

    fn tlv_len(&self) -> (r: usize) {
        2
    }

    fn tlv_len_is_constant() -> (r: bool) {
        true
    }
}

impl TlvMetadata for PanId {

}

impl TlvConstantMetadata for PanId {
    const TLV_LEN: usize = 2;

    proof fn lemma_constant_len(&self)
        ensures
            self.value_bytes().len() == 2,
    {
    }
}

impl TryEncodeTlvValue for PanId {
    fn try_encode_tlv_value(&self, buffer: &mut [u8], pos: usize) -> (r: Result<usize, TwineTlvError>) {
        if pos > buffer.len() || buffer.len() - pos < 2 {
            return Err(TwineTlvError::BufferEncodeTooShort);
        }
        put_u16(buffer, pos, self.0);
        Ok(2)
    }
}

impl DecodeTlvValueUnchecked for PanId {
    open spec fn decode_value(bytes: Seq<u8>) -> PanId {
        PanId(read_be16(bytes, 0))
    }

    open spec fn well_formed(&self) -> bool {
        true
    }

    fn decode_tlv_value_unchecked(buffer: &[u8]) -> (r: PanId) {
        PanId(get_u16(buffer, 0))
    }

    proof fn lemma_decode_encoded(&self) {
        crate::be::lemma_be16_round_trip(self.0);
    }
}

impl DecodeTlvUnchecked for PanId {

}

impl TryEncodeTlv for PanId {

}

/// IEEE 802.15.4 channel, with its channel page.
#[derive(Clone, Copy, Debug, PartialEq, Eq)]
pub struct Channel {
    pub channel: u16,
    pub page: u8,
}

impl View for Channel {
    /// (channel, page)
    type V = (u16, u8);

    open spec fn view(&self) -> (u16, u8) {
        (self.channel, self.page)
    }
}

impl Channel {
    pub fn new(channel: u16, page: u8) -> (r: Self)
        ensures
            r@ == (channel, page),
    {
        Channel { channel, page }
    }

    pub fn channel(&self) -> (r: u16)
        ensures
            r == self@.0,
    {
        self.channel
    }

    pub fn page(&self) -> (r: u8)
        ensures
            r == self@.1,
    {
        self.page
    }

    /// A random channel of page 0, from 11 to 26.
    pub fn random() -> (r: Self)
        ensures
            11 <= r@.0 <= 26,
            r@.1 == 0,
    {
        Channel { channel: random_range_u16(11, 26), page: 0 }
    }
}

impl TlvType for Channel {
    const TLV_TYPE: u8 = 0x00;
}

impl TlvLength for Channel {
    open spec fn value_bytes(&self) -> Seq<u8> {
        seq![self.page] + be16(self.channel)
    }

    open spec fn constant_len() -> bool {
        true
    }

    fn tlv_len(&self) -> (r: usize) {
        3
    }

    fn tlv_len_is_constant() -> (r: bool) {
        true
    }
}

impl TlvMetadata for Channel {

}

impl TlvConstantMetadata for Channel {
    const TLV_LEN: usize = 3;

    proof fn lemma_constant_len(&self)
        ensures
            self.value_bytes().len() == 3,
    {
    }
}

impl TryEncodeTlvValue for Channel {
    fn try_encode_tlv_value(&self, buffer: &mut [u8], pos: usize) -> (r: Result<usize, TwineTlvError>) {
        if pos > buffer.len() || buffer.len() - pos < 3 {
            return Err(TwineTlvError::BufferEncodeTooShort);
        }
        put_u8(buffer, pos, self.page);
        put_u16(buffer, pos + 1, self.channel);
        assert(buffer@ =~= splice(old(buffer)@, pos as int, self.value_bytes()));
        Ok(3)
    }
}

impl DecodeTlvValueUnchecked for Channel {
    open spec fn decode_value(bytes: Seq<u8>) -> Channel {
        Channel { channel: read_be16(bytes, 1), page: byte_at(bytes, 0) }
    }

    open spec fn well_formed(&self) -> bool {
        true
    }

    fn decode_tlv_value_unchecked(buffer: &[u8]) -> (r: Channel) {
        let page = get_u8(buffer, 0);
        let channel = get_u16(buffer, 1);
        Channel { channel, page }
    }

    proof fn lemma_decode_encoded(&self) {
        let b = self.value_bytes();
        crate::be::lemma_be16_round_trip(self.channel);
        assert(read_be16(b, 1) == read_be16(be16(self.channel), 0));
    }
}

impl DecodeTlvUnchecked for Channel {

}

impl TryEncodeTlv for Channel {

}

/// The bits of `x` in reverse order (bit 0 becomes bit 31).
pub open spec fn reverse_bits(x: u32) -> u32 {
    let a = ((x >> 1u32) & 0x5555_5555u32) | ((x & 0x5555_5555u32) << 1u32);
    let b = ((a >> 2u32) & 0x3333_3333u32) | ((a & 0x3333_3333u32) << 2u32);
    let c = ((b >> 4u32) & 0x0F0F_0F0Fu32) | ((b & 0x0F0F_0F0Fu32) << 4u32);
    let d = ((c >> 8u32) & 0x00FF_00FFu32) | ((c & 0x00FF_00FFu32) << 8u32);
    (d >> 16u32) | (d << 16u32)
}

/// Reversing twice gives the number back.
pub proof fn lemma_reverse_bits_involutive(x: u32)
    ensures
        reverse_bits(reverse_bits(x)) == x,
{
    let a = ((x >> 1u32) & 0x5555_5555u32) | ((x & 0x5555_5555u32) << 1u32);
    let b = ((a >> 2u32) & 0x3333_3333u32) | ((a & 0x3333_3333u32) << 2u32);
    let c = ((b >> 4u32) & 0x0F0F_0F0Fu32) | ((b & 0x0F0F_0F0Fu32) << 4u32);
    let d = ((c >> 8u32) & 0x00FF_00FFu32) | ((c & 0x00FF_00FFu32) << 8u32);
    let y = (d >> 16u32) | (d << 16u32);
    let a2 = ((y >> 1u32) & 0x5555_5555u32) | ((y & 0x5555_5555u32) << 1u32);
    let b2 = ((a2 >> 2u32) & 0x3333_3333u32) | ((a2 & 0x3333_3333u32) << 2u32);
    let c2 = ((b2 >> 4u32) & 0x0F0F_0F0Fu32) | ((b2 & 0x0F0F_0F0Fu32) << 4u32);
    let d2 = ((c2 >> 8u32) & 0x00FF_00FFu32) | ((c2 & 0x00FF_00FFu32) << 8u32);
    let z = (d2 >> 16u32) | (d2 << 16u32);
    assert(z == x) by (bit_vector)
        requires
            a == ((x >> 1u32) & 0x5555_5555u32) | ((x & 0x5555_5555u32) << 1u32),
            b == ((a >> 2u32) & 0x3333_3333u32) | ((a & 0x3333_3333u32) << 2u32),
            c == ((b >> 4u32) & 0x0F0F_0F0Fu32) | ((b & 0x0F0F_0F0Fu32) << 4u32),
            d == ((c >> 8u32) & 0x00FF_00FFu32) | ((c & 0x00FF_00FFu32) << 8u32),
            y == (d >> 16u32) | (d << 16u32),
            a2 == ((y >> 1u32) & 0x5555_5555u32) | ((y & 0x5555_5555u32) << 1u32),
            b2 == ((a2 >> 2u32) & 0x3333_3333u32) | ((a2 & 0x3333_3333u32) << 2u32),
            c2 == ((b2 >> 4u32) & 0x0F0F_0F0Fu32) | ((b2 & 0x0F0F_0F0Fu32) << 4u32),
            d2 == ((c2 >> 8u32) & 0x00FF_00FFu32) | ((c2 & 0x00FF_00FFu32) << 8u32),
            z == (d2 >> 16u32) | (d2 << 16u32),
    ;
}

/// Reverses the bits of `x` (bit 0 becomes bit 31).
pub fn reverse_bits_u32(x: u32) -> (r: u32)
    ensures
        r == reverse_bits(x),
{
    let a = ((x >> 1u32) & 0x5555_5555u32) | ((x & 0x5555_5555u32) << 1u32);
    let b = ((a >> 2u32) & 0x3333_3333u32) | ((a & 0x3333_3333u32) << 2u32);
    let c = ((b >> 4u32) & 0x0F0F_0F0Fu32) | ((b & 0x0F0F_0F0Fu32) << 4u32);
    let d = ((c >> 8u32) & 0x00FF_00FFu32) | ((c & 0x00FF_00FFu32) << 8u32);
    (d >> 16u32) | (d << 16u32)
}

/// The channels of page 0 that Thread uses: 11 to 26.
pub const DEFAULT_CHANNEL_MASK: u32 = 0x07FF_F800;

/// IEEE 802.15.4 channel mask: one entry, with its page and the mask's
/// length in bytes. Bit `n` of the mask selects channel `n`; on the wire the
/// mask's bits stand in reverse order.
#[derive(Clone, Copy, Debug, PartialEq, Eq)]
pub struct ChannelMask {
    pub page: u8,
    /// The length of the mask in bytes.
    pub len: u8,
    pub mask: u32,
}

impl View for ChannelMask {
    /// (page, mask length, mask)
    type V = (u8, u8, u32);

    open spec fn view(&self) -> (u8, u8, u32) {
        (self.page, self.len, self.mask)
    }
}

impl Default for ChannelMask {
    /// Page 0, channels 11 to 26.
    fn default() -> (r: Self)
        ensures
            r@ == (0u8, 4u8, DEFAULT_CHANNEL_MASK),
    {
        ChannelMask { page: 0, len: 4, mask: DEFAULT_CHANNEL_MASK }
    }
}

impl ChannelMask {
    /// A mask of page 0 with a 4-byte mask.
    pub fn new(mask: u32) -> (r: Self)
        ensures
            r@ == (0u8, 4u8, mask),
    {
        ChannelMask { page: 0, len: 4, mask }
    }

    /// The mask: bit `n` selects channel `n`.
    pub fn mask(&self) -> (r: u32)
        ensures
            r == self@.2,
    {
        self.mask
    }

    /// The channel page.
    pub fn page(&self) -> (r: u8)
        ensures
            r == self@.0,
    {
        self.page
    }

    /// The length of the mask in bytes.
    pub fn mask_len(&self) -> (r: u8)
        ensures
            r == self@.1,
    {
        self.len
    }

    /// The entry as it stands in a record: page, mask length, and the mask
    /// with its bits reversed.
    pub fn to_tlv_entry(self) -> (r: (u8, u8, u32))
        ensures
            r == (self@.0, self@.1, reverse_bits(self@.2)),
    {
        (self.page, self.len, reverse_bits_u32(self.mask))
    }

    /// A mask from a record's page and reversed mask bits.
    pub fn from_tlv_entry(value: (u8, u32)) -> (r: Self)
        ensures
            r@ == (value.0, 4u8, reverse_bits(value.1)),
    {
        ChannelMask { page: value.0, len: 4, mask: reverse_bits_u32(value.1) }
    }
}

impl TlvType for ChannelMask {
    const TLV_TYPE: u8 = 0x35;
}

impl TlvLength for ChannelMask {
    open spec fn value_bytes(&self) -> Seq<u8> {
        seq![self.page, self.len] + be32(reverse_bits(self.mask))
    }

    open spec fn constant_len() -> bool {
        true
    }

    fn tlv_len(&self) -> (r: usize) {
        6
    }

    fn tlv_len_is_constant() -> (r: bool) {
        true
    }
}

impl TlvMetadata for ChannelMask {

}

impl TlvConstantMetadata for ChannelMask {
    const TLV_LEN: usize = 6;

    proof fn lemma_constant_len(&self)
        ensures
            self.value_bytes().len() == 6,
    {
    }
}

impl TryEncodeTlvValue for ChannelMask {
    fn try_encode_tlv_value(&self, buffer: &mut [u8], pos: usize) -> (r: Result<usize, TwineTlvError>) {
        if pos > buffer.len() || buffer.len() - pos < 6 {
            return Err(TwineTlvError::BufferEncodeTooShort);
        }
        put_u8(buffer, pos, self.page);
        put_u8(buffer, pos + 1, self.len);
        put_u32(buffer, pos + 2, reverse_bits_u32(self.mask));
        assert(buffer@ =~= splice(old(buffer)@, pos as int, self.value_bytes()));
        Ok(6)
    }
}

impl DecodeTlvValueUnchecked for ChannelMask {
    open spec fn decode_value(bytes: Seq<u8>) -> ChannelMask {
        ChannelMask { page: byte_at(bytes, 0), len: byte_at(bytes, 1), mask: reverse_bits(read_be32(bytes, 2)) }
    }

    open spec fn well_formed(&self) -> bool {
        true
    }

    fn decode_tlv_value_unchecked(buffer: &[u8]) -> (r: ChannelMask) {
        let page = get_u8(buffer, 0);
        let len = get_u8(buffer, 1);
        let mask = reverse_bits_u32(get_u32(buffer, 2));
        ChannelMask { page, len, mask }
    }

    proof fn lemma_decode_encoded(&self) {
        let b = self.value_bytes();
        let w = reverse_bits(self.mask);
        crate::be::lemma_be32_round_trip(w);
        assert(read_be32(b, 2) == read_be32(be32(w), 0));
        lemma_reverse_bits_involutive(self.mask);
    }
}

impl DecodeTlvUnchecked for ChannelMask {

}

impl TryEncodeTlv for ChannelMask {

}

/// Radio capabilities, one bit each.
#[derive(Clone, Copy, Debug, PartialEq, Eq)]
pub struct RadioCapabilities(pub u8);

/// AckTime events.
pub const RADIO_CAPS_ACK_TIMEOUT: u8 = 0b0000_0001;
/// Energy scans.
pub const RADIO_CAPS_ENERGY_SCAN: u8 = 0b0000_0010;
/// Transmit retries with collision avoidance (CSMA).
pub const RADIO_CAPS_TRANSMIT_RETRIES: u8 = 0b0000_0100;
/// CSMA backoff for frame transmission, without retries.
pub const RADIO_CAPS_CSMA_BACKOFF: u8 = 0b0000_1000;
/// Direct transition from sleep to transmit.
pub const RADIO_CAPS_SLEEP_TO_TX: u8 = 0b0001_0000;
/// Transmit security.
pub const RADIO_CAPS_TRANSMIT_SEC: u8 = 0b0010_0000;
/// Transmit at a given time.
pub const RADIO_CAPS_TRANSMIT_TIMING: u8 = 0b0100_0000;
/// Receive at a given time.
pub const RADIO_CAPS_RECEIVE_TIMING: u8 = 0b1000_0000;

impl View for RadioCapabilities {
    type V = u8;

    open spec fn view(&self) -> u8 {
        self.0
    }
}

impl RadioCapabilities {
    pub fn from_bits(bits: u8) -> (r: Self)
        ensures
            r@ == bits,
    {
        RadioCapabilities(bits)
    }

    pub fn bits(&self) -> (r: u8)
        ensures
            r == self@,
    {
        self.0
    }

    /// No capability at all.
    pub fn none(&self) -> (r: bool)
        ensures
            r == (self@ == 0),
    {
        self.0 == 0
    }

    pub fn ack_timeout(&self) -> (r: bool)
        ensures
            r == (self@ & RADIO_CAPS_ACK_TIMEOUT != 0),
    {
        self.0 & RADIO_CAPS_ACK_TIMEOUT != 0
    }

    pub fn energy_scan(&self) -> (r: bool)
        ensures
            r == (self@ & RADIO_CAPS_ENERGY_SCAN != 0),
    {
        self.0 & RADIO_CAPS_ENERGY_SCAN != 0
    }

    pub fn transmit_retries(&self) -> (r: bool)
        ensures
            r == (self@ & RADIO_CAPS_TRANSMIT_RETRIES != 0),
    {
        self.0 & RADIO_CAPS_TRANSMIT_RETRIES != 0
    }

    pub fn csma_backoff(&self) -> (r: bool)
        ensures
            r == (self@ & RADIO_CAPS_CSMA_BACKOFF != 0),
    {
        self.0 & RADIO_CAPS_CSMA_BACKOFF != 0
    }

    pub fn sleep_to_tx(&self) -> (r: bool)
        ensures
            r == (self@ & RADIO_CAPS_SLEEP_TO_TX != 0),
    {
        self.0 & RADIO_CAPS_SLEEP_TO_TX != 0
    }

    pub fn transmit_security(&self) -> (r: bool)
        ensures
            r == (self@ & RADIO_CAPS_TRANSMIT_SEC != 0),
    {
        self.0 & RADIO_CAPS_TRANSMIT_SEC != 0
    }

    pub fn transmit_timing(&self) -> (r: bool)
        ensures
            r == (self@ & RADIO_CAPS_TRANSMIT_TIMING != 0),
    {
        self.0 & RADIO_CAPS_TRANSMIT_TIMING != 0
    }

    pub fn receive_timing(&self) -> (r: bool)
        ensures
            r == (self@ & RADIO_CAPS_RECEIVE_TIMING != 0),
    {
        self.0 & RADIO_CAPS_RECEIVE_TIMING != 0
    }
}

/// The eight bytes of `v`, most significant first.
pub fn u64_to_be_bytes(v: u64) -> (r: [u8; 8])
    ensures
        r@ == crate::be::be64(v),
{
    let r = [
        (v >> 56u64) as u8,
        (v >> 48u64) as u8,
        (v >> 40u64) as u8,
        (v >> 32u64) as u8,
        (v >> 24u64) as u8,
        (v >> 16u64) as u8,
        (v >> 8u64) as u8,
        v as u8,
    ];
    assert(r@ =~= crate::be::be64(v));
    r
}

/// IEEE 802.15.4 extended address.
#[derive(Clone, Copy, Debug, PartialEq, Eq)]
pub struct ExtendedAddress(pub [u8; 8]);

impl View for ExtendedAddress {
    type V = Seq<u8>;

    open spec fn view(&self) -> Seq<u8> {
        self.0@
    }
}

impl ExtendedAddress {
    /// A random address: the drawn bytes as they are, through
    /// `From<[u8; 8]>`. Fails when the random source does.
    pub fn random() -> (r: Result<Self, TwineCodecError>)
        ensures
            r matches Ok(a) ==> a@.len() == 8,
    {
        let mut bytes = [0u8; 8];
        match fill_random_bytes(&mut bytes) {
            Ok(()) => Ok(ExtendedAddress::from(bytes)),
            Err(e) => Err(e),
        }
    }

    /// The address as lowercase hex text, two digits per byte.
    pub fn to_hex_string(&self) -> (r: String)
        ensures
            r@ == crate::text::hex_lower(self@),
    {
        crate::text::hex_encode(self.0.as_slice())
    }
}

impl From<[u8; 8]> for ExtendedAddress {
    fn from(v: [u8; 8]) -> (r: ExtendedAddress)
        ensures
            r@ == v@,
    {
        ExtendedAddress(v)
    }
}

impl vstd::std_specs::convert::FromSpecImpl<[u8; 8]> for ExtendedAddress {
    open spec fn obeys_from_spec() -> bool {
        true
    }

    open spec fn from_spec(v: [u8; 8]) -> ExtendedAddress {
        ExtendedAddress(v)
    }
}

impl From<u64> for ExtendedAddress {
    fn from(v: u64) -> (r: ExtendedAddress)
        ensures
            r@ == crate::be::be64(v),
    {
        let a = u64_to_be_bytes(v);
        proof {
            lemma_array_from::<8>(a);
        }
        ExtendedAddress(a)
    }
}

impl vstd::std_specs::convert::FromSpecImpl<u64> for ExtendedAddress {
    open spec fn obeys_from_spec() -> bool {
        true
    }

    open spec fn from_spec(v: u64) -> ExtendedAddress {
        ExtendedAddress(array_from::<8>(crate::be::be64(v)))
    }
}

impl From<ExtendedAddress> for u64 {
    fn from(v: ExtendedAddress) -> (r: u64)
        ensures
            r == read_be64(v@, 0),
    {
        get_u64(v.0.as_slice(), 0)
    }
}

impl vstd::std_specs::convert::FromSpecImpl<ExtendedAddress> for u64 {
    open spec fn obeys_from_spec() -> bool {
        true
    }

    open spec fn from_spec(v: ExtendedAddress) -> u64 {
        read_be64(v@, 0)
    }
}

/// IEEE EUI-64.
#[derive(Clone, Copy, Debug, PartialEq, Eq)]
pub struct Eui64(pub [u8; 8]);

impl View for Eui64 {
    type V = Seq<u8>;

    open spec fn view(&self) -> Seq<u8> {
        self.0@
    }
}

impl From<u64> for Eui64 {
    fn from(v: u64) -> (r: Eui64)
        ensures
            r@ == crate::be::be64(v),
    {
        let a = u64_to_be_bytes(v);
        proof {
            lemma_array_from::<8>(a);
        }
        Eui64(a)
    }
}

impl vstd::std_specs::convert::FromSpecImpl<u64> for Eui64 {
    open spec fn obeys_from_spec() -> bool {
        true
    }

    open spec fn from_spec(v: u64) -> Eui64 {
        Eui64(array_from::<8>(crate::be::be64(v)))
    }
}

impl From<Eui64> for u64 {
    fn from(v: Eui64) -> (r: u64)
        ensures
            r == read_be64(v@, 0),
    {
        get_u64(v.0.as_slice(), 0)
    }
}

impl vstd::std_specs::convert::FromSpecImpl<Eui64> for u64 {
    open spec fn obeys_from_spec() -> bool {
        true
    }

    open spec fn from_spec(v: Eui64) -> u64 {
        read_be64(v@, 0)
    }
}

/// The type bytes and lengths of the radio records.
pub proof fn lemma_radio_tlv_types()
    ensures
        PanId::TLV_TYPE == 0x01 && PanId::TLV_LEN == 2,
        Channel::TLV_TYPE == 0x00 && Channel::TLV_LEN == 3,
        ChannelMask::TLV_TYPE == 0x35 && ChannelMask::TLV_LEN == 6,
{
}

} // verus!
