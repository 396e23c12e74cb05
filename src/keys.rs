//! Keys and identifiers held as fixed byte arrays: network key, PSKc,
//! extended PAN ID, mesh-local prefix.
use vstd::prelude::*;

use crate::be::{be64, get_u64, put_slice, read_be64, splice};
use crate::codec_error::TwineCodecError;
use crate::error::TwineTlvError;
use crate::radio::u64_to_be_bytes;
use crate::random::fill_random_bytes;
use crate::text::{hex_char, push_hex_digit};
use crate::traits::{
    array_from, lemma_array_from, padded, take_array, DecodeTlvUnchecked, DecodeTlvValueUnchecked,
    TlvConstantMetadata, TlvLength, TlvMetadata, TlvType, TryEncodeTlv, TryEncodeTlvValue,
};

verus! {

/// Declares `core::num::ParseIntError`.
#[verifier::external_type_specification]
#[verifier::external_body]
pub struct ExParseIntError(core::num::ParseIntError);

/// The sixteen bytes of `v`, most significant first.
pub open spec fn be128(v: u128) -> Seq<u8> {
    Seq::new(16, |i: int| (v >> ((8 * (15 - i)) as u128)) as u8)
}

/// The sixteen bytes of `v`, most significant first.
pub fn u128_to_be_bytes(v: u128) -> (r: [u8; 16])
    ensures
        r@ == be128(v),
{
    let mut r = [0u8; 16];
    let mut i: usize = 0;
    while i < 16
        invariant
            i <= 16,
            r@.len() == 16,
            forall|j: int| 0 <= j < i ==> r@[j] == be128(v)[j],
        decreases 16 - i,
    {
        r[i] = (v >> ((8 * (15 - i)) as u128)) as u8;
        i += 1;
    }
    assert(r@ =~= be128(v));
    r
}

/// Whether `c` is a hex digit of either case.
pub open spec fn is_hex_char(c: char) -> bool {
    ('0' <= c <= '9') || ('a' <= c <= 'f') || ('A' <= c <= 'F')
}

/// The value of the hex digit `c`.
pub open spec fn hex_char_value(c: char) -> nat {
    if '0' <= c <= '9' {
        (c as nat - '0' as nat) as nat
    } else if 'a' <= c <= 'f' {
        (c as nat - 'a' as nat + 10) as nat
    } else if 'A' <= c <= 'F' {
        (c as nat - 'A' as nat + 10) as nat
    } else {
        0
    }
}

/// The number that the hex digits `s` spell, most significant first.
pub open spec fn hex_digits_value(s: Seq<char>) -> nat
    decreases s.len(),
{
    if s.len() == 0 {
        0
    } else {
        hex_digits_value(s.drop_last()) * 16 + hex_char_value(s.last())
    }
}

/// The hex digits of `s` after an optional leading `+`.
pub open spec fn radix16_digits(s: Seq<char>) -> Seq<char> {
    if s.len() > 0 && s[0] == '+' {
        s.drop_first()
    } else {
        s
    }
}

/// The number that `s` spells in base 16: an optional `+`, then one or more
/// hex digits of either case.
pub open spec fn parse_hex_digits(s: Seq<char>) -> Option<nat> {
    let d = radix16_digits(s);
    if d.len() > 0 && (forall|i: int| 0 <= i < d.len() ==> is_hex_char(#[trigger] d[i])) {
        Some(hex_digits_value(d))
    } else {
        None
    }
}

/// The `u128` that `s` spells in base 16, when it fits.
pub open spec fn parse_hex_u128(s: Seq<char>) -> Option<u128> {
    match parse_hex_digits(s) {
        Some(v) => if v <= u128::MAX {
            Some(v as u128)
        } else {
            None
        },
        None => None,
    }
}

/// The `u16` that `s` spells in base 16, when it fits.
pub open spec fn parse_hex_u16(s: Seq<char>) -> Option<u16> {
    match parse_hex_digits(s) {
        Some(v) => if v <= u16::MAX {
            Some(v as u16)
        } else {
            None
        },
        None => None,
    }
}

/// Relies on `u128::from_str_radix` with radix 16: it accepts an optional `+`
/// followed by one or more hex digits of either case whose value fits in a
/// `u128`, and nothing else.
#[verifier::external_body]
fn u128_from_hex_str(s: &str) -> (r: Result<u128, core::num::ParseIntError>)
    ensures
        r is Ok <==> parse_hex_u128(s@) is Some,
        r matches Ok(v) ==> parse_hex_u128(s@) == Some(v),
{
    u128::from_str_radix(s, 16)
}

/// Relies on `u16::from_str_radix` with radix 16: it accepts an optional `+`
/// followed by one or more hex digits of either case whose value fits in a
/// `u16`, and nothing else.
#[verifier::external_body]
pub(crate) fn u16_from_hex_str(s: &str) -> (r: Result<u16, core::num::ParseIntError>)
    ensures
        r is Ok <==> parse_hex_u16(s@) is Some,
        r matches Ok(v) ==> parse_hex_u16(s@) == Some(v),
{
    u16::from_str_radix(s, 16)
}

/// A Thread network key.
#[derive(Clone, Copy, Debug, PartialEq, Eq)]
pub struct NetworkKey(pub [u8; 16]);

impl View for NetworkKey {
    type V = Seq<u8>;

    open spec fn view(&self) -> Seq<u8> {
        self.0@
    }
}

impl NetworkKey {
    /// The key's sixteen bytes.
    pub fn as_bytes(&self) -> (r: &[u8])
        ensures
            r@ == self@,
    {
        self.0.as_slice()
    }

    /// A random key: the drawn bytes as they are, through `From<[u8; 16]>`.
    /// Fails when the random source does.
    pub fn random() -> (r: Result<Self, TwineCodecError>)
        ensures
            r matches Ok(k) ==> k@.len() == 16,
    {
        let mut bytes = [0u8; 16];
        match fill_random_bytes(&mut bytes) {
            Ok(()) => Ok(NetworkKey::from(bytes)),
            Err(e) => Err(e),
        }
    }

    /// The key that the hex text `s` spells as a 128-bit number.
    pub fn from_hex_str(s: &str) -> (r: Result<Self, core::num::ParseIntError>)
        ensures
            r is Ok <==> parse_hex_u128(s@) is Some,
            r matches Ok(k) ==> parse_hex_u128(s@) matches Some(v) && k@ == be128(v),
    {
        match u128_from_hex_str(s) {
            Ok(v) => Ok(NetworkKey(u128_to_be_bytes(v))),
            Err(e) => Err(e),
        }
    }
}

impl AsRef<[u8]> for NetworkKey {
    fn as_ref(&self) -> (r: &[u8]) {
        self.0.as_slice()
    }
}

impl AsMut<[u8]> for NetworkKey {
    fn as_mut(&mut self) -> (r: &mut [u8]) {
        &mut self.0
    }
}

impl core::str::FromStr for NetworkKey {
    type Err = core::num::ParseIntError;

    /// The same as [`NetworkKey::from_hex_str`].
    fn from_str(s: &str) -> (r: Result<Self, Self::Err>)
        ensures
            r is Ok <==> parse_hex_u128(s@) is Some,
            r matches Ok(k) ==> parse_hex_u128(s@) matches Some(v) && k@ == be128(v),
    {
        NetworkKey::from_hex_str(s)
    }
}

impl From<u128> for NetworkKey {
    fn from(v: u128) -> (r: NetworkKey)
        ensures
            r@ == be128(v),
    {
        let a = u128_to_be_bytes(v);
        proof {
            lemma_array_from::<16>(a);
        }
        NetworkKey(a)
    }
}

impl vstd::std_specs::convert::FromSpecImpl<u128> for NetworkKey {
    open spec fn obeys_from_spec() -> bool {
        true
    }

    open spec fn from_spec(v: u128) -> NetworkKey {
        NetworkKey(array_from::<16>(be128(v)))
    }
}

impl From<[u8; 16]> for NetworkKey {
    fn from(v: [u8; 16]) -> (r: NetworkKey)
        ensures
            r@ == v@,
    {
        NetworkKey(v)
    }
}

impl vstd::std_specs::convert::FromSpecImpl<[u8; 16]> for NetworkKey {
    open spec fn obeys_from_spec() -> bool {
        true
    }

    open spec fn from_spec(v: [u8; 16]) -> NetworkKey {
        NetworkKey(v)
    }
}

impl TlvType for NetworkKey {
    const TLV_TYPE: u8 = 0x05;
}

impl TlvLength for NetworkKey {
    open spec fn value_bytes(&self) -> Seq<u8> {
        self.0@
    }

    open spec fn constant_len() -> bool {
        true
    }

    fn tlv_len(&self) -> (r: usize) {
        16
    }

    fn tlv_len_is_constant() -> (r: bool) {
        true
    }
}

impl TlvMetadata for NetworkKey {

}

impl TlvConstantMetadata for NetworkKey {
    const TLV_LEN: usize = 16;

    proof fn lemma_constant_len(&self)
        ensures
            self.value_bytes().len() == 16,
    {
    }
}

impl TryEncodeTlvValue for NetworkKey {
    fn try_encode_tlv_value(&self, buffer: &mut [u8], pos: usize) -> (r: Result<usize, TwineTlvError>) {
        if pos > buffer.len() || buffer.len() - pos < 16 {
            return Err(TwineTlvError::BufferEncodeTooShort);
        }
        put_slice(buffer, pos, self.0.as_slice());
        Ok(16)
    }
}

impl DecodeTlvValueUnchecked for NetworkKey {
    open spec fn decode_value(bytes: Seq<u8>) -> NetworkKey {
        NetworkKey(array_from::<16>(padded(bytes, 16)))
    }

    open spec fn well_formed(&self) -> bool {
        true
    }

    fn decode_tlv_value_unchecked(buffer: &[u8]) -> (r: NetworkKey) {
        NetworkKey(take_array::<16>(buffer))
    }

    proof fn lemma_decode_encoded(&self) {
        assert(padded(self.0@, 16) =~= self.0@);
        lemma_array_from::<16>(self.0);
    }
}

impl DecodeTlvUnchecked for NetworkKey {

}

impl TryEncodeTlv for NetworkKey {

}

/// A Thread PSKc.
#[derive(Clone, Copy, Debug, PartialEq, Eq)]
pub struct Pskc(pub [u8; 16]);

impl View for Pskc {
    type V = Seq<u8>;

    open spec fn view(&self) -> Seq<u8> {
        self.0@
    }
}

impl Pskc {
    /// The PSKc's sixteen bytes.
    pub fn as_bytes(&self) -> (r: &[u8])
        ensures
            r@ == self@,
    {
        self.0.as_slice()
    }

    /// A random PSKc: the drawn bytes as they are, through `From<[u8; 16]>`.
    /// Fails when the random source does.
    pub fn random() -> (r: Result<Self, TwineCodecError>)
        ensures
            r matches Ok(k) ==> k@.len() == 16,
    {
        let mut bytes = [0u8; 16];
        match fill_random_bytes(&mut bytes) {
            Ok(()) => Ok(Pskc::from(bytes)),
            Err(e) => Err(e),
        }
    }
}

impl From<u128> for Pskc {
    fn from(v: u128) -> (r: Pskc)
        ensures
            r@ == be128(v),
    {
        let a = u128_to_be_bytes(v);
        proof {
            lemma_array_from::<16>(a);
        }
        Pskc(a)
    }
}

impl vstd::std_specs::convert::FromSpecImpl<u128> for Pskc {
    open spec fn obeys_from_spec() -> bool {
        true
    }

    open spec fn from_spec(v: u128) -> Pskc {
        Pskc(array_from::<16>(be128(v)))
    }
}

impl From<[u8; 16]> for Pskc {
    fn from(v: [u8; 16]) -> (r: Pskc)
        ensures
            r@ == v@,
    {
        Pskc(v)
    }
}

impl vstd::std_specs::convert::FromSpecImpl<[u8; 16]> for Pskc {
    open spec fn obeys_from_spec() -> bool {
        true
    }

    open spec fn from_spec(v: [u8; 16]) -> Pskc {
        Pskc(v)
    }
}

impl TlvType for Pskc {
    const TLV_TYPE: u8 = 0x04;
}

impl TlvLength for Pskc {
    open spec fn value_bytes(&self) -> Seq<u8> {
        self.0@
    }

    open spec fn constant_len() -> bool {
        true
    }

    fn tlv_len(&self) -> (r: usize) {
        16
    }

    fn tlv_len_is_constant() -> (r: bool) {
        true
    }
}

impl TlvMetadata for Pskc {

}

impl TlvConstantMetadata for Pskc {
    const TLV_LEN: usize = 16;

    proof fn lemma_constant_len(&self)
        ensures
            self.value_bytes().len() == 16,
    {
    }
}

impl TryEncodeTlvValue for Pskc {
    fn try_encode_tlv_value(&self, buffer: &mut [u8], pos: usize) -> (r: Result<usize, TwineTlvError>) {
        if pos > buffer.len() || buffer.len() - pos < 16 {
            return Err(TwineTlvError::BufferEncodeTooShort);
        }
        put_slice(buffer, pos, self.0.as_slice());
        Ok(16)
    }
}

impl DecodeTlvValueUnchecked for Pskc {
    open spec fn decode_value(bytes: Seq<u8>) -> Pskc {
        Pskc(array_from::<16>(padded(bytes, 16)))
    }

    open spec fn well_formed(&self) -> bool {
        true
    }

    fn decode_tlv_value_unchecked(buffer: &[u8]) -> (r: Pskc) {
        Pskc(take_array::<16>(buffer))
    }

    proof fn lemma_decode_encoded(&self) {
        assert(padded(self.0@, 16) =~= self.0@);
        lemma_array_from::<16>(self.0);
    }
}

impl DecodeTlvUnchecked for Pskc {

}

impl TryEncodeTlv for Pskc {

}

/// IEEE 802.15.4 extended PAN ID.
#[derive(Clone, Copy, Debug, PartialEq, Eq)]
pub struct ExtendedPanId(pub [u8; 8]);

impl View for ExtendedPanId {
    type V = Seq<u8>;

    open spec fn view(&self) -> Seq<u8> {
        self.0@
    }
}

impl ExtendedPanId {
    /// The eight bytes.
    pub fn as_bytes(&self) -> (r: &[u8])
        ensures
            r@ == self@,
    {
        self.0.as_slice()
    }

    /// A random extended PAN ID: the drawn bytes as they are, through
    /// `From<[u8; 8]>`. Fails when the random source does.
    pub fn random() -> (r: Result<Self, TwineCodecError>)
        ensures
            r matches Ok(x) ==> x@.len() == 8,
    {
        let mut bytes = [0u8; 8];
        match fill_random_bytes(&mut bytes) {
            Ok(()) => Ok(ExtendedPanId::from(bytes)),
            Err(e) => Err(e),
        }
    }
}

impl From<u64> for ExtendedPanId {
    fn from(v: u64) -> (r: ExtendedPanId)
        ensures
            r@ == be64(v),
    {
        let a = u64_to_be_bytes(v);
        proof {
            lemma_array_from::<8>(a);
        }
        ExtendedPanId(a)
    }
}

impl vstd::std_specs::convert::FromSpecImpl<u64> for ExtendedPanId {
    open spec fn obeys_from_spec() -> bool {
        true
    }

    open spec fn from_spec(v: u64) -> ExtendedPanId {
        ExtendedPanId(array_from::<8>(be64(v)))
    }
}

impl From<[u8; 8]> for ExtendedPanId {
    fn from(v: [u8; 8]) -> (r: ExtendedPanId)
        ensures
            r@ == v@,
    {
        ExtendedPanId(v)
    }
}

impl vstd::std_specs::convert::FromSpecImpl<[u8; 8]> for ExtendedPanId {
    open spec fn obeys_from_spec() -> bool {
        true
    }

    open spec fn from_spec(v: [u8; 8]) -> ExtendedPanId {
        ExtendedPanId(v)
    }
}

impl From<ExtendedPanId> for u64 {
    fn from(v: ExtendedPanId) -> (r: u64)
        ensures
            r == read_be64(v@, 0),
    {
        get_u64(v.0.as_slice(), 0)
    }
}

impl vstd::std_specs::convert::FromSpecImpl<ExtendedPanId> for u64 {
    open spec fn obeys_from_spec() -> bool {
        true
    }

    open spec fn from_spec(v: ExtendedPanId) -> u64 {
        read_be64(v@, 0)
    }
}

impl TlvType for ExtendedPanId {
    const TLV_TYPE: u8 = 0x02;
}

impl TlvLength for ExtendedPanId {
    open spec fn value_bytes(&self) -> Seq<u8> {
        self.0@
    }

    open spec fn constant_len() -> bool {
        true
    }

    fn tlv_len(&self) -> (r: usize) {
        8
    }

    fn tlv_len_is_constant() -> (r: bool) {
        true
    }
}

impl TlvMetadata for ExtendedPanId {

}

impl TlvConstantMetadata for ExtendedPanId {
    const TLV_LEN: usize = 8;

    proof fn lemma_constant_len(&self)
        ensures
            self.value_bytes().len() == 8,
    {
    }
}

impl TryEncodeTlvValue for ExtendedPanId {
    fn try_encode_tlv_value(&self, buffer: &mut [u8], pos: usize) -> (r: Result<usize, TwineTlvError>) {
        if pos > buffer.len() || buffer.len() - pos < 8 {
            return Err(TwineTlvError::BufferEncodeTooShort);
        }
        put_slice(buffer, pos, self.0.as_slice());
        Ok(8)
    }
}

impl DecodeTlvValueUnchecked for ExtendedPanId {
    open spec fn decode_value(bytes: Seq<u8>) -> ExtendedPanId {
        ExtendedPanId(array_from::<8>(padded(bytes, 8)))
    }

    open spec fn well_formed(&self) -> bool {
        true
    }

    fn decode_tlv_value_unchecked(buffer: &[u8]) -> (r: ExtendedPanId) {
        ExtendedPanId(take_array::<8>(buffer))
    }

    proof fn lemma_decode_encoded(&self) {
        assert(padded(self.0@, 8) =~= self.0@);
        lemma_array_from::<8>(self.0);
    }
}

impl DecodeTlvUnchecked for ExtendedPanId {

}

impl TryEncodeTlv for ExtendedPanId {

}

/// The text of a mesh-local prefix: four colon-separated groups of four
/// lowercase hex digits, then `::/64`.
pub open spec fn prefix_text(b: Seq<u8>) -> Seq<char> {
    seq![
        hex_char(b[0] / 16), hex_char(b[0] % 16), hex_char(b[1] / 16), hex_char(b[1] % 16), ':',
        hex_char(b[2] / 16), hex_char(b[2] % 16), hex_char(b[3] / 16), hex_char(b[3] % 16), ':',
        hex_char(b[4] / 16), hex_char(b[4] % 16), hex_char(b[5] / 16), hex_char(b[5] % 16), ':',
        hex_char(b[6] / 16), hex_char(b[6] % 16), hex_char(b[7] / 16), hex_char(b[7] % 16), ':',
        ':', '/', '6', '4',
    ]
}

/// The first byte of a unique local address (ULA) prefix.
pub const ULA_PREFIX_BYTE: u8 = 0xfd;

/// A Thread mesh-local prefix: the first 64 bits of an IPv6 address.
#[derive(Clone, Copy, Debug, PartialEq, Eq)]
pub struct MeshLocalPrefix(pub [u8; 8]);

impl View for MeshLocalPrefix {
    type V = Seq<u8>;

    open spec fn view(&self) -> Seq<u8> {
        self.0@
    }
}

impl MeshLocalPrefix {
    /// The unique local prefix `fd` followed by the seven given bytes.
    pub fn ula_from_random(random: [u8; 7]) -> (r: Self)
        ensures
            r@ == seq![ULA_PREFIX_BYTE] + random@,
    {
        let bytes = [
            ULA_PREFIX_BYTE,
            random[0],
            random[1],
            random[2],
            random[3],
            random[4],
            random[5],
            random[6],
        ];
        assert(bytes@ =~= seq![ULA_PREFIX_BYTE] + random@);
        MeshLocalPrefix(bytes)
    }

    /// A random unique local prefix: `fd` then seven random bytes, made by
    /// [`MeshLocalPrefix::ula_from_random`]. Fails when the random source
    /// does.
    pub fn random_ula() -> (r: Result<Self, TwineCodecError>)
        ensures
            r matches Ok(p) ==> p@.len() == 8 && p@[0] == ULA_PREFIX_BYTE,
    {
        let mut random = [0u8; 7];
        match fill_random_bytes(&mut random) {
            Ok(()) => Ok(MeshLocalPrefix::ula_from_random(random)),
            Err(e) => Err(e),
        }
    }

    /// The prefix as text, such as `fde2:2fdc:9477:9b16::/64`.
    pub fn to_display_string(&self) -> (r: String)
        ensures
            r@ == prefix_text(self@),
    {
        let mut s = String::new();
        let mut i: usize = 0;
        while i < 8
            invariant
                i <= 8,
                i % 2 == 0,
                self.0@.len() == 8,
                s@ == prefix_text(self@).subrange(0, (i / 2 * 5) as int),
            decreases 8 - i,
        {
            push_hex_digit(&mut s, self.0[i] / 16);
            push_hex_digit(&mut s, self.0[i] % 16);
            push_hex_digit(&mut s, self.0[i + 1] / 16);
            push_hex_digit(&mut s, self.0[i + 1] % 16);
            s.append(":");
            proof {
                reveal_strlit(":");
            }
            assert(s@ =~= prefix_text(self@).subrange(0, ((i + 2) / 2 * 5) as int));
            i += 2;
        }
        s.append(":/64");
        proof {
            reveal_strlit(":/64");
        }
        assert(s@ =~= prefix_text(self@));
        s
    }
}

impl From<[u8; 8]> for MeshLocalPrefix {
    fn from(v: [u8; 8]) -> (r: MeshLocalPrefix)
        ensures
            r@ == v@,
    {
        MeshLocalPrefix(v)
    }
}

impl vstd::std_specs::convert::FromSpecImpl<[u8; 8]> for MeshLocalPrefix {
    open spec fn obeys_from_spec() -> bool {
        true
    }

    open spec fn from_spec(v: [u8; 8]) -> MeshLocalPrefix {
        MeshLocalPrefix(v)
    }
}

impl TlvType for MeshLocalPrefix {
    const TLV_TYPE: u8 = 0x07;
}

impl TlvLength for MeshLocalPrefix {
    open spec fn value_bytes(&self) -> Seq<u8> {
        self.0@
    }

    open spec fn constant_len() -> bool {
        true
    }

    fn tlv_len(&self) -> (r: usize) {
        8
    }

    fn tlv_len_is_constant() -> (r: bool) {
        true
    }
}

impl TlvMetadata for MeshLocalPrefix {

}

impl TlvConstantMetadata for MeshLocalPrefix {
    const TLV_LEN: usize = 8;

    proof fn lemma_constant_len(&self)
        ensures
            self.value_bytes().len() == 8,
    {
    }
}

impl TryEncodeTlvValue for MeshLocalPrefix {
    fn try_encode_tlv_value(&self, buffer: &mut [u8], pos: usize) -> (r: Result<usize, TwineTlvError>) {
        if pos > buffer.len() || buffer.len() - pos < 8 {
            return Err(TwineTlvError::BufferEncodeTooShort);
        }
        put_slice(buffer, pos, self.0.as_slice());
        Ok(8)
    }
}

impl DecodeTlvValueUnchecked for MeshLocalPrefix {
    open spec fn decode_value(bytes: Seq<u8>) -> MeshLocalPrefix {
        MeshLocalPrefix(array_from::<8>(padded(bytes, 8)))
    }

    open spec fn well_formed(&self) -> bool {
        true
    }

    fn decode_tlv_value_unchecked(buffer: &[u8]) -> (r: MeshLocalPrefix) {
        MeshLocalPrefix(take_array::<8>(buffer))
    }

    proof fn lemma_decode_encoded(&self) {
        assert(padded(self.0@, 8) =~= self.0@);
        lemma_array_from::<8>(self.0);
    }
}

impl DecodeTlvUnchecked for MeshLocalPrefix {

}

impl TryEncodeTlv for MeshLocalPrefix {

}

/// The type bytes and lengths of the key and identifier records.
pub proof fn lemma_key_tlv_types()
    ensures
        NetworkKey::TLV_TYPE == 0x05 && NetworkKey::TLV_LEN == 16,
        Pskc::TLV_TYPE == 0x04 && Pskc::TLV_LEN == 16,
        ExtendedPanId::TLV_TYPE == 0x02 && ExtendedPanId::TLV_LEN == 8,
        MeshLocalPrefix::TLV_TYPE == 0x07 && MeshLocalPrefix::TLV_LEN == 8,
{
}

} // verus!
