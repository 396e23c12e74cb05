//! The Thread network name: up to 16 bytes of UTF-8.
use vstd::prelude::*;
use vstd::string::{StringExecFns, StringSliceAdditionalSpecFns};

use crate::be::{byte_at, get_u8, put_slice, splice};
use crate::codec_error::TwineCodecError;
use crate::error::TwineTlvError;
use crate::text::utf8_text;
use crate::traits::{
    array_from, lemma_array_from, take_array, DecodeTlvUnchecked, DecodeTlvValueUnchecked, TlvLength,
    TlvMetadata, TlvType, TryEncodeTlv, TryEncodeTlvValue,
};

verus! {

/// The longest network name, in bytes.
pub const NETWORK_NAME_MAX_SIZE: usize = 16;

/// The index of the first zero byte of `a` from `i` on, below 16; else 16.
pub open spec fn zero_from(a: Seq<u8>, i: nat) -> nat
    decreases 16 - i,
{
    if i >= 16 {
        16
    } else if a[i as int] == 0 {
        i
    } else {
        zero_from(a, i + 1)
    }
}

/// The length of the name held in `a`: the bytes before the first zero.
pub open spec fn name_len(a: Seq<u8>) -> nat {
    zero_from(a, 0)
}

proof fn lemma_zero_from(a: Seq<u8>, i: nat)
    requires
        i <= 16,
        a.len() == 17,
    ensures
        i <= zero_from(a, i) <= 16,
        zero_from(a, i) < 16 ==> a[zero_from(a, i) as int] == 0,
        forall|j: int| i <= j < zero_from(a, i) ==> a[j] != 0,
    decreases 16 - i,
{
    if i < 16 && a[i as int] != 0 {
        lemma_zero_from(a, i + 1);
    }
}

/// The name, NUL-padded to 17 bytes.
#[derive(Clone, Copy, Debug, PartialEq, Eq)]
pub struct NetworkName(pub [u8; 17]);

impl View for NetworkName {
    /// All 17 bytes.
    type V = Seq<u8>;

    open spec fn view(&self) -> Seq<u8> {
        self.0@
    }
}

/// Type name used in errors.
pub const NETWORK_NAME_TYPE_NAME: &'static str = "NetworkName";

impl NetworkName {
    /// The name's bytes: those before the first zero.
    pub fn name_bytes(&self) -> (r: &[u8])
        ensures
            r@ == self@.subrange(0, name_len(self@) as int),
    {
        let n = self.tlv_len();
        proof {
            lemma_zero_from(self.0@, 0);
            assert(n == self.value_bytes().len());
            assert(n == name_len(self@));
        }
        vstd::slice::slice_subrange(self.0.as_slice(), 0, n)
    }

    /// A name from text of at most 16 bytes; longer text gives
    /// `BufferMaxLength`.
    pub fn from_text(s: &str) -> (r: Result<Self, TwineCodecError>)
        ensures
            s.spec_bytes().len() > NETWORK_NAME_MAX_SIZE ==> r == Err::<Self, TwineCodecError>(
                TwineCodecError::BufferMaxLength(
                    NETWORK_NAME_TYPE_NAME,
                    NETWORK_NAME_MAX_SIZE,
                    s.spec_bytes().len() as usize,
                ),
            ),
            s.spec_bytes().len() <= NETWORK_NAME_MAX_SIZE ==> (r matches Ok(n) && n@
                == s.spec_bytes() + Seq::new((17 - s.spec_bytes().len()) as nat, |i: int| 0u8)),
    {
        let raw = s.as_bytes();
        let length = raw.len();
        if length > NETWORK_NAME_MAX_SIZE {
            return Err(
                TwineCodecError::BufferMaxLength(NETWORK_NAME_TYPE_NAME, NETWORK_NAME_MAX_SIZE, length),
            );
        }
        let mut n = [0u8; 17];
        let mut i: usize = 0;
        while i < length
            invariant
                i <= length,
                length == raw@.len(),
                length <= 16,
                raw@ == s.spec_bytes(),
                n@.len() == 17,
                forall|j: int| 0 <= j < i ==> n@[j] == raw@[j],
                forall|j: int| i <= j < 17 ==> n@[j] == 0,
            decreases length - i,
        {
            n[i] = raw[i];
            i += 1;
        }
        assert(n@ =~= s.spec_bytes() + Seq::new((17 - length) as nat, |i: int| 0u8));
        Ok(NetworkName(n))
    }

    /// The name as text, when its bytes are valid UTF-8.
    pub fn as_string(&self) -> (r: Option<String>)
        ensures
            r is Some <==> vstd::utf8::valid_utf8(self@.subrange(0, name_len(self@) as int)),
    {
        let bytes = self.name_bytes();
        match utf8_text(bytes) {
            Some(text) => Some(String::from_str(text)),
            None => None,
        }
    }
}

/// The ASCII lowercase hex digit for `n` (below 16).
pub open spec fn ascii_hex_digit(n: u16) -> u8 {
    if n < 10 {
        (48 + n) as u8
    } else {
        (87 + n) as u8
    }
}

/// The number of hex digits of `v`, without leading zeros.
pub open spec fn hex_digit_count(v: u16) -> nat {
    if v < 16 {
        1
    } else if v < 256 {
        2
    } else if v < 4096 {
        3
    } else {
        4
    }
}

/// `v` as ASCII lowercase hex digits, without leading zeros.
pub open spec fn ascii_hex(v: u16) -> Seq<u8> {
    Seq::new(
        hex_digit_count(v),
        |i: int|
            ascii_hex_digit(((v >> ((4 * (hex_digit_count(v) - 1 - i)) as u16)) & 0xFu16) as u16),
    )
}

/// The bytes of the name `Twine-` followed by `pan_id` in lowercase hex.
pub open spec fn twine_name_bytes(pan_id: u16) -> Seq<u8> {
    seq![0x54u8, 0x77, 0x69, 0x6e, 0x65, 0x2d] + ascii_hex(pan_id)
}

/// The name held in `a` ends at `k` when `k` is its first zero byte.
pub proof fn lemma_name_len_is(a: Seq<u8>, k: nat)
    requires
        a.len() == 17,
        k < 16,
        a[k as int] == 0,
        forall|j: int| 0 <= j < k ==> a[j] != 0,
    ensures
        name_len(a) == k,
{
    lemma_zero_from_is(a, 0, k);
}

proof fn lemma_zero_from_is(a: Seq<u8>, i: nat, k: nat)
    requires
        a.len() == 17,
        i <= k < 16,
        a[k as int] == 0,
        forall|j: int| 0 <= j < k ==> a[j] != 0,
    ensures
        zero_from(a, i) == k,
    decreases k - i,
{
    if i < k {
        lemma_zero_from_is(a, i + 1, k);
    }
}

impl NetworkName {
    /// The name `Twine-` followed by `pan_id` in lowercase hex, such as
    /// `Twine-b3de`.
    pub fn for_pan_id(pan_id: u16) -> (r: Self)
        ensures
            r.value_bytes() == twine_name_bytes(pan_id),
            r.well_formed(),
    {
        let mut a: [u8; 17] = [0, 0, 0, 0, 0, 0, 0, 0, 0, 0, 0, 0, 0, 0, 0, 0, 0];
        a[0] = 0x54;
        a[1] = 0x77;
        a[2] = 0x69;
        a[3] = 0x6e;
        a[4] = 0x65;
        a[5] = 0x2d;
        let d: u16 = if pan_id < 16 {
            1
        } else if pan_id < 256 {
            2
        } else if pan_id < 4096 {
            3
        } else {
            4
        };
        let ghost digits = ascii_hex(pan_id);
        let mut i: u16 = 0;
        while i < d
            invariant
                d as nat == hex_digit_count(pan_id),
                digits == ascii_hex(pan_id),
                i <= d,
                a@.len() == 17,
                a@.subrange(0, 6) == seq![0x54u8, 0x77, 0x69, 0x6e, 0x65, 0x2d],
                forall|j: int| 0 <= j < i ==> a@[6 + j] == digits[j],
                forall|j: int| 6 + i <= j < 17 ==> a@[j] == 0,
            decreases d - i,
        {
            let shift: u16 = 4 * (d - 1 - i);
            let nibble: u16 = (pan_id >> shift) & 0xF;
            proof {
                assert(((pan_id >> shift) & 0xFu16) < 16u16) by (bit_vector);
            }
            let c: u8 = if nibble < 10 {
                48 + nibble as u8
            } else {
                87 + nibble as u8
            };
            a[6 + i as usize] = c;
            assert(a@.subrange(0, 6) =~= seq![0x54u8, 0x77, 0x69, 0x6e, 0x65, 0x2d]);
            i += 1;
        }
        proof {
            let k = 6 + d as nat;
            assert forall|j: int| 0 <= j < k implies a@[j] != 0 by {
                if j < 6 {
                    assert(a@[j] == a@.subrange(0, 6)[j]);
                } else {
                    assert(a@[j] == digits[j - 6]);
                    let sh = (4 * (hex_digit_count(pan_id) - 1 - (j - 6))) as u16;
                    assert(((pan_id >> sh) & 0xFu16) < 16u16) by (bit_vector);
                }
            }
            lemma_name_len_is(a@, k);
            assert(a@.subrange(0, k as int) =~= twine_name_bytes(pan_id)) by {
                assert forall|j: int| 0 <= j < k implies a@[j] == twine_name_bytes(pan_id)[j] by {
                    if j < 6 {
                        assert(a@[j] == a@.subrange(0, 6)[j]);
                    }
                }
            }
        }
        NetworkName(a)
    }

    /// A name's value takes at most 16 bytes.
    pub proof fn lemma_value_len(&self)
        ensures
            self.value_bytes().len() <= NETWORK_NAME_MAX_SIZE,
    {
        lemma_zero_from(self.0@, 0);
    }
}

impl core::str::FromStr for NetworkName {
    type Err = TwineCodecError;

    /// The same as [`NetworkName::from_text`].
    fn from_str(s: &str) -> (r: Result<Self, Self::Err>)
        ensures
            s.spec_bytes().len() > NETWORK_NAME_MAX_SIZE ==> r == Err::<Self, TwineCodecError>(
                TwineCodecError::BufferMaxLength(
                    NETWORK_NAME_TYPE_NAME,
                    NETWORK_NAME_MAX_SIZE,
                    s.spec_bytes().len() as usize,
                ),
            ),
            s.spec_bytes().len() <= NETWORK_NAME_MAX_SIZE ==> (r matches Ok(n) && n@
                == s.spec_bytes() + Seq::new((17 - s.spec_bytes().len()) as nat, |i: int| 0u8)),
    {
        NetworkName::from_text(s)
    }
}

impl TlvType for NetworkName {
    const TLV_TYPE: u8 = 0x03;
}

impl TlvLength for NetworkName {
    open spec fn value_bytes(&self) -> Seq<u8> {
        self.0@.subrange(0, name_len(self.0@) as int)
    }

    open spec fn constant_len() -> bool {
        false
    }

    fn tlv_len(&self) -> (r: usize) {
        proof {
            lemma_zero_from(self.0@, 0);
        }
        let mut i: usize = 0;
        while i < NETWORK_NAME_MAX_SIZE && self.0[i] != 0
            invariant
                i <= 16,
                self.0@.len() == 17,
                zero_from(self.0@, i as nat) == name_len(self.0@),
            decreases 16 - i,
        {
            i += 1;
        }
        i
    }

    fn tlv_len_is_constant() -> (r: bool) {
        false
    }
}

impl TlvMetadata for NetworkName {

}

impl TryEncodeTlvValue for NetworkName {
    fn try_encode_tlv_value(&self, buffer: &mut [u8], pos: usize) -> (r: Result<usize, TwineTlvError>) {
        let bytes = self.name_bytes();
        let n = bytes.len();
        if pos > buffer.len() || buffer.len() - pos < n {
            return Err(TwineTlvError::BufferEncodeTooShort);
        }
        put_slice(buffer, pos, bytes);
        Ok(n)
    }
}

/// The name that the first 16 bytes of `bytes` hold, NUL-padded.
pub open spec fn name_array(bytes: Seq<u8>) -> Seq<u8> {
    Seq::new(17, |i: int| if i < 16 { byte_at(bytes, i) } else { 0u8 })
}

impl DecodeTlvValueUnchecked for NetworkName {
    open spec fn decode_value(bytes: Seq<u8>) -> NetworkName {
        NetworkName(array_from::<17>(name_array(bytes)))
    }

    /// The last byte is zero, and so is every byte after the name.
    open spec fn well_formed(&self) -> bool {
        forall|j: int| name_len(self.0@) <= j < 17 ==> self.0@[j] == 0
    }

    fn decode_tlv_value_unchecked(buffer: &[u8]) -> (r: NetworkName) {
        let mut n = take_array::<17>(buffer);
        n[16] = 0;
        assert(n@ =~= name_array(buffer@));
        proof {
            lemma_array_from::<17>(n);
        }
        NetworkName(n)
    }

    proof fn lemma_decode_encoded(&self) {
        lemma_zero_from(self.0@, 0);
        let v = self.value_bytes();
        assert(name_array(v) =~= self.0@);
        lemma_array_from::<17>(self.0);
    }
}

impl DecodeTlvUnchecked for NetworkName {

}

impl TryEncodeTlv for NetworkName {

}

/// The type byte of the network name record.
pub proof fn lemma_network_name_tlv_type()
    ensures
        NetworkName::TLV_TYPE == 0x03,
{
}

} // verus!
