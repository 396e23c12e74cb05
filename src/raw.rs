//! Records whose value is plain bytes: of a fixed size, or of any size up
//! to a bound.
use vstd::prelude::*;

use crate::be::{put_slice, splice};
use crate::error::TwineTlvError;
use crate::traits::{
    array_from, lemma_array_from, padded, take_array, DecodeTlvUnchecked, DecodeTlvValueUnchecked,
    TlvConstantMetadata, TlvLength, TlvMetadata, TlvType, TryEncodeTlv, TryEncodeTlvValue,
};

verus! {

/// A record of type `T` whose value is `N` bytes.
#[derive(Clone, Copy, Debug, PartialEq, Eq)]
pub struct RawTlv<const T: u8, const N: usize>(pub [u8; N]);

impl<const T: u8, const N: usize> RawTlv<T, N> {
    pub fn new(value: [u8; N]) -> (r: Self)
        ensures
            r.0 == value,
    {
        RawTlv(value)
    }
}

impl<const T: u8, const N: usize> TlvType for RawTlv<T, N> {
    const TLV_TYPE: u8 = T;
}

impl<const T: u8, const N: usize> TlvLength for RawTlv<T, N> {
    open spec fn value_bytes(&self) -> Seq<u8> {
        self.0@
    }

    open spec fn constant_len() -> bool {
        true
    }

    fn tlv_len(&self) -> (r: usize) {
        N
    }

    fn tlv_len_is_constant() -> (r: bool) {
        true
    }
}

impl<const T: u8, const N: usize> TlvMetadata for RawTlv<T, N> {

}

impl<const T: u8, const N: usize> TlvConstantMetadata for RawTlv<T, N> {
    const TLV_LEN: usize = N;

    proof fn lemma_constant_len(&self) {
    }
}

impl<const T: u8, const N: usize> TryEncodeTlvValue for RawTlv<T, N> {
    fn try_encode_tlv_value(&self, buffer: &mut [u8], pos: usize) -> (r: Result<usize, TwineTlvError>) {
        if pos > buffer.len() || buffer.len() - pos < N {
            return Err(TwineTlvError::BufferEncodeTooShort);
        }
        put_slice(buffer, pos, self.0.as_slice());
        Ok(N)
    }
}

impl<const T: u8, const N: usize> DecodeTlvValueUnchecked for RawTlv<T, N> {
    open spec fn decode_value(bytes: Seq<u8>) -> RawTlv<T, N> {
        RawTlv(array_from::<N>(padded(bytes, N as nat)))
    }

    open spec fn well_formed(&self) -> bool {
        true
    }

    fn decode_tlv_value_unchecked(buffer: &[u8]) -> (r: RawTlv<T, N>) {
        RawTlv(take_array::<N>(buffer))
    }

    proof fn lemma_decode_encoded(&self) {
        assert(padded(self.0@, N as nat) =~= self.0@);
        lemma_array_from::<N>(self.0);
    }
}

impl<const T: u8, const N: usize> DecodeTlvUnchecked for RawTlv<T, N> {

}

impl<const T: u8, const N: usize> TryEncodeTlv for RawTlv<T, N> {

}

/// A record of type `T` whose value is any number of bytes.
#[derive(Clone, Debug, PartialEq, Eq)]
pub struct VarTlv<const T: u8>(pub Vec<u8>);

impl<const T: u8> VarTlv<T> {
    pub fn new(value: Vec<u8>) -> (r: Self)
        ensures
            r.0@ == value@,
    {
        VarTlv(value)
    }
}

impl<const T: u8> TlvType for VarTlv<T> {
    const TLV_TYPE: u8 = T;
}

impl<const T: u8> TlvLength for VarTlv<T> {
    open spec fn value_bytes(&self) -> Seq<u8> {
        self.0@
    }

    open spec fn constant_len() -> bool {
        false
    }

    fn tlv_len(&self) -> (r: usize) {
        self.0.len()
    }

    fn tlv_len_is_constant() -> (r: bool) {
        false
    }
}

impl<const T: u8> TlvMetadata for VarTlv<T> {

}

impl<const T: u8> TryEncodeTlvValue for VarTlv<T> {
    fn try_encode_tlv_value(&self, buffer: &mut [u8], pos: usize) -> (r: Result<usize, TwineTlvError>) {
        let value = self.0.as_slice();
        if pos > buffer.len() || buffer.len() - pos < value.len() {
            return Err(TwineTlvError::BufferEncodeTooShort);
        }
        put_slice(buffer, pos, value);
        Ok(value.len())
    }
}

impl<const T: u8> TryEncodeTlv for VarTlv<T> {

}

} // verus!
