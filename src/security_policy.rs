//! The Thread security policy: key rotation time and flags, packed in 32 bits.
use vstd::prelude::*;

use crate::be::{be32, get_u32, put_u32, read_be32, splice};
use crate::codec_error::TwineCodecError;
use crate::error::TwineTlvError;
use crate::text::{decimal, push_decimal};
use crate::traits::{
    DecodeTlvUnchecked, DecodeTlvValueUnchecked, TlvConstantMetadata, TlvLength, TlvMetadata,
    TlvType, TryEncodeTlv, TryEncodeTlvValue,
};

verus! {

/// The oldest Thread protocol version whose routers may join.
#[derive(Clone, Copy, Debug, PartialEq, Eq, Structural)]
pub enum VersionThreshold {
    /// Protocol version 1 (Thread 1.0) or 2 (Thread 1.1.x).
    ProtocolVersion2,
    /// Protocol version 3 (Thread 1.2.x).
    ProtocolVersion3,
    /// Protocol version 4 (Thread 1.3.x).
    ProtocolVersion4,
    /// Protocol version 5 (Thread 1.4.x).
    ProtocolVersion5,
}

/// Bit `n` of `v`.
pub open spec fn bit(v: u32, n: u32) -> bool {
    (v >> n) & 1u32 == 1u32
}

pub const SECURITY_POLICY_TYPE_NAME: &'static str = "SecurityPolicy";

/// The security policy.
#[derive(Clone, Copy, Debug, PartialEq, Eq)]
pub struct SecurityPolicy(pub u32);

impl View for SecurityPolicy {
    type V = u32;

    open spec fn view(&self) -> u32 {
        self.0
    }
}

/// The default policy: 672 hours between key rotations, every feature
/// on, protocol version 2 (what `SecurityPolicyBuilder::with_default_policy`
/// builds).
pub const DEFAULT_SECURITY_POLICY: u32 = 0x02A0_F7F8;

impl Default for SecurityPolicy {
    fn default() -> (r: Self)
        ensures
            r@ == DEFAULT_SECURITY_POLICY,
    {
        SecurityPolicy(DEFAULT_SECURITY_POLICY)
    }
}

/// The version threshold that the bits `v` give: protocol version 2 when
/// legacy routers are enabled, else from the low three bits; `Err` with
/// those bits when they name no version.
pub open spec fn threshold_of(v: u32) -> Result<VersionThreshold, u8> {
    if bit(v, 13) {
        Ok(VersionThreshold::ProtocolVersion2)
    } else if v & 7u32 == 0 {
        Ok(VersionThreshold::ProtocolVersion3)
    } else if v & 7u32 == 1 {
        Ok(VersionThreshold::ProtocolVersion4)
    } else if v & 7u32 == 2 {
        Ok(VersionThreshold::ProtocolVersion5)
    } else {
        Err((v & 7u32) as u8)
    }
}

/// The flags as text: `o`, `n`, `r`, `c` for the enabled features, then `C`,
/// `e`, `p`, `R` for the features whose "disabled" bit is clear.
pub open spec fn policy_flags(v: u32) -> Seq<char> {
    flag(bit(v, 15), 'o') + flag(bit(v, 14), 'n') + flag(bit(v, 13), 'r') + flag(bit(v, 12), 'c')
        + flag(!bit(v, 10), 'C') + flag(!bit(v, 9), 'e') + flag(!bit(v, 8), 'p') + flag(
        !bit(v, 6),
        'R',
    )
}

/// `c` when `on`, else nothing.
pub open spec fn flag(on: bool, c: char) -> Seq<char> {
    if on {
        seq![c]
    } else {
        Seq::empty()
    }
}

/// `s` followed by the one-character text `c` when `on`.
fn with_flag(s: String, on: bool, c: &str) -> (r: String)
    requires
        c@.len() == 1,
    ensures
        r@ == s@ + flag(on, c@[0]),
{
    if on {
        let r = s.concat(c);
        assert(r@ =~= s@ + flag(on, c@[0]));
        r
    } else {
        assert(s@ =~= s@ + flag(on, c@[0]));
        s
    }
}

/// The policy as text: rotation time in hours, flags, version threshold bits.
pub open spec fn policy_text(v: u32) -> Seq<char> {
    decimal((v >> 16u32) as nat) + seq![' '] + policy_flags(v) + seq![' '] + decimal((v & 7u32) as nat)
}

/// `s` followed by the flags of the policy bits `v`.
fn with_policy_flags(s: String, v: u32) -> (r: String)
    ensures
        r@ == s@ + policy_flags(v),
{
    proof {
        reveal_strlit("o");
        reveal_strlit("n");
        reveal_strlit("r");
        reveal_strlit("c");
        reveal_strlit("C");
        reveal_strlit("e");
        reveal_strlit("p");
        reveal_strlit("R");
    }
    let s1 = with_flag(s, (v >> 15u32) & 1 == 1, "o");
    let ghost acc1 = flag(bit(v, 15), 'o');
    assert(s1@ == s@ + acc1);
    let s2 = with_flag(s1, (v >> 14u32) & 1 == 1, "n");
    let ghost acc2 = acc1 + flag(bit(v, 14), 'n');
    proof {
        vstd::seq_lib::lemma_concat_associative(s@, acc1, flag(bit(v, 14), 'n'));
    }
    let s3 = with_flag(s2, (v >> 13u32) & 1 == 1, "r");
    let ghost acc3 = acc2 + flag(bit(v, 13), 'r');
    proof {
        vstd::seq_lib::lemma_concat_associative(s@, acc2, flag(bit(v, 13), 'r'));
    }
    let s4 = with_flag(s3, (v >> 12u32) & 1 == 1, "c");
    let ghost acc4 = acc3 + flag(bit(v, 12), 'c');
    proof {
        vstd::seq_lib::lemma_concat_associative(s@, acc3, flag(bit(v, 12), 'c'));
    }
    let s5 = with_flag(s4, (v >> 10u32) & 1 != 1, "C");
    let ghost acc5 = acc4 + flag(!bit(v, 10), 'C');
    proof {
        vstd::seq_lib::lemma_concat_associative(s@, acc4, flag(!bit(v, 10), 'C'));
    }
    let s6 = with_flag(s5, (v >> 9u32) & 1 != 1, "e");
    let ghost acc6 = acc5 + flag(!bit(v, 9), 'e');
    proof {
        vstd::seq_lib::lemma_concat_associative(s@, acc5, flag(!bit(v, 9), 'e'));
    }
    let s7 = with_flag(s6, (v >> 8u32) & 1 != 1, "p");
    let ghost acc7 = acc6 + flag(!bit(v, 8), 'p');
    proof {
        vstd::seq_lib::lemma_concat_associative(s@, acc6, flag(!bit(v, 8), 'p'));
    }
    let s8 = with_flag(s7, (v >> 6u32) & 1 != 1, "R");
    let ghost acc8 = acc7 + flag(!bit(v, 6), 'R');
    proof {
        vstd::seq_lib::lemma_concat_associative(s@, acc7, flag(!bit(v, 6), 'R'));
    }
    assert(acc8 == policy_flags(v));
    s8
}

impl SecurityPolicy {
    pub fn from_bits(bits: u32) -> (r: Self)
        ensures
            r@ == bits,
    {
        SecurityPolicy(bits)
    }

    pub fn bits(&self) -> (r: u32)
        ensures
            r == self@,
    {
        self.0
    }

    /// Hours between key rotations.
    pub fn rotation_time_hours(&self) -> (r: u16)
        ensures
            r == (self@ >> 16u32) as u16,
    {
        (self.0 >> 16u32) as u16
    }

    pub fn obtain_network_key_enabled(&self) -> (r: bool)
        ensures
            r == bit(self@, 15),
    {
        (self.0 >> 15u32) & 1 == 1
    }

    pub fn native_commissioning_enabled(&self) -> (r: bool)
        ensures
            r == bit(self@, 14),
    {
        (self.0 >> 14u32) & 1 == 1
    }

    pub fn legacy_routers_enabled(&self) -> (r: bool)
        ensures
            r == bit(self@, 13),
    {
        (self.0 >> 13u32) & 1 == 1
    }

    pub fn external_commissioner_enabled(&self) -> (r: bool)
        ensures
            r == bit(self@, 12),
    {
        (self.0 >> 12u32) & 1 == 1
    }

    pub fn commercial_commissioning_mode_disabled(&self) -> (r: bool)
        ensures
            r == bit(self@, 10),
    {
        (self.0 >> 10u32) & 1 == 1
    }

    /// The protocol version threshold; the raw bits when they name no
    /// version.
    pub fn version_threshold(&self) -> (r: Result<VersionThreshold, u8>)
        ensures
            r == threshold_of(self@),
    {
        proof {
            let v = self.0;
            assert(v & 7u32 <= 7u32) by (bit_vector);
        }
        let threshold = (self.0 & 7) as u8;
        if self.legacy_routers_enabled() {
            Ok(VersionThreshold::ProtocolVersion2)
        } else if threshold == 0 {
            Ok(VersionThreshold::ProtocolVersion3)
        } else if threshold == 1 {
            Ok(VersionThreshold::ProtocolVersion4)
        } else if threshold == 2 {
            Ok(VersionThreshold::ProtocolVersion5)
        } else {
            Err(threshold)
        }
    }

    /// The policy as text, such as `672 onrc 0`.
    pub fn to_display_string(&self) -> (r: String)
        ensures
            r@ == policy_text(self@),
    {
        let v = self.0;
        let mut s = String::new();
        push_decimal(&mut s, v >> 16u32);
        let ghost d = s@;
        s.append(" ");
        proof {
            reveal_strlit(" ");
        }
        let ghost head = s@;
        let mut s = with_policy_flags(s, v);
        let ghost flags = s@;
        s.append(" ");
        let ghost sep = s@;
        push_decimal(&mut s, v & 7);
        assert(head =~= d + seq![' ']);
        assert(sep =~= flags + seq![' ']);
        assert(s@ =~= policy_text(v));
        s
    }
}

impl TlvType for SecurityPolicy {
    const TLV_TYPE: u8 = 0x0C;
}

impl TlvLength for SecurityPolicy {
    open spec fn value_bytes(&self) -> Seq<u8> {
        be32(self.0)
    }

    open spec fn constant_len() -> bool {
        true
    }

    fn tlv_len(&self) -> (r: usize) {
        4
    }

    fn tlv_len_is_constant() -> (r: bool) {
        true
    }
}

impl TlvMetadata for SecurityPolicy {

}

impl TlvConstantMetadata for SecurityPolicy {
    const TLV_LEN: usize = 4;

    proof fn lemma_constant_len(&self)
        ensures
            self.value_bytes().len() == 4,
    {
    }
}

impl TryEncodeTlvValue for SecurityPolicy {
    fn try_encode_tlv_value(&self, buffer: &mut [u8], pos: usize) -> (r: Result<usize, TwineTlvError>) {
        if pos > buffer.len() || buffer.len() - pos < 4 {
            return Err(TwineTlvError::BufferEncodeTooShort);
        }
        put_u32(buffer, pos, self.0);
        Ok(4)
    }
}

impl DecodeTlvValueUnchecked for SecurityPolicy {
    open spec fn decode_value(bytes: Seq<u8>) -> SecurityPolicy {
        SecurityPolicy(read_be32(bytes, 0))
    }

    open spec fn well_formed(&self) -> bool {
        true
    }

    fn decode_tlv_value_unchecked(buffer: &[u8]) -> (r: SecurityPolicy) {
        SecurityPolicy(get_u32(buffer, 0))
    }

    proof fn lemma_decode_encoded(&self) {
        crate::be::lemma_be32_round_trip(self.0);
    }
}

impl DecodeTlvUnchecked for SecurityPolicy {

}

impl TryEncodeTlv for SecurityPolicy {

}

/// The low bits of the policy for a version threshold.
pub open spec fn threshold_bits(t: VersionThreshold) -> u32 {
    match t {
        VersionThreshold::ProtocolVersion2 => 0,
        VersionThreshold::ProtocolVersion3 => 0,
        VersionThreshold::ProtocolVersion4 => 1,
        VersionThreshold::ProtocolVersion5 => 2,
    }
}

/// The bits of a built policy. The legacy-routers bit follows the version
/// threshold; the commercial-commissioning, autonomous-enrollment,
/// key-provisioning, BLE-link and non-CCM-routers "disabled" bits and the
/// three reserved bits are always set.
pub open spec fn policy_bits(
    rotation_time_hours: u16,
    obtain_network_key: bool,
    native_commissioning: bool,
    external_commissioner: bool,
    threshold: VersionThreshold,
) -> u32 {
    ((rotation_time_hours as u32) << 16u32) | (if obtain_network_key {
        0x8000u32
    } else {
        0u32
    }) | (if native_commissioning {
        0x4000u32
    } else {
        0u32
    }) | (if threshold == VersionThreshold::ProtocolVersion2 {
        0x2000u32
    } else {
        0u32
    }) | (if external_commissioner {
        0x1000u32
    } else {
        0u32
    }) | 0x07F8u32 | threshold_bits(threshold)
}

/// Builds a [`SecurityPolicy`]; every setting must be given.
#[derive(Clone, Copy, Debug, PartialEq, Eq)]
pub struct SecurityPolicyBuilder {
    pub obtain_network_key_enabled: Option<bool>,
    pub native_commissioning_enabled: Option<bool>,
    pub legacy_routers_enabled: Option<bool>,
    pub external_commissioner_enabled: Option<bool>,
    pub commercial_commissioning_mode_disabled: Option<bool>,
    pub autonomous_enrollment_disabled: Option<bool>,
    pub network_key_provisioning_disabled: Option<bool>,
    pub to_ble_link_enabled: Option<bool>,
    pub non_ccm_routers_disabled: Option<bool>,
    pub version_threshold: Option<VersionThreshold>,
    pub rotation_time_hours: Option<u16>,
}

impl SecurityPolicyBuilder {
    /// Whether every setting is given.
    pub open spec fn complete(&self) -> bool {
        &&& self.obtain_network_key_enabled is Some
        &&& self.native_commissioning_enabled is Some
        &&& self.legacy_routers_enabled is Some
        &&& self.external_commissioner_enabled is Some
        &&& self.commercial_commissioning_mode_disabled is Some
        &&& self.autonomous_enrollment_disabled is Some
        &&& self.network_key_provisioning_disabled is Some
        &&& self.to_ble_link_enabled is Some
        &&& self.non_ccm_routers_disabled is Some
        &&& self.version_threshold is Some
        &&& self.rotation_time_hours is Some
    }

    /// The default policy: every feature on, 672 hours between key
    /// rotations, protocol version 2.
    pub fn with_default_policy() -> (r: Self)
        ensures
            r == (SecurityPolicyBuilder {
                obtain_network_key_enabled: Some(true),
                native_commissioning_enabled: Some(true),
                legacy_routers_enabled: Some(true),
                external_commissioner_enabled: Some(true),
                commercial_commissioning_mode_disabled: Some(true),
                autonomous_enrollment_disabled: Some(true),
                network_key_provisioning_disabled: Some(true),
                to_ble_link_enabled: Some(true),
                non_ccm_routers_disabled: Some(true),
                version_threshold: Some(VersionThreshold::ProtocolVersion2),
                rotation_time_hours: Some(672u16),
            }),
    {
        SecurityPolicyBuilder {
            obtain_network_key_enabled: Some(true),
            native_commissioning_enabled: Some(true),
            legacy_routers_enabled: Some(true),
            external_commissioner_enabled: Some(true),
            commercial_commissioning_mode_disabled: Some(true),
            autonomous_enrollment_disabled: Some(true),
            network_key_provisioning_disabled: Some(true),
            to_ble_link_enabled: Some(true),
            non_ccm_routers_disabled: Some(true),
            version_threshold: Some(VersionThreshold::ProtocolVersion2),
            rotation_time_hours: Some(672),
        }
    }

    pub fn enable_obtain_network_key(self) -> (r: Self)
        ensures
            r == (SecurityPolicyBuilder { obtain_network_key_enabled: Some(true), ..self }),
    {
        SecurityPolicyBuilder { obtain_network_key_enabled: Some(true), ..self }
    }

    pub fn disable_obtain_network_key(self) -> (r: Self)
        ensures
            r == (SecurityPolicyBuilder { obtain_network_key_enabled: Some(false), ..self }),
    {
        SecurityPolicyBuilder { obtain_network_key_enabled: Some(false), ..self }
    }

    pub fn enable_native_commissioning(self) -> (r: Self)
        ensures
            r == (SecurityPolicyBuilder { native_commissioning_enabled: Some(true), ..self }),
    {
        SecurityPolicyBuilder { native_commissioning_enabled: Some(true), ..self }
    }

    pub fn disable_native_commissioning(self) -> (r: Self)
        ensures
            r == (SecurityPolicyBuilder { native_commissioning_enabled: Some(false), ..self }),
    {
        SecurityPolicyBuilder { native_commissioning_enabled: Some(false), ..self }
    }

    pub fn enable_legacy_routers(self) -> (r: Self)
        ensures
            r == (SecurityPolicyBuilder { legacy_routers_enabled: Some(true), ..self }),
    {
        SecurityPolicyBuilder { legacy_routers_enabled: Some(true), ..self }
    }

    pub fn disable_legacy_routers(self) -> (r: Self)
        ensures
            r == (SecurityPolicyBuilder { legacy_routers_enabled: Some(false), ..self }),
    {
        SecurityPolicyBuilder { legacy_routers_enabled: Some(false), ..self }
    }

    pub fn enable_external_commissioner(self) -> (r: Self)
        ensures
            r == (SecurityPolicyBuilder { external_commissioner_enabled: Some(true), ..self }),
    {
        SecurityPolicyBuilder { external_commissioner_enabled: Some(true), ..self }
    }

    pub fn disable_external_commissioner(self) -> (r: Self)
        ensures
            r == (SecurityPolicyBuilder { external_commissioner_enabled: Some(false), ..self }),
    {
        SecurityPolicyBuilder { external_commissioner_enabled: Some(false), ..self }
    }

    pub fn enable_non_ccm_routers(self) -> (r: Self)
        ensures
            r == (SecurityPolicyBuilder { non_ccm_routers_disabled: Some(false), ..self }),
    {
        SecurityPolicyBuilder { non_ccm_routers_disabled: Some(false), ..self }
    }

    pub fn disable_non_ccm_routers(self) -> (r: Self)
        ensures
            r == (SecurityPolicyBuilder { non_ccm_routers_disabled: Some(true), ..self }),
    {
        SecurityPolicyBuilder { non_ccm_routers_disabled: Some(true), ..self }
    }

    /// The policy; `TypeBuildError` when a setting is missing.
    pub fn build(self) -> (r: Result<SecurityPolicy, TwineCodecError>)
        ensures
            !self.complete() ==> r == Err::<SecurityPolicy, TwineCodecError>(
                TwineCodecError::TypeBuildError(SECURITY_POLICY_TYPE_NAME),
            ),
            self.complete() ==> (r matches Ok(p) && p@ == policy_bits(
                self.rotation_time_hours->0,
                self.obtain_network_key_enabled->0,
                self.native_commissioning_enabled->0,
                self.external_commissioner_enabled->0,
                self.version_threshold->0,
            )),
    {
        match (
            self.obtain_network_key_enabled,
            self.native_commissioning_enabled,
            self.legacy_routers_enabled,
            self.external_commissioner_enabled,
            self.commercial_commissioning_mode_disabled,
            self.autonomous_enrollment_disabled,
            self.network_key_provisioning_disabled,
            self.to_ble_link_enabled,
            self.non_ccm_routers_disabled,
            self.version_threshold,
            self.rotation_time_hours,
        ) {
            (
                Some(o),
                Some(n),
                Some(_),
                Some(c),
                Some(_),
                Some(_),
                Some(_),
                Some(_),
                Some(_),
                Some(threshold),
                Some(rotation),
            ) => {
                let o_bit: u32 = if o {
                    0x8000
                } else {
                    0
                };
                let n_bit: u32 = if n {
                    0x4000
                } else {
                    0
                };
                let c_bit: u32 = if c {
                    0x1000
                } else {
                    0
                };
                let (r_bit, low): (u32, u32) = match threshold {
                    VersionThreshold::ProtocolVersion2 => (0x2000, 0),
                    VersionThreshold::ProtocolVersion3 => (0, 0),
                    VersionThreshold::ProtocolVersion4 => (0, 1),
                    VersionThreshold::ProtocolVersion5 => (0, 2),
                };
                Ok(
                    SecurityPolicy(
                        ((rotation as u32) << 16u32) | o_bit | n_bit | r_bit | c_bit | 0x07F8u32
                            | low,
                    ),
                )
            },
            _ => Err(TwineCodecError::TypeBuildError(SECURITY_POLICY_TYPE_NAME)),
        }
    }
}

/// The type byte and length of the security policy record.
pub proof fn lemma_security_policy_tlv_type()
    ensures
        SecurityPolicy::TLV_TYPE == 0x0C && SecurityPolicy::TLV_LEN == 4,
{
}

} // verus!
