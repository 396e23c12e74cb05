//! Small Thread network values: steering data, joiner PSKd, RLOC16, roles,
//! link mode, scan results and external routes.
use vstd::prelude::*;
use vstd::string::StringExecFns;

use crate::codec_error::TwineCodecError;
use crate::be::put_slice;
use crate::keys::{parse_hex_u16, u16_from_hex_str};
use crate::network_name::NetworkName;
use crate::keys::ExtendedPanId;
use crate::radio::PanId;
use crate::text::{hex_char, lowercase_of, push_hex_digit, text_eq, to_lowercase};

verus! {

/// The most bytes of steering data.
pub const STEERING_DATA_MAX_LEN: usize = 16;

/// The most bytes of a joiner PSKd.
pub const JOINER_PSKD_MAX_LEN: usize = 32;

pub const STEERING_DATA_TYPE_NAME: &'static str = "SteeringData";

/// Commissioning steering data: a bloom filter of up to 16 bytes.
#[derive(Clone, Copy, Debug, Default, PartialEq, Eq)]
pub struct SteeringData {
    length: u8,
    bytes: [u8; STEERING_DATA_MAX_LEN],
}

impl View for SteeringData {
    /// The bytes in use.
    type V = Seq<u8>;

    closed spec fn view(&self) -> Seq<u8> {
        self.bytes@.subrange(0, self.length as int)
    }
}

impl SteeringData {
    #[verifier::type_invariant]
    closed spec fn inv(self) -> bool {
        self.length <= STEERING_DATA_MAX_LEN
    }

    /// Steering data of the given bytes; more than 16 give `BufferMaxLength`.
    pub fn from_bytes(bytes: &[u8]) -> (r: Result<Self, TwineCodecError>)
        ensures
            bytes@.len() > STEERING_DATA_MAX_LEN ==> r == Err::<Self, TwineCodecError>(
                TwineCodecError::BufferMaxLength(
                    STEERING_DATA_TYPE_NAME,
                    STEERING_DATA_MAX_LEN,
                    bytes@.len() as usize,
                ),
            ),
            bytes@.len() <= STEERING_DATA_MAX_LEN ==> (r matches Ok(d) && d@ == bytes@),
    {
        let length = bytes.len();
        if length > STEERING_DATA_MAX_LEN {
            return Err(
                TwineCodecError::BufferMaxLength(STEERING_DATA_TYPE_NAME, STEERING_DATA_MAX_LEN, length),
            );
        }
        let mut b = [0u8; STEERING_DATA_MAX_LEN];
        put_slice(&mut b, 0, bytes);
        let r = SteeringData { length: length as u8, bytes: b };
        assert(r@ =~= bytes@);
        Ok(r)
    }

    /// The bytes in use.
    pub fn as_bytes(&self) -> (r: &[u8])
        ensures
            r@ == self@,
    {
        proof {
            use_type_invariant(self);
        }
        vstd::slice::slice_subrange(self.bytes.as_slice(), 0, self.length as usize)
    }
}

impl TryFrom<Vec<u8>> for SteeringData {
    type Error = TwineCodecError;

    fn try_from(bytes: Vec<u8>) -> (r: Result<Self, Self::Error>)
        ensures
            bytes@.len() > STEERING_DATA_MAX_LEN ==> r == Err::<Self, TwineCodecError>(
                TwineCodecError::BufferMaxLength(
                    STEERING_DATA_TYPE_NAME,
                    STEERING_DATA_MAX_LEN,
                    bytes@.len() as usize,
                ),
            ),
            bytes@.len() <= STEERING_DATA_MAX_LEN ==> (r matches Ok(d) && d@ == bytes@),
    {
        SteeringData::from_bytes(bytes.as_slice())
    }
}

impl vstd::std_specs::convert::TryFromSpecImpl<Vec<u8>> for SteeringData {
    open spec fn obeys_try_from_spec() -> bool {
        false
    }

    open spec fn try_from_spec(v: Vec<u8>) -> Result<Self, TwineCodecError> {
        vstd::pervasive::arbitrary()
    }
}

/// A joiner's pre-shared key, up to 32 bytes, NUL-padded.
#[derive(Clone, Copy, Debug, PartialEq, Eq)]
pub struct JoinerPskd {
    pskd: [u8; 33],
}

impl View for JoinerPskd {
    /// All 33 bytes.
    type V = Seq<u8>;

    closed spec fn view(&self) -> Seq<u8> {
        self.pskd@
    }
}

impl JoinerPskd {
    /// A PSKd of the given bytes, NUL-padded; `None` past 32 bytes.
    pub fn from_bytes(bytes: &[u8]) -> (r: Option<Self>)
        ensures
            bytes@.len() > JOINER_PSKD_MAX_LEN ==> r is None,
            bytes@.len() <= JOINER_PSKD_MAX_LEN ==> (r matches Some(p) && p@ == bytes@ + Seq::new(
                (33 - bytes@.len()) as nat,
                |i: int| 0u8,
            )),
    {
        if bytes.len() > JOINER_PSKD_MAX_LEN {
            return None;
        }
        let mut pskd = [0u8; 33];
        assert(pskd@ =~= Seq::new(33, |i: int| 0u8));
        put_slice(&mut pskd, 0, bytes);
        assert(pskd@ =~= bytes@ + Seq::new((33 - bytes@.len()) as nat, |i: int| 0u8));
        Some(JoinerPskd { pskd })
    }
}

/// The text of an RLOC16: `0x` and four lowercase hex digits.
pub open spec fn rloc16_text(v: u16) -> Seq<char> {
    seq![
        '0',
        'x',
        hex_char(((v >> 12u16) & 0xFu16) as u8),
        hex_char(((v >> 8u16) & 0xFu16) as u8),
        hex_char(((v >> 4u16) & 0xFu16) as u8),
        hex_char((v & 0xFu16) as u8),
    ]
}

/// A Thread routing locator (16 bits).
#[derive(Clone, Copy, Debug, PartialEq, Eq)]
pub struct Rloc16(u16);

impl View for Rloc16 {
    type V = u16;

    closed spec fn view(&self) -> u16 {
        self.0
    }
}

impl Rloc16 {
    /// An RLOC16 from hex text (no `0x`); `StringParseError` otherwise.
    pub fn from_hex_str(s: &str) -> (r: Result<Self, TwineCodecError>)
        ensures
            r is Ok <==> parse_hex_u16(s@) is Some,
            r matches Ok(v) ==> parse_hex_u16(s@) == Some(v@),
            r is Err ==> r == Err::<Self, TwineCodecError>(TwineCodecError::StringParseError),
    {
        match u16_from_hex_str(s) {
            Ok(v) => Ok(Rloc16(v)),
            Err(_) => Err(TwineCodecError::StringParseError),
        }
    }

    /// The RLOC16 as text, such as `0x5c00`.
    pub fn to_display_string(&self) -> (r: String)
        ensures
            r@ == rloc16_text(self@),
    {
        let v = self.0;
        let mut s = String::from_str("0x");
        proof {
            reveal_strlit("0x");
            assert((v >> 12u16) & 0xFu16 < 16) by (bit_vector);
            assert((v >> 8u16) & 0xFu16 < 16) by (bit_vector);
            assert((v >> 4u16) & 0xFu16 < 16) by (bit_vector);
            assert(v & 0xFu16 < 16) by (bit_vector);
        }
        push_hex_digit(&mut s, ((v >> 12u16) & 0xF) as u8);
        push_hex_digit(&mut s, ((v >> 8u16) & 0xF) as u8);
        push_hex_digit(&mut s, ((v >> 4u16) & 0xF) as u8);
        push_hex_digit(&mut s, (v & 0xF) as u8);
        assert(s@ =~= rloc16_text(v));
        s
    }
}

impl From<u16> for Rloc16 {
    fn from(v: u16) -> (r: Rloc16)
        ensures
            r@ == v,
    {
        Rloc16(v)
    }
}

impl vstd::std_specs::convert::FromSpecImpl<u16> for Rloc16 {
    open spec fn obeys_from_spec() -> bool {
        true
    }

    closed spec fn from_spec(v: u16) -> Rloc16 {
        Rloc16(v)
    }
}

impl From<Rloc16> for u16 {
    fn from(v: Rloc16) -> (r: u16)
        ensures
            r == v@,
    {
        v.0
    }
}

impl vstd::std_specs::convert::FromSpecImpl<Rloc16> for u16 {
    open spec fn obeys_from_spec() -> bool {
        true
    }

    open spec fn from_spec(v: Rloc16) -> u16 {
        v@
    }
}

impl core::str::FromStr for Rloc16 {
    type Err = TwineCodecError;

    /// The same as [`Rloc16::from_hex_str`].
    fn from_str(s: &str) -> (r: Result<Self, Self::Err>)
        ensures
            r is Ok <==> parse_hex_u16(s@) is Some,
            r matches Ok(v) ==> parse_hex_u16(s@) == Some(v@),
            r is Err ==> r == Err::<Self, TwineCodecError>(TwineCodecError::StringParseError),
    {
        Rloc16::from_hex_str(s)
    }
}

/// The role of a device in a Thread network.
#[derive(Clone, Copy, Debug, Default, PartialEq, Eq)]
pub enum NetworkRole {
    #[default]
    Disabled,
    Detached,
    Child,
    Router,
    Leader,
}

/// The role that the lowercase text `t` names.
pub open spec fn role_named(t: Seq<char>) -> Option<NetworkRole> {
    if t == "disabled"@ {
        Some(NetworkRole::Disabled)
    } else if t == "detached"@ {
        Some(NetworkRole::Detached)
    } else if t == "child"@ {
        Some(NetworkRole::Child)
    } else if t == "router"@ {
        Some(NetworkRole::Router)
    } else if t == "leader"@ {
        Some(NetworkRole::Leader)
    } else {
        None
    }
}

impl NetworkRole {
    /// The role that the lowercase text `t` names; `StringParseError` for
    /// any other text.
    pub fn from_lowercase(t: &str) -> (r: Result<Self, TwineCodecError>)
        ensures
            role_named(t@) matches Some(role) ==> r == Ok::<Self, TwineCodecError>(role),
            role_named(t@) is None ==> r == Err::<Self, TwineCodecError>(
                TwineCodecError::StringParseError,
            ),
    {
        if text_eq(t, "disabled") {
            Ok(NetworkRole::Disabled)
        } else if text_eq(t, "detached") {
            Ok(NetworkRole::Detached)
        } else if text_eq(t, "child") {
            Ok(NetworkRole::Child)
        } else if text_eq(t, "router") {
            Ok(NetworkRole::Router)
        } else if text_eq(t, "leader") {
            Ok(NetworkRole::Leader)
        } else {
            Err(TwineCodecError::StringParseError)
        }
    }

    /// The role that `s` names, in any case.
    pub fn from_text(s: &str) -> (r: Result<Self, TwineCodecError>)
        ensures
            role_named(lowercase_of(s@)) matches Some(role) ==> r == Ok::<Self, TwineCodecError>(
                role,
            ),
            role_named(lowercase_of(s@)) is None ==> r == Err::<Self, TwineCodecError>(
                TwineCodecError::StringParseError,
            ),
    {
        let lower = to_lowercase(s);
        NetworkRole::from_lowercase(lower.as_str())
    }
}

impl core::str::FromStr for NetworkRole {
    type Err = TwineCodecError;

    /// The same as [`NetworkRole::from_text`].
    fn from_str(s: &str) -> (r: Result<Self, Self::Err>)
        ensures
            role_named(lowercase_of(s@)) matches Some(role) ==> r == Ok::<Self, TwineCodecError>(
                role,
            ),
            role_named(lowercase_of(s@)) is None ==> r == Err::<Self, TwineCodecError>(
                TwineCodecError::StringParseError,
            ),
    {
        NetworkRole::from_text(s)
    }
}

/// The role of a Thread device.
#[derive(Clone, Copy, Debug, Default, PartialEq, Eq)]
pub enum DeviceRole {
    /// Thread networking is disabled.
    #[default]
    Disabled,
    /// Not participating in a Thread network.
    Detached,
    /// Thread child.
    Child,
    /// Thread router.
    Router,
    /// Thread leader.
    Leader,
}

/// The device role that the text `t` names.
pub open spec fn device_role_named(t: Seq<char>) -> Option<DeviceRole> {
    if t == "disabled"@ {
        Some(DeviceRole::Disabled)
    } else if t == "detached"@ {
        Some(DeviceRole::Detached)
    } else if t == "child"@ {
        Some(DeviceRole::Child)
    } else if t == "router"@ {
        Some(DeviceRole::Router)
    } else if t == "leader"@ {
        Some(DeviceRole::Leader)
    } else {
        None
    }
}

pub const UNKNOWN_DEVICE_ROLE: &'static str = "Unknown DeviceRole";

impl DeviceRole {
    /// The role that `s` names, in lowercase exactly.
    pub fn from_text(s: &str) -> (r: Result<Self, TwineCodecError>)
        ensures
            device_role_named(s@) matches Some(role) ==> r == Ok::<Self, TwineCodecError>(role),
            device_role_named(s@) is None ==> r == Err::<Self, TwineCodecError>(
                TwineCodecError::Internal(UNKNOWN_DEVICE_ROLE),
            ),
    {
        if text_eq(s, "disabled") {
            Ok(DeviceRole::Disabled)
        } else if text_eq(s, "detached") {
            Ok(DeviceRole::Detached)
        } else if text_eq(s, "child") {
            Ok(DeviceRole::Child)
        } else if text_eq(s, "router") {
            Ok(DeviceRole::Router)
        } else if text_eq(s, "leader") {
            Ok(DeviceRole::Leader)
        } else {
            Err(TwineCodecError::Internal(UNKNOWN_DEVICE_ROLE))
        }
    }
}

impl core::str::FromStr for DeviceRole {
    type Err = TwineCodecError;

    /// The same as [`DeviceRole::from_text`].
    fn from_str(s: &str) -> (r: Result<Self, Self::Err>)
        ensures
            device_role_named(s@) matches Some(role) ==> r == Ok::<Self, TwineCodecError>(role),
            device_role_named(s@) is None ==> r == Err::<Self, TwineCodecError>(
                TwineCodecError::Internal(UNKNOWN_DEVICE_ROLE),
            ),
    {
        DeviceRole::from_text(s)
    }
}

/// The MLE link mode.
#[derive(Clone, Copy, Debug, PartialEq, Eq)]
pub struct LinkModeConfig {
    /// The sender has its receiver on when not transmitting.
    pub rx_on_when_idle: bool,
    /// The sender is a full Thread device.
    pub device_type: bool,
    /// The sender requires the full network data.
    pub network_data: bool,
}

/// The preference of an external route.
#[derive(Clone, Copy, Debug, PartialEq, Eq)]
pub enum RoutePreference {
    Low,
    Medium,
    High,
}

/// An external route in the network data.
#[derive(Clone, Copy, Debug, PartialEq, Eq)]
pub struct ExternalRouteConfig {
    pub rloc16: u16,
    pub preference: RoutePreference,
    pub nat64: bool,
    pub stable: bool,
    pub next_hop_is_self: bool,
    pub adv_pio: bool,
}

/// One network found by an active scan.
#[derive(Clone, Debug, PartialEq, Eq)]
pub struct ActiveScanResult {
    pub extended_address: u64,
    pub network_name: NetworkName,
    pub xpan_id: ExtendedPanId,
    pub steering_data: SteeringData,
    pub pan_id: PanId,
    pub joiner_udp_port: u16,
    pub channel: u8,
    pub rssi: i16,
    pub lqi: u8,
    pub version: u8,
    pub is_native: bool,
    pub is_joiner: bool,
}

/// The energy measured on one channel by an energy scan.
#[derive(Clone, Copy, Debug, PartialEq, Eq)]
pub struct EnergyScanResult {
    pub channel: u8,
    pub rssi: i8,
}

} // verus!
