//! Type-Length-Value records for Thread MeshCoP operational datasets, held in
//! fixed-capacity byte buffers.

mod be;
mod codec_error;
mod collection;
mod components;
mod dataset;
mod device;
mod error;
mod keys;
mod laws;
mod length;
mod meshcop;
mod network;
mod network_name;
mod radio;
mod random;
mod raw;
mod security_policy;
mod text;
mod tlv;
mod timestamp;
mod traits;

pub use be::{be16, be32, be64, byte_at, read_be16, read_be32, read_be64, splice};
pub use collection::{
    compacted, decoded, find_from, find_span, header_at, header_size, logical_len, push_outcome,
    record_at, record_end, replace_outcome, scan_end, tlvs, tlvs_from, unit_result, value_len,
    TlvCollection,
};
pub use error::TwineTlvError;
pub use length::{
    encoded_size, length_field, read_len_at, read_length, write_length, GetTlvLength,
    PutTlvLength, TLV_EXTENDED_LEN_ID,
};
pub use tlv::{tlv_bytes, write_outcome, validate_const_len_tlv, write_tlv, write_tlv_at};
pub use traits::{
    array_from, padded, record_value, take_array, DecodeTlvUnchecked, DecodeTlvValueUnchecked,
    TlvConstantMetadata, TlvLength, TlvMetadata, TlvType, TryEncodeTlv, TryEncodeTlvValue,
};
pub use text::{
    all_hex_digits, decimal, decode_hex_exact, decode_hex_prefix, hex_char, hex_decoded,
    hex_digit_value, hex_lower, hex_padded, is_hex_digit, lowercase_of, text_eq, push_decimal,
    push_decimal_u64, push_hex_bytes, push_hex_digit, push_hex_padded,
};
pub use codec_error::TwineCodecError;
pub use random::{fill_random_bytes, random_range_u16, scale_random_u16, unix_time_seconds};
pub use radio::{
    lemma_reverse_bits_involutive, reverse_bits, reverse_bits_u32, u64_to_be_bytes, Channel,
    ChannelMask, Eui64, ExtendedAddress, PanId, RadioCapabilities, DEFAULT_CHANNEL_MASK,
    RADIO_CAPS_ACK_TIMEOUT, RADIO_CAPS_CSMA_BACKOFF, RADIO_CAPS_ENERGY_SCAN,
    RADIO_CAPS_RECEIVE_TIMING, RADIO_CAPS_SLEEP_TO_TX, RADIO_CAPS_TRANSMIT_RETRIES,
    RADIO_CAPS_TRANSMIT_SEC, RADIO_CAPS_TRANSMIT_TIMING,
};
pub use keys::{
    be128, hex_char_value, hex_digits_value, is_hex_char, parse_hex_digits, parse_hex_u128,
    parse_hex_u16, prefix_text, radix16_digits,
    u128_to_be_bytes, ExtendedPanId, MeshLocalPrefix, NetworkKey, Pskc, ULA_PREFIX_BYTE,
};
pub use timestamp::{
    lemma_timestamp_bits_round_trip, timestamp_bits, timestamp_of_bits, ActiveTimestamp,
    Authoritative, DelayTimer, PendingTimestamp, Timestamp,
};
pub use network_name::{
    ascii_hex, ascii_hex_digit, hex_digit_count, lemma_name_len_is, name_array, name_len,
    twine_name_bytes, zero_from, NetworkName, NETWORK_NAME_MAX_SIZE, NETWORK_NAME_TYPE_NAME,
};
pub use security_policy::{
    bit, policy_bits, policy_flags, policy_text, threshold_bits, threshold_of, SecurityPolicy,
    SecurityPolicyBuilder, VersionThreshold, DEFAULT_SECURITY_POLICY, SECURITY_POLICY_TYPE_NAME,
};
pub use components::{
    Components, COMPONENTS_ACTIVE, COMPONENTS_ALL, COMPONENTS_CHANNEL, COMPONENTS_CHANNEL_MASK,
    COMPONENTS_DELAY, COMPONENTS_EXTENDED_PAN_ID, COMPONENTS_MESH_LOCAL_PREFIX,
    COMPONENTS_NETWORK_KEY, COMPONENTS_NETWORK_NAME, COMPONENTS_PAN_ID, COMPONENTS_PENDING,
    COMPONENTS_PSKC, COMPONENTS_SECURITY_POLICY,
};
pub use dataset::{
    codec_result, decode_operational_dataset_item, lemma_dataset_tlv_types, item_of, item_text, random_dataset_records, OperationalDataset,
    OperationalDatasetItem, OperationalDatasetIter, OperationalDatasetTlvs,
    OPERATIONAL_DATASET_MAX_LENGTH, OPERATIONAL_DATASET_MAX_SIZE,
    OPERATIONAL_DATASET_TLVS_TYPE_NAME,
};
pub use laws::{
    count_type, lemma_extended_length_boundary, lemma_push_appends, lemma_push_then_decode, lemma_record_round_trip,
    lemma_remove_keeps_others, lemma_remove_only_record, lemma_replace_in_place,
    lemma_replace_relocates, remove_first, tail_is_zero,
};
pub use raw::{RawTlv, VarTlv};
pub use network::{
    device_role_named, role_named, rloc16_text, ActiveScanResult, DeviceRole, EnergyScanResult, ExternalRouteConfig,
    JoinerPskd, LinkModeConfig, NetworkRole, Rloc16, RoutePreference, SteeringData,
    JOINER_PSKD_MAX_LEN, STEERING_DATA_MAX_LEN, STEERING_DATA_TYPE_NAME, UNKNOWN_DEVICE_ROLE,
};
pub use device::{
    is_known_usb_device, DeviceCapability, DeviceId, DevicePoolError, HandleId, SerialDeviceInfo,
};
pub use meshcop::{
    lemma_tag_round_trip, meshcop_encoded, tag_of, tag_value, MeshCopTlv, MeshCopTlvTag,
    OperationalDatasetTlvsVec, MESHCOP_TLVS_MAX, MESHCOP_TLV_TYPE_NAME,
};
