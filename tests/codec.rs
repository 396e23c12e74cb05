use std::str::FromStr;

use twine_codec::{
    ActiveTimestamp, Authoritative, Channel, ChannelMask, Components, DecodeTlvUnchecked,
    ExtendedAddress, ExtendedPanId, MeshLocalPrefix, NetworkKey, NetworkName, PanId, Pskc,
    RadioCapabilities, SecurityPolicy, SecurityPolicyBuilder, Timestamp, TlvLength, TryEncodeTlv,
    TwineCodecError, VersionThreshold, COMPONENTS_ACTIVE, COMPONENTS_ALL, COMPONENTS_CHANNEL,
    COMPONENTS_CHANNEL_MASK, COMPONENTS_DELAY, COMPONENTS_EXTENDED_PAN_ID,
    COMPONENTS_MESH_LOCAL_PREFIX, COMPONENTS_NETWORK_KEY, COMPONENTS_NETWORK_NAME,
    COMPONENTS_PAN_ID, COMPONENTS_PENDING, COMPONENTS_PSKC, COMPONENTS_SECURITY_POLICY,
    RADIO_CAPS_ACK_TIMEOUT, RADIO_CAPS_CSMA_BACKOFF, RADIO_CAPS_ENERGY_SCAN,
    RADIO_CAPS_RECEIVE_TIMING, RADIO_CAPS_SLEEP_TO_TX, RADIO_CAPS_TRANSMIT_RETRIES,
    RADIO_CAPS_TRANSMIT_SEC, RADIO_CAPS_TRANSMIT_TIMING,
};

/// Helper to test only a single component bit being set
fn helper_contains_single_bitflag(bits: u16) {
    let all = Components::from(COMPONENTS_ALL);
    let components = Components::from(bits);
    let checks: [(u16, fn(&Components) -> bool); 12] = [
        (COMPONENTS_ACTIVE, Components::active),
        (COMPONENTS_PENDING, Components::pending),
        (COMPONENTS_NETWORK_KEY, Components::network_key),
        (COMPONENTS_NETWORK_NAME, Components::network_name),
        (COMPONENTS_EXTENDED_PAN_ID, Components::extended_pan_id),
        (COMPONENTS_MESH_LOCAL_PREFIX, Components::mesh_local_prefix),
        (COMPONENTS_DELAY, Components::delay),
        (COMPONENTS_PAN_ID, Components::pan_id),
        (COMPONENTS_CHANNEL, Components::channel),
        (COMPONENTS_PSKC, Components::pskc),
        (COMPONENTS_SECURITY_POLICY, Components::security_policy),
        (COMPONENTS_CHANNEL_MASK, Components::channel_mask),
    ];
    for (flag, check) in checks {
        if components.bits() == flag {
            assert!(check(&components));
            assert!(check(&all));
        } else {
            assert!(!check(&components));
        }
    }
}

#[test]
fn contains_active() {
    helper_contains_single_bitflag(COMPONENTS_ACTIVE);
    assert!(Components::from(COMPONENTS_ACTIVE).active());
}

#[test]
fn contains_pending() {
    helper_contains_single_bitflag(COMPONENTS_PENDING);
    assert!(Components::from(COMPONENTS_PENDING).pending());
}

#[test]
fn contains_network_key() {
    helper_contains_single_bitflag(COMPONENTS_NETWORK_KEY);
    assert!(Components::from(COMPONENTS_NETWORK_KEY).network_key());
}

#[test]
fn contains_network_name() {
    helper_contains_single_bitflag(COMPONENTS_NETWORK_NAME);
    assert!(Components::from(COMPONENTS_NETWORK_NAME).network_name());
}

#[test]
fn contains_extended_pan_id() {
    helper_contains_single_bitflag(COMPONENTS_EXTENDED_PAN_ID);
    assert!(Components::from(COMPONENTS_EXTENDED_PAN_ID).extended_pan_id());
}

#[test]
fn contains_mesh_local_prefix() {
    helper_contains_single_bitflag(COMPONENTS_MESH_LOCAL_PREFIX);
    assert!(Components::from(COMPONENTS_MESH_LOCAL_PREFIX).mesh_local_prefix());
}

#[test]
fn contains_delay() {
    helper_contains_single_bitflag(COMPONENTS_DELAY);
    assert!(Components::from(COMPONENTS_DELAY).delay());
}

#[test]
fn contains_pan_id() {
    helper_contains_single_bitflag(COMPONENTS_PAN_ID);
    assert!(Components::from(COMPONENTS_PAN_ID).pan_id());
}

#[test]
fn contains_channel() {
    helper_contains_single_bitflag(COMPONENTS_CHANNEL);
    assert!(Components::from(COMPONENTS_CHANNEL).channel());
}

#[test]
fn contains_pskc() {
    helper_contains_single_bitflag(COMPONENTS_PSKC);
    assert!(Components::from(COMPONENTS_PSKC).pskc());
}

#[test]
fn contains_security_policy() {
    helper_contains_single_bitflag(COMPONENTS_SECURITY_POLICY);
    assert!(Components::from(COMPONENTS_SECURITY_POLICY).security_policy());
}

#[test]
fn contains_channel_mask() {
    helper_contains_single_bitflag(COMPONENTS_CHANNEL_MASK);
    assert!(Components::from(COMPONENTS_CHANNEL_MASK).channel_mask());
}

#[test]
fn components_drop_unknown_bits() {
    assert_eq!(Components::from(0xF001).bits(), 0x0001);
}

#[test]
fn display_mesh_local_prefix() {
    let bytes = [0xfd, 0xe2, 0x2f, 0xdc, 0x94, 0x77, 0x9b, 0x16];
    let prefix = MeshLocalPrefix::from(bytes);
    assert_eq!(prefix.to_display_string(), "fde2:2fdc:9477:9b16::/64");
}

#[test]
fn random_ula_starts_with_fd() {
    let prefix = MeshLocalPrefix::random_ula().expect("random source");
    let mut buffer = [0u8; 10];
    prefix.try_encode_tlv(&mut buffer).unwrap();
    assert_eq!(&buffer[..3], &[0x07, 0x08, 0xfd]);
}

const EXPECTED_KEY_STR: &str = "0123456789abcdef0123456789abcdef";
const EXPECTED_KEY_U128: u128 = 0x0123_4567_89ab_cdef_0123_4567_89ab_cdef;
const EXPECTED_KEY_BYTES: [u8; 16] = [
    0x01, 0x23, 0x45, 0x67, 0x89, 0xab, 0xcd, 0xef, 0x01, 0x23, 0x45, 0x67, 0x89, 0xab, 0xcd, 0xef,
];

#[test]
fn network_key_success_from_str() {
    let key = NetworkKey::from_str(EXPECTED_KEY_STR).expect("Failed to parse network key string");
    assert_eq!(key.as_bytes(), &EXPECTED_KEY_BYTES);
}

#[test]
fn fail_from_str() {
    let key = NetworkKey::from_str("not a valid network key string");
    assert!(key.is_err());

    let too_long = EXPECTED_KEY_STR.to_owned() + "0927";
    let key = NetworkKey::from_str(&too_long);
    assert!(key.is_err());
}

#[test]
fn network_key_from_short_and_signed_text() {
    let key = NetworkKey::from_str("+ff").unwrap();
    let mut expected = [0u8; 16];
    expected[15] = 0xff;
    assert_eq!(key.as_bytes(), &expected);
    assert!(NetworkKey::from_str("").is_err());
    assert!(NetworkKey::from_str("+").is_err());
}

#[test]
fn success_from_u128() {
    let key = NetworkKey::from(EXPECTED_KEY_U128);
    assert_eq!(key.as_bytes(), &EXPECTED_KEY_BYTES);
}

#[test]
fn success_as_ref() {
    let key = NetworkKey::from(EXPECTED_KEY_U128);
    let bytes = key.as_ref();
    assert_eq!(bytes, &EXPECTED_KEY_BYTES);
    assert_eq!(bytes.len(), 16);
}

#[test]
fn success_as_mut() {
    let mut key = NetworkKey::from(EXPECTED_KEY_U128);
    let bytes = key.as_mut();
    assert_eq!(bytes, &EXPECTED_KEY_BYTES);
    assert_eq!(bytes.len(), 16);
}

#[test]
fn default_policy() {
    let test = SecurityPolicyBuilder::with_default_policy()
        .build()
        .expect("Failed to build default policy");
    let expected = SecurityPolicy::from_bits(0x02A0_F7F8);
    assert_eq!(expected, test);
}

#[test]
fn default_policy_display_and_getters() {
    let policy = SecurityPolicyBuilder::with_default_policy().build().unwrap();
    assert_eq!(policy.to_display_string(), "672 onrc 0");
    assert_eq!(policy.rotation_time_hours(), 672);
    assert!(policy.obtain_network_key_enabled());
    assert!(policy.native_commissioning_enabled());
    assert!(policy.legacy_routers_enabled());
    assert!(policy.external_commissioner_enabled());
    assert!(policy.commercial_commissioning_mode_disabled());
    assert_eq!(policy.version_threshold(), Ok(VersionThreshold::ProtocolVersion2));
}

#[test]
fn policy_builder_settings() {
    let policy = SecurityPolicyBuilder::with_default_policy()
        .disable_obtain_network_key()
        .disable_external_commissioner()
        .build()
        .unwrap();
    assert_eq!(policy.bits(), 0x02A0_67F8);
    let mut builder = SecurityPolicyBuilder::with_default_policy();
    builder.version_threshold = Some(VersionThreshold::ProtocolVersion5);
    let policy = builder.build().unwrap();
    assert_eq!(policy.bits(), 0x02A0_D7FA);
    assert_eq!(policy.version_threshold(), Ok(VersionThreshold::ProtocolVersion5));
    assert_eq!(policy.to_display_string(), "672 onc 2");
    builder.rotation_time_hours = None;
    assert_eq!(
        builder.build(),
        Err(TwineCodecError::TypeBuildError("SecurityPolicy"))
    );
}

#[test]
fn policy_version_threshold_unknown() {
    assert_eq!(SecurityPolicy::from_bits(0x0000_0007).version_threshold(), Err(7));
    assert_eq!(
        SecurityPolicy::from_bits(0x0000_0001).version_threshold(),
        Ok(VersionThreshold::ProtocolVersion4)
    );
    assert_eq!(SecurityPolicy::from_bits(0).to_display_string(), "0 CepR 0");
}

#[test]
fn since_epoch() {
    let timestamp = Timestamp::from((1, 1, Authoritative(false)));
    assert_eq!(timestamp.seconds(), 1);
    assert_eq!(timestamp.ticks(), 1);
    assert!(!timestamp.is_authoritative());
}

#[test]
fn timestamp_record_layout() {
    let timestamp = Timestamp::new(1, 0, Authoritative(false));
    let mut buffer = [0u8; 10];
    ActiveTimestamp(timestamp).try_encode_tlv(&mut buffer).unwrap();
    assert_eq!(buffer, [0x0e, 0x08, 0, 0, 0, 0, 0, 0x01, 0x00, 0x00]);
    let timestamp = Timestamp::new(2, 3, Authoritative(true));
    assert_eq!(timestamp.to_bits(), (2 << 16) | (3 << 1) | 1);
    assert_eq!(Timestamp::from_bits(timestamp.to_bits()), timestamp);
}

#[test]
fn timestamp_now_is_not_authoritative_when_asked() {
    let now = Timestamp::now(Authoritative(false)).expect("clock after 1970");
    assert!(!now.is_authoritative());
    assert_eq!(now.ticks(), 0);
    assert!(now.seconds() > 1_600_000_000);
}

#[test]
fn contains_none() {
    let caps = RadioCapabilities::from_bits(0);
    assert!(caps.none());

    assert!(!RadioCapabilities::from_bits(0xFF).none());
}

fn check_single_capability(bits: u8) {
    let caps = RadioCapabilities::from_bits(bits);
    let all = RadioCapabilities::from_bits(0xFF);
    assert!(!caps.none());
    let checks: [(u8, fn(&RadioCapabilities) -> bool); 8] = [
        (RADIO_CAPS_ACK_TIMEOUT, RadioCapabilities::ack_timeout),
        (RADIO_CAPS_ENERGY_SCAN, RadioCapabilities::energy_scan),
        (RADIO_CAPS_TRANSMIT_RETRIES, RadioCapabilities::transmit_retries),
        (RADIO_CAPS_CSMA_BACKOFF, RadioCapabilities::csma_backoff),
        (RADIO_CAPS_SLEEP_TO_TX, RadioCapabilities::sleep_to_tx),
        (RADIO_CAPS_TRANSMIT_SEC, RadioCapabilities::transmit_security),
        (RADIO_CAPS_TRANSMIT_TIMING, RadioCapabilities::transmit_timing),
        (RADIO_CAPS_RECEIVE_TIMING, RadioCapabilities::receive_timing),
    ];
    for (flag, check) in checks {
        assert_eq!(check(&caps), flag == bits);
        assert!(check(&all));
    }
}

#[test]
fn contains_ack_timeout() {
    check_single_capability(RADIO_CAPS_ACK_TIMEOUT);
}

#[test]
fn contains_energy_scan() {
    check_single_capability(RADIO_CAPS_ENERGY_SCAN);
}

#[test]
fn contains_transmit_retries() {
    check_single_capability(RADIO_CAPS_TRANSMIT_RETRIES);
}

#[test]
fn contains_csma_backoff() {
    check_single_capability(RADIO_CAPS_CSMA_BACKOFF);
}

#[test]
fn contains_sleep_to_tx() {
    check_single_capability(RADIO_CAPS_SLEEP_TO_TX);
}

#[test]
fn contains_transmit_security() {
    check_single_capability(RADIO_CAPS_TRANSMIT_SEC);
}

#[test]
fn contains_transmit_timing() {
    check_single_capability(RADIO_CAPS_TRANSMIT_TIMING);
}

#[test]
fn contains_receive_timing() {
    check_single_capability(RADIO_CAPS_RECEIVE_TIMING);
}

#[test]
fn success_default() {
    let default = ChannelMask::default();
    assert_eq!(default.page(), 0);
    assert_eq!(default.mask_len(), 4);
    assert_eq!(default.mask(), 0x07FF_F800);
}

#[test]
fn success_decode_tlv() {
    let tlv_bytes: [u8; 8] = [53, 6, 0, 4, 0, 31, 255, 224];
    let channel_mask = ChannelMask::decode_tlv_unchecked(&tlv_bytes);
    assert_eq!(channel_mask.page(), 0);
    assert_eq!(channel_mask.mask_len(), 4);
    assert_eq!(channel_mask.mask(), 0x07FF_F800);
}

#[test]
fn success_encode_tlv() {
    let channel_mask = ChannelMask::default();
    let mut buffer = [0_u8; 8];
    let bytes_written = channel_mask
        .try_encode_tlv(&mut buffer)
        .expect("Could not encode ChannelMask");
    assert_eq!(bytes_written, channel_mask.tlv_total_len());
    let expected_bytes: [u8; 8] = [53, 6, 0, 4, 0, 31, 255, 224];
    assert_eq!(expected_bytes.as_ref(), &buffer[..bytes_written]);
}

#[test]
fn channel_mask_entries() {
    let mask = ChannelMask::from_tlv_entry((0, 0x001F_FFE0));
    assert_eq!(mask.mask(), 0x07FF_F800);
    assert_eq!(mask.to_tlv_entry(), (0, 4, 0x001F_FFE0));
    assert_eq!(twine_codec::reverse_bits_u32(1), 0x8000_0000);
}

#[test]
fn broadcast() {
    assert_eq!(PanId::broadcast(), PanId::new(0xffff));
    assert_eq!(u16::from(PanId::broadcast()), 0xffff);
}

#[test]
fn channel_record() {
    let channel = Channel::new(12, 0);
    let mut buffer = [0u8; 5];
    assert_eq!(channel.try_encode_tlv(&mut buffer), Ok(5));
    assert_eq!(buffer, [0x00, 0x03, 0x00, 0x00, 0x0c]);
    assert_eq!(Channel::decode_tlv_unchecked(&buffer), channel);
    let random = Channel::random();
    assert!((11..=26).contains(&random.channel()));
    assert_eq!(random.page(), 0);
}

#[test]
fn network_name_from_str() {
    let name = NetworkName::from_str("OpenThread-b3de").unwrap();
    assert_eq!(name.name_bytes(), b"OpenThread-b3de");
    assert_eq!(name.as_string().as_deref(), Some("OpenThread-b3de"));
    assert_eq!(name.tlv_len(), 15);
    assert_eq!(
        NetworkName::from_str("seventeen-bytes!!"),
        Err(TwineCodecError::BufferMaxLength("NetworkName", 16, 17))
    );
    let mut buffer = [0u8; 20];
    assert_eq!(name.try_encode_tlv(&mut buffer), Ok(17));
    assert_eq!(NetworkName::decode_tlv_unchecked(&buffer[..17]), name);
}

#[test]
fn network_name_invalid_utf8() {
    let bytes = [0x03, 0x02, 0xff, 0xfe];
    let name = NetworkName::decode_tlv_unchecked(&bytes);
    assert_eq!(name.as_string(), None);
}

#[test]
fn array_backed_values() {
    let xpan = ExtendedPanId::from(0x1bb8_96be_f533_a585u64);
    assert_eq!(u64::from(xpan), 0x1bb8_96be_f533_a585);
    assert_eq!(
        xpan,
        ExtendedPanId::from([0x1b, 0xb8, 0x96, 0xbe, 0xf5, 0x33, 0xa5, 0x85])
    );
    let pskc = Pskc::from(1u128);
    let mut expected = [0u8; 16];
    expected[15] = 1;
    assert_eq!(pskc.as_bytes(), &expected);
    let address = ExtendedAddress::from(0x0102_0304_0506_0708u64);
    assert_eq!(address.to_hex_string(), "0102030405060708");
    assert_eq!(u64::from(address), 0x0102_0304_0506_0708);
}

#[test]
fn default_security_policy_is_the_spec_pattern() {
    assert_eq!(SecurityPolicy::default().bits(), 0x02A0_F7F8);
    assert_eq!(
        SecurityPolicy::default(),
        SecurityPolicyBuilder::with_default_policy().build().unwrap()
    );
}

#[test]
fn random_bytes_are_kept() {
    let prefix = MeshLocalPrefix::ula_from_random([1, 2, 3, 4, 5, 6, 7]);
    assert_eq!(prefix, MeshLocalPrefix::from([0xfd, 1, 2, 3, 4, 5, 6, 7]));
    let address = ExtendedAddress::from([1, 2, 3, 4, 5, 6, 7, 8]);
    assert_eq!(u64::from(address), 0x0102_0304_0506_0708);
}

#[test]
fn network_name_for_pan_id() {
    assert_eq!(NetworkName::for_pan_id(0xb3de).as_string().as_deref(), Some("Twine-b3de"));
    assert_eq!(NetworkName::for_pan_id(0x7).as_string().as_deref(), Some("Twine-7"));
    assert_eq!(NetworkName::for_pan_id(0x0a0).as_string().as_deref(), Some("Twine-a0"));
}
