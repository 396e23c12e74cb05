use twine_codec::{MeshCopTlv, MeshCopTlvTag, TwineCodecError};

const CHANNEL_TLV_BYTES: [u8; 5] = [0x00, 0x03, 0x00, 0x00, 0x16];
const PAN_ID_TLV_BYTES: [u8; 4] = [0x01, 0x02, 0xe0, 0x19];
const EXTENDED_PAN_ID_TLV_BYTES: [u8; 10] =
    [0x02, 0x08, 0x93, 0x33, 0xcb, 0x0d, 0x9c, 0x0e, 0xec, 0x48];
const NETWORK_NAME_TLV_BYTES: [u8; 17] = [
    0x03, 0x0f, 0x4f, 0x70, 0x65, 0x6e, 0x54, 0x68, 0x72, 0x65, 0x61, 0x64, 0x2d, 0x65, 0x30,
    0x31, 0x39,
];
const PSKC_TLV_BYTES: [u8; 18] = [
    0x04, 0x10, 0xa3, 0x3e, 0x84, 0xe9, 0xd7, 0xed, 0x60, 0x2e, 0x21, 0x3d, 0x39, 0x22, 0xc7,
    0x30, 0x9d, 0x57,
];
const NETWORK_KEY_TLV_BYTES: [u8; 18] = [
    0x05, 0x10, 0x90, 0x21, 0x2c, 0xda, 0x44, 0x73, 0x4b, 0xca, 0xa7, 0x68, 0x6d, 0xa5, 0xdb,
    0x31, 0xa0, 0x55,
];
const NETWORK_MESH_LOCAL_PREFIX_TLV_BYTES: [u8; 10] =
    [0x07, 0x08, 0xfd, 0x76, 0x14, 0x46, 0x3a, 0x6f, 0x7b, 0xc1];
const SECURITY_POLICY_TLV_BYTES: [u8; 6] = [0x0c, 0x04, 0x02, 0xa0, 0xf7, 0xf8];
const ACTIVE_TIMESTAMP_TLV_BYTES: [u8; 10] =
    [0x0e, 0x08, 0x00, 0x00, 0x00, 0x00, 0x00, 0x01, 0x00, 0x00];
const CHANNEL_MASK_TLV_BYTES: [u8; 8] = [0x35, 0x06, 0x00, 0x04, 0x00, 0x1f, 0xff, 0xe0];
const WAKEUP_CHANNEL_TLV_BYTES: [u8; 5] = [0x4a, 0x03, 0x00, 0x00, 0x1a];

fn helper_test_decode(bytes: &'static [u8], expected_tag: MeshCopTlvTag) -> MeshCopTlv {
    let (tlv, next) = MeshCopTlv::decode(bytes, 0).expect("Could not decode TLV");

    assert_eq!(tlv.tag(), expected_tag);
    assert_eq!(u8::from(tlv.tag()), u8::from(expected_tag));
    assert_eq!(next, bytes.len());
    assert_eq!(tlv.value(), &bytes[2..]);

    tlv
}

#[test]
fn tlv_0_channel() {
    let _ = helper_test_decode(&CHANNEL_TLV_BYTES, MeshCopTlvTag::Channel);
}

#[test]
fn tlv_1_pan_id() {
    let _ = helper_test_decode(&PAN_ID_TLV_BYTES, MeshCopTlvTag::PanId);
}

#[test]
fn tlv_2_extended_pan_id() {
    let _ = helper_test_decode(&EXTENDED_PAN_ID_TLV_BYTES, MeshCopTlvTag::ExtendedPanId);
}

#[test]
fn tlv_3_network_name() {
    let _ = helper_test_decode(&NETWORK_NAME_TLV_BYTES, MeshCopTlvTag::NetworkName);
}

#[test]
fn tlv_4_pskc() {
    let _ = helper_test_decode(&PSKC_TLV_BYTES, MeshCopTlvTag::Pskc);
}

#[test]
fn tlv_5_network_key() {
    let _ = helper_test_decode(&NETWORK_KEY_TLV_BYTES, MeshCopTlvTag::NetworkKey);
}

#[test]
fn tlv_7_network_mesh_local_prefix() {
    let _ = helper_test_decode(
        &NETWORK_MESH_LOCAL_PREFIX_TLV_BYTES,
        MeshCopTlvTag::NetworkMeshLocalPrefix,
    );
}

#[test]
fn tlv_12_security_policy() {
    let _ = helper_test_decode(&SECURITY_POLICY_TLV_BYTES, MeshCopTlvTag::SecurityPolicy);
}

#[test]
fn tlv_14_active_timestamp() {
    let _ = helper_test_decode(&ACTIVE_TIMESTAMP_TLV_BYTES, MeshCopTlvTag::ActiveTimestamp);
}

#[test]
fn tlv_53_channel_mask() {
    let _ = helper_test_decode(&CHANNEL_MASK_TLV_BYTES, MeshCopTlvTag::ChannelMask);
}

#[test]
fn tlv_74_wake_up_channel() {
    let _ = helper_test_decode(&WAKEUP_CHANNEL_TLV_BYTES, MeshCopTlvTag::WakeUpChannel);
}

#[test]
fn meshcop_unknown_tag_and_encode() {
    assert_eq!(MeshCopTlvTag::from(0x99), MeshCopTlvTag::Unknown(0x99));
    assert_eq!(u8::from(MeshCopTlvTag::Unknown(0x99)), 0x99);
    let (tlv, _) = MeshCopTlv::decode(&PAN_ID_TLV_BYTES, 0).unwrap();
    let mut out = vec![0xAB];
    tlv.encode(&mut out);
    assert_eq!(out, vec![0xAB, 0x01, 0x02, 0xe0, 0x19]);
    assert_eq!(tlv.length(), 2);
}

#[test]
fn meshcop_decode_short_input() {
    assert_eq!(
        MeshCopTlv::decode(&[0x01, 0x05, 0xAA], 0),
        Err(TwineCodecError::BufferBytesConversion("MeshCopTlv"))
    );
    assert_eq!(
        MeshCopTlv::decode(&[0x01], 0),
        Err(TwineCodecError::BufferBytesConversion("MeshCopTlv"))
    );
    let two = [0x01, 0x01, 0xAA, 0x02, 0x00];
    let (first, next) = MeshCopTlv::decode(&two, 0).unwrap();
    assert_eq!(first.tag(), MeshCopTlvTag::PanId);
    let (second, end) = MeshCopTlv::decode(&two, next).unwrap();
    assert_eq!(second.tag(), MeshCopTlvTag::ExtendedPanId);
    assert_eq!(end, 5);
}
