use std::str::FromStr;

use twine_codec::{
    MeshCopTlv, OperationalDatasetTlvsVec,
    Authoritative, Channel, ExtendedPanId, MeshLocalPrefix, NetworkKey, NetworkName,
    OperationalDataset, OperationalDatasetItem, OperationalDatasetTlvs, PanId, Pskc,
    SecurityPolicyBuilder, Timestamp, TwineCodecError, OPERATIONAL_DATASET_MAX_LENGTH,
    OPERATIONAL_DATASET_TLVS_TYPE_NAME,
};

const DATASET_HEX: &str = "0e080000000000010000000300000c4a0300001335060004001fffe002081bb896bef533a5850708fd48b2e8c34e7dc70510e9b948988752752873570d09ada4d0be030f4f70656e5468726561642d623364650102b3de0410f9f07ed37fbb6828fb3b26b63bdea3c30c0402a0f7f8";

#[test]
fn try_from_vec_u8_for_operational_dataset_tlvs() {
    // Input is max length
    let input_max_length = vec![0x27; OPERATIONAL_DATASET_MAX_LENGTH];
    let test = OperationalDatasetTlvs::try_from(input_max_length)
        .expect("Could not convert array to OperationalDatasetTlvs");
    assert_eq!(test.as_bytes(), &[0x27; OPERATIONAL_DATASET_MAX_LENGTH]);
    assert_eq!(test.len(), OPERATIONAL_DATASET_MAX_LENGTH);

    // Input is too long
    let input_too_long = vec![0x27; OPERATIONAL_DATASET_MAX_LENGTH + 1];
    let test = OperationalDatasetTlvs::try_from(input_too_long);
    let expected_err = TwineCodecError::BufferMaxLength(
        OPERATIONAL_DATASET_TLVS_TYPE_NAME,
        OPERATIONAL_DATASET_MAX_LENGTH,
        OPERATIONAL_DATASET_MAX_LENGTH + 1,
    );
    assert_eq!(Err(expected_err), test);

    // Input is standard length
    let mut expected = [0x00; OPERATIONAL_DATASET_MAX_LENGTH];
    expected[0] = 0x27;
    expected[1] = 0x27;
    expected[2] = 0x27;
    expected[3] = 0x27;

    let mut input = vec![0xFF; 4];
    input[0] = 0x27;
    input[1] = 0x27;
    input[2] = 0x27;
    input[3] = 0x27;

    let test = OperationalDatasetTlvs::try_from(input)
        .expect("Could not convert array to OperationalDatasetTlvs");
    assert_eq!(test.as_bytes(), &expected);
    assert_eq!(test.len(), 4);

    // Input is empty
    let empty = Vec::new();
    let test = OperationalDatasetTlvs::try_from(empty)
        .expect("Could not convert array to OperationalDatasetTlvs");
    assert_eq!(test, OperationalDatasetTlvs::default());
    assert_eq!(test.len(), 0);
}

#[test]
fn dataset_tlvs_as_string() {
    let tlvs = OperationalDatasetTlvs::try_from(vec![0x0e, 0xab]).unwrap();
    let text = tlvs.as_string();
    assert_eq!(text.len(), 2 * OPERATIONAL_DATASET_MAX_LENGTH);
    assert!(text.starts_with("0eab0000"));
}

#[test]
fn mod_success_from_str() {
    let dataset = OperationalDataset::from_hex(DATASET_HEX).unwrap();

    let active_timestamp = dataset.active_timestamp().unwrap();
    let channel = dataset.channel().unwrap();
    let xpan = dataset.extended_pan_id().unwrap();
    let mesh_local_prefix: MeshLocalPrefix = dataset.mesh_local_prefix().unwrap();
    let network_key = dataset.network_key().unwrap();
    let network_name = dataset.network_name().unwrap();
    let pan_id = dataset.pan_id().unwrap();
    let pskc = dataset.pskc().unwrap();
    let security_policy = dataset.security_policy().unwrap();

    // The record holds 0x0000_0000_0001_0000: one second, no ticks.
    assert_eq!(
        active_timestamp,
        Timestamp::from((1, 0, Authoritative(false)))
    );
    assert_eq!(channel, Channel::new(12, 0));
    assert_eq!(
        xpan,
        ExtendedPanId::from([0x1b, 0xb8, 0x96, 0xbe, 0xf5, 0x33, 0xa5, 0x85])
    );
    assert_eq!(
        mesh_local_prefix,
        MeshLocalPrefix::from([0xfd, 0x48, 0xb2, 0xe8, 0xc3, 0x4e, 0x7d, 0xc7])
    );
    assert_eq!(
        network_key,
        NetworkKey::from(u128::from_be_bytes([
            0xe9, 0xb9, 0x48, 0x98, 0x87, 0x52, 0x75, 0x28, 0x73, 0x57, 0x0d, 0x09, 0xad, 0xa4,
            0xd0, 0xbe
        ]))
    );
    assert_eq!(
        network_name,
        NetworkName::from_str("OpenThread-b3de").unwrap()
    );
    assert_eq!(pan_id, PanId::from(0xb3de));
    assert_eq!(
        pskc,
        Pskc::from([
            0xf9, 0xf0, 0x7e, 0xd3, 0x7f, 0xbb, 0x68, 0x28, 0xfb, 0x3b, 0x26, 0xb6, 0x3b, 0xde,
            0xa3, 0xc3
        ])
    );
    assert_eq!(
        security_policy,
        SecurityPolicyBuilder::with_default_policy()
            .build()
            .unwrap()
    );
}

#[test]
fn parsed_dataset_scenario() {
    let dataset = OperationalDataset::from_str(DATASET_HEX).unwrap();
    assert_eq!(dataset.channel().unwrap().channel(), 12);
    assert_eq!(dataset.channel().unwrap().page(), 0);
    assert_eq!(dataset.pan_id().unwrap().get(), 0xb3de);
    assert_eq!(
        dataset.network_name().unwrap().as_string().as_deref(),
        Some("OpenThread-b3de")
    );
    assert_eq!(
        dataset.security_policy().unwrap().to_display_string(),
        "672 onrc 0"
    );
    assert_eq!(dataset.channel_mask().unwrap().mask(), 0x07FF_F800);
    assert!(dataset.delay_timer().is_none());
    assert!(dataset.pending_timestamp().is_none());
    assert!(dataset.is_active());
    assert!(!dataset.is_pending());
    assert_eq!(dataset.as_hex_string(), DATASET_HEX);
    assert_eq!(dataset.collection().count(), 11);
}

#[test]
fn dataset_from_hex_errors() {
    assert_eq!(
        OperationalDataset::from_hex("0e0").unwrap_err(),
        TwineCodecError::HexDecodeError
    );
    assert_eq!(
        OperationalDataset::from_hex("zz").unwrap_err(),
        TwineCodecError::HexDecodeError
    );
    let too_long = "00".repeat(257);
    assert_eq!(
        OperationalDataset::from_hex(&too_long).unwrap_err(),
        TwineCodecError::HexDecodeError
    );
    let full = "00".repeat(256);
    assert!(OperationalDataset::from_hex(&full).is_ok());
}

#[test]
fn dataset_iter_walks_records() {
    let dataset = OperationalDataset::from_hex(DATASET_HEX).unwrap();
    let mut iter = dataset.iter();
    let mut names = Vec::new();
    while let Some(item) = iter.next() {
        names.push(match item {
            OperationalDatasetItem::ActiveTimestamp(_) => "active",
            OperationalDatasetItem::Channel(_) => "channel",
            OperationalDatasetItem::ChannelMask(_) => "mask",
            OperationalDatasetItem::ExtendedPanId(_) => "xpan",
            OperationalDatasetItem::MeshLocalPrefix(_) => "prefix",
            OperationalDatasetItem::NetworkKey(_) => "key",
            OperationalDatasetItem::NetworkName(_) => "name",
            OperationalDatasetItem::PanId(_) => "pan",
            OperationalDatasetItem::Pskc(_) => "pskc",
            OperationalDatasetItem::SecurityPolicy(_) => "policy",
            OperationalDatasetItem::Unknown(bytes) => {
                assert_eq!(bytes, vec![0x4a, 0x03, 0x00, 0x00, 0x13]);
                "unknown"
            }
            _ => "other",
        });
    }
    assert_eq!(
        names,
        vec![
            "active", "channel", "unknown", "mask", "xpan", "prefix", "key", "name", "pan",
            "pskc", "policy"
        ]
    );
    assert!(iter.next().is_none());
}

#[test]
fn set_active_timestamp_in_place_or_appended() {
    let mut dataset = OperationalDataset::from_hex(DATASET_HEX).unwrap();
    let before = dataset.as_hex_string();
    dataset
        .set_active_timestamp(Timestamp::new(5, 0, Authoritative(true)))
        .unwrap();
    let after = dataset.as_hex_string();
    assert_eq!(before.len(), after.len());
    assert_eq!(&after[..20], "0e080000000000050001");
    assert_eq!(&after[20..], &before[20..]);

    let mut empty = OperationalDataset::from_hex("").unwrap();
    empty
        .set_active_timestamp(Timestamp::new(1, 0, Authoritative(false)))
        .unwrap();
    assert_eq!(empty.as_hex_string(), "0e080000000000010000");
}

#[test]
fn random_dataset_has_every_record() {
    let dataset = OperationalDataset::random().expect("random dataset");
    assert_eq!(dataset.collection().count(), 10);
    assert!(dataset.is_active());
    let pan_id = dataset.pan_id().unwrap().get();
    let name = dataset.network_name().unwrap().as_string().unwrap();
    assert_eq!(name, format!("Twine-{:x}", pan_id));
    assert_eq!(dataset.channel_mask().unwrap().mask(), 0x07FF_F800);
    let reparsed = OperationalDataset::from_hex(&dataset.as_hex_string()).unwrap();
    assert_eq!(reparsed.as_hex_string(), dataset.as_hex_string());
}

#[test]
fn dataset_items_as_text() {
    let dataset = OperationalDataset::from_hex(DATASET_HEX).unwrap();
    let mut iter = dataset.iter();
    let mut lines = Vec::new();
    while let Some(item) = iter.next() {
        lines.push(item.to_display_string());
    }
    assert_eq!(
        lines,
        vec![
            "Active Timestamp: 1",
            "Channel: 12",
            "Unknown TLV: 4a03000013",
            "Channel Mask: 0x07fff800",
            "Ext PAN ID: 1bb896bef533a585",
            "Mesh Local Prefix: fd48:b2e8:c34e:7dc7::/64",
            "Network Key: e9b948988752752873570d09ada4d0be",
            "Network Name: OpenThread-b3de",
            "PAN ID: 0xb3de",
            "PSKc: f9f07ed37fbb6828fb3b26b63bdea3c3",
            "Security Policy: 672 onrc 0",
        ]
    );
}

#[test]
fn random_dataset_uses_default_policy() {
    let dataset = OperationalDataset::random().expect("random dataset");
    assert_eq!(dataset.security_policy().unwrap().bits(), 0x02A0_F7F8);
    assert_eq!(dataset.mesh_local_prefix().unwrap().to_display_string().get(..2), Some("fd"));
}

#[test]
fn dataset_tlvs_from_meshcop_records() {
    let bytes = [0x01, 0x02, 0xb3, 0xde, 0x00, 0x03, 0x00, 0x00, 0x0c];
    let mut records = OperationalDatasetTlvsVec::new();
    let (pan, next) = MeshCopTlv::decode(&bytes, 0).unwrap();
    let (channel, _) = MeshCopTlv::decode(&bytes, next).unwrap();
    records.push(pan).unwrap();
    records.push(channel).unwrap();
    assert_eq!(records.dataset_length(), 9);
    assert!(records.is_valid());
    let tlvs = OperationalDatasetTlvs::try_from(records).unwrap();
    assert_eq!(tlvs.len(), 9);
    assert_eq!(&tlvs.as_bytes()[..9], &bytes);

    let mut big = OperationalDatasetTlvsVec::new();
    let mut record = vec![0x03, 0xFE];
    record.extend_from_slice(&[0x41; 0xFE]);
    let (name, _) = MeshCopTlv::decode(&record, 0).unwrap();
    big.push(name).unwrap();
    assert!(!big.is_valid());
    assert_eq!(
        OperationalDatasetTlvs::try_from(big),
        Err(TwineCodecError::BufferMaxLength(
            OPERATIONAL_DATASET_TLVS_TYPE_NAME,
            OPERATIONAL_DATASET_MAX_LENGTH,
            256
        ))
    );

    let mut full = OperationalDatasetTlvsVec::new();
    for _ in 0..32 {
        full.push(MeshCopTlv::decode(&[0x01, 0x00], 0).unwrap().0).unwrap();
    }
    assert!(full.push(MeshCopTlv::decode(&[0x01, 0x00], 0).unwrap().0).is_err());
}
