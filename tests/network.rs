use std::str::FromStr;

use twine_codec::{
    is_known_usb_device, DeviceCapability, DeviceId, DevicePoolError, DeviceRole, HandleId,
    JoinerPskd, NetworkRole, Rloc16, SerialDeviceInfo, SteeringData, TwineCodecError,
};

#[test]
fn steering_data_limits() {
    let data = SteeringData::try_from(vec![1, 2, 3]).unwrap();
    assert_eq!(data.as_bytes(), &[1, 2, 3]);
    assert_eq!(
        SteeringData::try_from(vec![0; 17]),
        Err(TwineCodecError::BufferMaxLength("SteeringData", 16, 17))
    );
    assert_eq!(SteeringData::try_from(vec![0xFF; 16]).unwrap().as_bytes(), &[0xFF; 16]);
}

#[test]
fn joiner_pskd_limits() {
    assert!(JoinerPskd::from_bytes(&[b'J'; 32]).is_some());
    assert!(JoinerPskd::from_bytes(&[b'J'; 33]).is_none());
}

#[test]
fn rloc16_text() {
    let rloc = Rloc16::from_str("5c00").unwrap();
    assert_eq!(u16::from(rloc), 0x5c00);
    assert_eq!(rloc.to_display_string(), "0x5c00");
    assert_eq!(Rloc16::from(0x0401).to_display_string(), "0x0401");
    assert_eq!(Rloc16::from_str("0x5c00"), Err(TwineCodecError::StringParseError));
    assert_eq!(Rloc16::from_str("10000"), Err(TwineCodecError::StringParseError));
}

#[test]
fn network_role_any_case() {
    assert_eq!(NetworkRole::from_str("Leader"), Ok(NetworkRole::Leader));
    assert_eq!(NetworkRole::from_str("child"), Ok(NetworkRole::Child));
    assert_eq!(NetworkRole::from_lowercase("router"), Ok(NetworkRole::Router));
    assert_eq!(NetworkRole::from_lowercase("Router"), Err(TwineCodecError::StringParseError));
    assert_eq!(NetworkRole::from_str("sleepy"), Err(TwineCodecError::StringParseError));
    assert_eq!(NetworkRole::default(), NetworkRole::Disabled);
}

#[test]
fn device_role_exact() {
    assert_eq!(DeviceRole::from_str("detached"), Ok(DeviceRole::Detached));
    assert_eq!(
        DeviceRole::from_str("Detached"),
        Err(TwineCodecError::Internal("Unknown DeviceRole"))
    );
}

#[test]
fn device_ids_and_errors() {
    let id = DeviceId::new("ffd-1");
    assert_eq!(id.as_str(), "ffd-1");
    assert_eq!(HandleId::new(7).get(), 7);
    let error = DevicePoolError::DuplicateDevice(id.clone());
    assert_eq!(error, DevicePoolError::DuplicateDevice(DeviceId::new("ffd-1")));
    assert_ne!(
        DevicePoolError::NoDeviceWithCapability(DeviceCapability::FullFunctionDevice),
        DevicePoolError::NoDeviceWithCapability(DeviceCapability::ReducedFunctionDevice)
    );
}

#[test]
fn usb_device_filter() {
    let known = [SerialDeviceInfo {
        vendor: "Nordic Semiconductor",
        product: Some("nRF528xx OpenThread Device"),
        vid: 0x1915,
        pid: 0xcafe,
    }];
    assert!(is_known_usb_device(
        &known,
        0x1915,
        0xcafe,
        Some("nRF528xx OpenThread Device")
    ));
    assert!(!is_known_usb_device(&known, 0x1915, 0xcafe, None));
    assert!(!is_known_usb_device(&known, 0x1915, 0xbeef, Some("nRF528xx OpenThread Device")));
    assert!(!is_known_usb_device(&[], 0x1915, 0xcafe, None));
}
