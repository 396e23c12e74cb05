use twine_codec::{
    read_length, validate_const_len_tlv, write_length, write_tlv, DecodeTlvUnchecked,
    GetTlvLength, PutTlvLength, RawTlv, TlvConstantMetadata, TlvLength, TlvType, TryEncodeTlv,
    TwineTlvError,
};

/// foo: u8, then bar: u16
type ExampleTestData = RawTlv<0x00, 3>;

const TEST_TLV_DATA: [u8; 6] = [0x01, 0x04, 0xAA, 0xBB, 0xCC, 0xDD];

type TestTlvData = RawTlv<0x01, 4>;

fn test_tlv_extended_data_type() -> [u8; 256 + 4] {
    let mut data = [0; 256 + 4];
    data[0] = 0x02;
    data[1] = 0xFF;
    data[2] = 0x01;
    data[3] = 0x00;
    for byte in data[4..].iter_mut() {
        *byte = 0xAA_u8;
    }
    data
}

type TestTlvExtendedDataType = RawTlv<0x02, 256>;

#[test]
fn success_validate_const_len_tlv() {
    let mut buffer = [0u8; 6];
    buffer.copy_from_slice(&TEST_TLV_DATA);

    assert!(validate_const_len_tlv::<TestTlvData>(&buffer).is_ok());
}

#[test]
fn success_validate_const_extended_len_tlv() {
    let mut buffer = [0u8; 256 + 4];
    buffer.copy_from_slice(&test_tlv_extended_data_type());

    assert!(validate_const_len_tlv::<TestTlvExtendedDataType>(&buffer).is_ok());
}

#[test]
fn fail_validate_const_len_tlv_total_len_too_short() {
    const TEST_BYTES_TOTAL_LEN_TOO_SHORT: [u8; 4] = [0x00, 0x03, 0x00, 0x00];
    let test = validate_const_len_tlv::<ExampleTestData>(&TEST_BYTES_TOTAL_LEN_TOO_SHORT);
    assert_eq!(test, Err(TwineTlvError::BufferDecodeTooShort));
}

#[test]
fn fail_validate_const_len_tlv_wrong_type() {
    const TEST_BYTES_WRONG_TYPE: [u8; 5] = [0xFF, 0x03, 0x00, 0x00, 0x16];
    let test = validate_const_len_tlv::<ExampleTestData>(&TEST_BYTES_WRONG_TYPE);
    assert_eq!(test, Err(TwineTlvError::BufferWrongType));
}

#[test]
fn fail_validate_const_len_tlv_len_too_short() {
    const TEST_BYTES_LEN_TOO_SHORT: [u8; 5] = [0x00, 0x02, 0x00, 0x00, 0x16];
    let test = validate_const_len_tlv::<ExampleTestData>(&TEST_BYTES_LEN_TOO_SHORT);
    assert_eq!(
        test,
        Err(TwineTlvError::BufferDecodeUnexpectedTlvLength(3, 2))
    );
}

#[test]
fn success_write_tlv() {
    // Standard length byte
    const TEST_BYTES: [u8; 5] = [0x00, 0x03, 0x00, 0x00, 0x16];
    let test_data: ExampleTestData = ExampleTestData::new([0x00, 0x00, 0x16]);
    let mut test_buffer: [u8; 10] = [0; 10];
    let result =
        write_tlv::<ExampleTestData>(&mut test_buffer, ExampleTestData::TLV_TYPE, &test_data)
            .expect("Could not write TLV");
    assert_eq!(result, 5);
    assert_eq!(test_buffer[0..5], TEST_BYTES);
}

#[test]
fn write_tlv_destination_too_short() {
    let data: ExampleTestData = ExampleTestData::new([1, 0, 2]);
    let mut buffer = [0u8; 4];
    let result = write_tlv(&mut buffer, ExampleTestData::TLV_TYPE, &data);
    assert_eq!(result, Err(TwineTlvError::BufferEncodeTooShort));
    assert_eq!(buffer, [0u8; 4]);
}

#[test]
fn write_tlv_value_too_long_for_length_field() {
    let value = [0x11u8; 70_000];
    let mut buffer = vec![0u8; 70_010];
    let result = write_tlv(&mut buffer, 0x09, &value);
    assert_eq!(result, Err(TwineTlvError::BufferMaxLength));
}

#[test]
fn write_tlv_extended_length() {
    let value = [0x5Au8; 256];
    let mut buffer = [0u8; 300];
    let written = write_tlv(&mut buffer, 0x02, &value).expect("extended record");
    assert_eq!(written, 260);
    assert_eq!(&buffer[..4], &[0x02, 0xFF, 0x01, 0x00]);
    assert!(buffer[4..260].iter().all(|b| *b == 0x5A));
    assert_eq!(buffer[260], 0);
}

#[test]
fn length_field_boundary() {
    let mut buffer = [0u8; 4];
    assert_eq!(write_length(&mut buffer, 0, 254), Ok(1));
    assert_eq!(buffer[0], 254);
    assert_eq!(read_length(&buffer, 0), (254, 1));

    let mut buffer = [0u8; 4];
    assert_eq!(write_length(&mut buffer, 0, 255), Ok(3));
    assert_eq!(&buffer[..3], &[0xFF, 0x00, 0xFF]);
    assert_eq!(read_length(&buffer, 0), (255, 3));

    let mut out = [0u8; 260];
    assert_eq!(write_tlv(&mut out, 1, &[0u8; 254]), Ok(256));
    assert_eq!(write_tlv(&mut out, 1, &[0u8; 255]), Ok(259));
    assert_eq!(write_tlv(&mut out, 1, &[0u8; 256]), Ok(260));
}

#[test]
fn write_length_errors() {
    let mut buffer = [0u8; 2];
    assert_eq!(write_length(&mut buffer, 0, 70_000), Err(TwineTlvError::BufferMaxLength));
    assert_eq!(write_length(&mut buffer, 0, 300), Err(TwineTlvError::BufferEncodeTooShort));
    assert_eq!(write_length(&mut buffer, 2, 3), Err(TwineTlvError::BufferEncodeTooShort));
    assert_eq!(buffer, [0, 0]);
}

#[test]
fn get_and_put_tlv_length() {
    let bytes = [0xFFu8, 0x01, 0x00, 0x42];
    let mut cursor: &[u8] = &bytes;
    assert_eq!(cursor.get_tlv_length(), 256);
    assert_eq!(cursor, &[0x42]);

    let mut buffer = [0u8; 3];
    assert_eq!(buffer.as_mut_slice().put_tlv_length(0, 0x1234), Ok(3));
    assert_eq!(buffer, [0xFF, 0x12, 0x34]);
}

#[test]
fn record_round_trip() {
    let data: ExampleTestData = ExampleTestData::new([0x7E, 0xBE, 0xEF]);
    let mut buffer = [0u8; 8];
    let written = data.try_encode_tlv(&mut buffer).expect("fits");
    assert_eq!(written, 5);
    assert_eq!(ExampleTestData::decode_tlv_unchecked(&buffer[..written]), data);
    assert_eq!(data.tlv_total_len(), 5);
    assert_eq!(ExampleTestData::tlv_total_constant_len(), 5);
}
