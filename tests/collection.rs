use core::ops::Range;

use twine_codec::{RawTlv, TlvCollection, TlvType, TwineTlvError, VarTlv};

const TEST_TLV_DATA_TYPE_ZERO: [u8; 3] = [0x00, 0x01, 0xAA];

type TestTlvDataTypeZero = RawTlv<0x00, 1>;

const TEST_TLV_DATA: [u8; 6] = [0x01, 0x04, 0xAA, 0xBB, 0xCC, 0xDD];

type TestTlvData = RawTlv<0x01, 4>;

fn test_tlv_extended_data_type() -> [u8; 256 + 4] {
    let mut data = [0; 256 + 4];
    data[0] = 0x02;
    data[1] = 0xFF;
    data[2] = 0x01;
    data[3] = 0x00;
    for byte in data[4..].iter_mut() {
        *byte = 0xAA_u8;
    }
    data
}

type TestTlvExtendedDataType = RawTlv<0x02, 256>;

type TestTlvVariableDataType = VarTlv<0x03>;

fn variable(bytes: &[u8]) -> TestTlvVariableDataType {
    TestTlvVariableDataType::new(bytes.to_vec())
}

#[test]
fn success_find_tlv_type() {
    let buffer = [
        0x01, 0x02, 0x03, 0x04, 0x02, 0xFF, 0x00, 0x02, 0xAA, 0xAA, 0x00, 0x03, 0x00, 0x00,
        0x16,
    ];
    let tlv = TlvCollection::<15>::find_tlv_with_type(0, &buffer);
    assert_eq!(tlv, Some(Range { start: 10, end: 15 }));
    let bytes = &buffer[tlv.unwrap()];
    assert_eq!(bytes, &[0x00, 0x03, 0x00, 0x00, 0x16]);
}

#[test]
fn success_find_tlv_type_returns_none_unknown_tlv() {
    let buffer = [
        0x01, 0x02, 0x03, 0x04, 0x02, 0xFF, 0x00, 0x02, 0xAA, 0xAA, 0x00, 0x03, 0x00, 0x00,
        0x16,
    ];
    let tlv = TlvCollection::<15>::find_tlv_with_type(0xFF, &buffer);
    assert_eq!(tlv, None);
}

#[test]
fn success_find_tlv_type_returns_none_on_empty_buffer() {
    let buffer = [0_u8; 15];
    let tlv = TlvCollection::<15>::find_tlv_with_type(0xFF, &buffer);
    assert_eq!(tlv, None);
}

#[test]
fn success_len() {
    const CAPACITY: usize = 254;

    let mut buffer = [0_u8; CAPACITY];
    buffer[0] = 0x01;
    buffer[1] = 0x02;
    buffer[2] = 0x03;
    buffer[3] = 0x04;

    let tlv_data = TlvCollection::<CAPACITY>::new_from_static(buffer);
    let len_test = tlv_data.len();
    assert_eq!(len_test, 4);
}

#[test]
fn success_len_completely_full() {
    let mut buffer = [0_u8; 8];
    buffer[0] = 0x01;
    buffer[1] = 0x02;
    buffer[2] = 0x03;
    buffer[3] = 0x04;
    buffer[4] = 0x01;
    buffer[5] = 0x02;
    buffer[6] = 0x03;
    buffer[7] = 0x04;

    let tlv_data = TlvCollection::<8>::new_from_static(buffer);
    let len_test = tlv_data.len();
    assert_eq!(len_test, 8);
}

#[test]
fn success_len_with_zero_tlv_at_end() {
    const CAPACITY: usize = 254;

    let mut buffer = [0_u8; CAPACITY];
    buffer[0] = 0x01;
    buffer[1] = 0x02;
    buffer[2] = 0x03;
    buffer[3] = 0x04;
    buffer[4] = 0x01;
    buffer[5] = 0x02;
    buffer[6] = 0x03;
    buffer[7] = 0x04;
    buffer[8] = 0x00;
    buffer[9] = 0x03;
    buffer[10] = 0x00;
    buffer[11] = 0x00;
    buffer[12] = 0x16;

    let tlv_data = TlvCollection::<CAPACITY>::new_from_static(buffer);
    let len_test = tlv_data.len();
    assert_eq!(len_test, 13);
}

#[test]
fn success_len_empty_buffer() {
    const CAPACITY: usize = 254;
    let buffer = [0_u8; CAPACITY];
    let tlv_data = TlvCollection::<CAPACITY>::new_from_static(buffer);
    let len_test = tlv_data.len();
    assert_eq!(len_test, 0);
}

#[test]
fn success_decode_type_not_first_tlv() {
    const CAPACITY: usize = 512;

    let mut buffer = [0_u8; CAPACITY];
    let extended_data = test_tlv_extended_data_type();
    let extended_len = extended_data.len();
    buffer[..extended_len].copy_from_slice(&extended_data);
    buffer[extended_len..extended_len + TEST_TLV_DATA.len()].copy_from_slice(&TEST_TLV_DATA);

    let test_data = TlvCollection::<CAPACITY>::new_from_static(buffer);
    let tlv_data = test_data.decode_type_unchecked::<TestTlvData>();

    assert!(tlv_data.is_some());
    assert_eq!(tlv_data.unwrap(), TestTlvData::new([0xAA, 0xBB, 0xCC, 0xDD]));
}

#[test]
fn success_decode_type_with_extended_len() {
    const CAPACITY: usize = 512;

    let mut buffer = [0_u8; CAPACITY];
    let extended_data = test_tlv_extended_data_type();
    let extended_len = extended_data.len();
    buffer[..extended_len].copy_from_slice(&extended_data);
    buffer[extended_len..extended_len + TEST_TLV_DATA.len()].copy_from_slice(&TEST_TLV_DATA);

    let test_data = TlvCollection::<CAPACITY>::new_from_static(buffer);
    let tlv_data = test_data.decode_type_unchecked::<TestTlvExtendedDataType>();

    assert!(tlv_data.is_some());
    assert_eq!(tlv_data.unwrap(), TestTlvExtendedDataType::new([0xAA; 256]));
}

#[test]
fn success_decode_type_with_zero_tlv_in_first_pos() {
    const CAPACITY: usize = 512;

    let mut buffer = [0_u8; CAPACITY];
    let type_zero_data = TEST_TLV_DATA_TYPE_ZERO;
    buffer[..type_zero_data.len()].copy_from_slice(&type_zero_data);

    let test_data = TlvCollection::<CAPACITY>::new_from_static(buffer);
    let tlv_data = test_data.decode_type_unchecked::<TestTlvDataTypeZero>();

    assert!(tlv_data.is_some());
    assert_eq!(tlv_data.unwrap(), TestTlvDataTypeZero::new([0xAA]));
}

#[test]
fn fail_decode_type_not_in_buffer() {
    const CAPACITY: usize = 512;

    let mut buffer = [0_u8; CAPACITY];
    let extended_data = test_tlv_extended_data_type();
    let extended_len = extended_data.len();
    buffer[..extended_len].copy_from_slice(&extended_data);

    let test_data = TlvCollection::<CAPACITY>::new_from_static(buffer);
    let tlv_data = test_data.decode_type_unchecked::<TestTlvData>();

    assert!(tlv_data.is_none());
}

#[test]
fn fail_decode_type_zero_tlv_in_empty_buffer() {
    const CAPACITY: usize = 512;

    let buffer = [0_u8; CAPACITY];

    let test_data = TlvCollection::<CAPACITY>::new_from_static(buffer);
    let tlv_data = test_data.decode_type_unchecked::<TestTlvDataTypeZero>();

    assert!(tlv_data.is_none());
}

#[test]
fn success_try_encode_tlv() {
    const CAPACITY: usize = 16;

    let tlv_data = TestTlvData::new([0xAA, 0xBB, 0xCC, 0xDD]);
    let mut tlv_collection = TlvCollection::<CAPACITY>::default();
    tlv_collection
        .push(tlv_data)
        .expect("Could not push TLV to collection");

    assert_eq!(tlv_collection.len(), 6);
    assert_eq!(
        tlv_collection.as_bytes(),
        &[0x01, 0x04, 0xAA, 0xBB, 0xCC, 0xDD, 0, 0, 0, 0, 0, 0, 0, 0, 0, 0]
    );
}

#[test]
fn success_try_encode_multiple_tlv() {
    const CAPACITY: usize = 16;

    let tlv_data = TestTlvData::new([0xAA, 0xBB, 0xCC, 0xDD]);
    let mut tlv_collection = TlvCollection::<CAPACITY>::default();
    tlv_collection
        .push(tlv_data)
        .expect("Could not push TLV to collection");
    tlv_collection
        .push(tlv_data)
        .expect("Could not push TLV to collection");

    assert_eq!(tlv_collection.len(), 12);
    assert_eq!(
        tlv_collection.as_bytes(),
        &[0x01, 0x04, 0xAA, 0xBB, 0xCC, 0xDD, 0x01, 0x04, 0xAA, 0xBB, 0xCC, 0xDD, 0, 0, 0, 0]
    );
}

#[test]
fn success_remove_tlv() {
    const CAPACITY: usize = 16;

    let tlv_data = [
        0x02, 0x02, 0xAA, 0xAA, 0x01, 0x04, 0xAA, 0xBB, 0xCC, 0xDD, 0x03, 0x02, 0xBB, 0xBB,
        0x00, 0x00,
    ];

    let mut tlv_collection = TlvCollection::<CAPACITY>::new_from_static(tlv_data);
    tlv_collection.remove::<TestTlvData>();

    assert_eq!(
        tlv_collection.as_bytes(),
        &[0x02, 0x02, 0xAA, 0xAA, 0x03, 0x02, 0xBB, 0xBB, 0, 0, 0, 0, 0, 0, 0, 0]
    );
    assert!(!tlv_collection.contains_tlv(TestTlvData::TLV_TYPE));
    assert_eq!(tlv_collection.count(), 2);
}

#[test]
fn success_replace_same_len_tlv() {
    const CAPACITY: usize = 8;

    let tlv_data = [0x01, 0x04, 0xAA, 0xAA, 0xAA, 0xAA, 0x00, 0x00];

    let mut tlv_collection = TlvCollection::<CAPACITY>::new_from_static(tlv_data);
    let new_tlv = TestTlvData::new([0xAA, 0xBB, 0xCC, 0xDD]);
    tlv_collection
        .replace(new_tlv)
        .expect("Could not replace TLV");

    assert_eq!(
        tlv_collection.as_bytes(),
        &[0x01, 0x04, 0xAA, 0xBB, 0xCC, 0xDD, 0x00, 0x00]
    );
}

#[test]
fn success_replace_different_len_tlv() {
    const CAPACITY: usize = 22;

    let tlv_data = [
        0x03, 0x02, 0xDE, 0xAD, 0x02, 0xFF, 0x00, 0x02, 0xAA, 0xAA, 0x01, 0x04, 0xAA, 0xBB,
        0xCC, 0xDD, 0x00, 0x00, 0x00, 0x00, 0x00, 0x00,
    ];

    let mut tlv_collection = TlvCollection::<CAPACITY>::new_from_static(tlv_data);
    let new_tlv = variable(&[0xAA, 0xBB, 0xCC]);
    tlv_collection
        .replace(new_tlv)
        .expect("Could not replace TLV");

    assert_eq!(
        tlv_collection.as_bytes(),
        &[
            0x02, 0xFF, 0x00, 0x02, 0xAA, 0xAA, 0x01, 0x04, 0xAA, 0xBB, 0xCC, 0xDD, 0x03, 0x03,
            0xAA, 0xBB, 0xCC, 0x00, 0x00, 0x00, 0x00, 0x00
        ]
    );
}

#[test]
fn fail_append_tlv_larger_than_remaining_capacity() {
    const CAPACITY: usize = 8;

    let tlv_data = [0x01, 0x04, 0xAA, 0xAA, 0xAA, 0xAA, 0x00, 0x00];

    let mut tlv_collection = TlvCollection::<CAPACITY>::new_from_static(tlv_data);
    let new_tlv = TestTlvData::new([0xAA, 0xBB, 0xCC, 0xDD]);

    let res = tlv_collection.push(new_tlv);
    assert_eq!(res, Err(TwineTlvError::BufferMaxLength));
    assert_eq!(tlv_collection.as_bytes(), &tlv_data);
}

#[test]
fn success_count_tlvs() {
    const CAPACITY: usize = 16;

    let tlv_data = [
        0x02, 0x02, 0xAA, 0xAA, 0x01, 0x04, 0xAA, 0xBB, 0xCC, 0xDD, 0x03, 0x02, 0xBB, 0xBB,
        0x00, 0x00,
    ];
    let tlv_collection = TlvCollection::<CAPACITY>::new_from_static(tlv_data);

    let count = tlv_collection.count();
    assert_eq!(count, 3);
}

#[test]
fn collection_success_from_str() {
    const CAPACITY: usize = 32;

    let tlv_str = "0104AABBCCDD";
    let tlv_collection = TlvCollection::<CAPACITY>::new_from_str(tlv_str).unwrap();

    assert_eq!(tlv_collection.len(), 6);
    assert_eq!(tlv_collection.count(), 1);
    let mut expected = [0u8; CAPACITY];
    expected[..6].copy_from_slice(&[0x01, 0x04, 0xAA, 0xBB, 0xCC, 0xDD]);
    assert_eq!(tlv_collection.as_bytes(), &expected);
}

#[test]
fn new_from_str_errors() {
    assert_eq!(
        TlvCollection::<4>::new_from_str("0104AABBCCDD").unwrap_err(),
        TwineTlvError::BufferMaxLength
    );
    assert_eq!(
        TlvCollection::<8>::new_from_str("0104AABBC").unwrap_err(),
        TwineTlvError::HexError
    );
    assert_eq!(
        TlvCollection::<8>::new_from_str("01zz").unwrap_err(),
        TwineTlvError::HexError
    );
}

#[test]
fn push_exactly_fills_capacity() {
    let mut tlv_collection = TlvCollection::<12>::default();
    tlv_collection.push(TestTlvData::new([1, 2, 3, 4])).unwrap();
    assert_eq!(tlv_collection.push(TestTlvData::new([5, 6, 7, 8])), Ok(6));
    assert_eq!(tlv_collection.len(), 12);
    let before = *tlv_collection.as_bytes().first().unwrap();
    assert_eq!(
        tlv_collection.push(TestTlvDataTypeZero::new([9])),
        Err(TwineTlvError::BufferMaxLength)
    );
    assert_eq!(*tlv_collection.as_bytes().first().unwrap(), before);
}

#[test]
fn push_extended_value_needs_four_header_bytes() {
    let mut tlv_collection = TlvCollection::<259>::default();
    assert_eq!(
        tlv_collection.push(TestTlvExtendedDataType::new([0x11; 256])),
        Err(TwineTlvError::BufferMaxLength)
    );
    let mut tlv_collection = TlvCollection::<260>::default();
    assert_eq!(tlv_collection.push(TestTlvExtendedDataType::new([0x11; 256])), Ok(260));
    assert_eq!(&tlv_collection.as_bytes()[..4], &[0x02, 0xFF, 0x01, 0x00]);
    assert_eq!(tlv_collection.len(), 260);
}

#[test]
fn remove_keeps_other_records_in_order() {
    let mut tlv_collection = TlvCollection::<24>::default();
    tlv_collection.push(TestTlvDataTypeZero::new([7])).unwrap();
    tlv_collection.push(TestTlvData::new([1, 2, 3, 4])).unwrap();
    tlv_collection
        .push(variable(&[9, 9]))
        .unwrap();
    tlv_collection.remove::<TestTlvData>();
    assert_eq!(tlv_collection.count(), 2);
    assert!(tlv_collection.find_tlv(TestTlvData::TLV_TYPE).is_none());
    assert_eq!(tlv_collection.find_tlv(0x00), Some(&[0x00, 0x01, 0x07][..]));
    assert_eq!(tlv_collection.find_tlv(0x03), Some(&[0x03, 0x02, 0x09, 0x09][..]));
    assert_eq!(tlv_collection.len(), 7);
    assert!(tlv_collection.as_bytes()[7..].iter().all(|b| *b == 0));
}

#[test]
fn remove_absent_type_changes_nothing() {
    let tlv_data = [0x02, 0x02, 0xAA, 0xAA, 0, 0, 0, 0];
    let mut tlv_collection = TlvCollection::<8>::new_from_static(tlv_data);
    tlv_collection.remove::<TestTlvData>();
    assert_eq!(tlv_collection.as_bytes(), &tlv_data);
}

#[test]
fn replace_constant_keeps_offset_and_length() {
    let mut tlv_collection = TlvCollection::<20>::default();
    tlv_collection.push(TestTlvData::new([1, 2, 3, 4])).unwrap();
    tlv_collection.push(TestTlvDataTypeZero::new([5])).unwrap();
    let len = tlv_collection.len();
    tlv_collection.replace(TestTlvData::new([9, 8, 7, 6])).unwrap();
    assert_eq!(tlv_collection.len(), len);
    assert_eq!(
        TlvCollection::<20>::find_tlv_with_type(0x01, tlv_collection.as_bytes()),
        Some(0..6)
    );
    assert_eq!(tlv_collection.decode_type_unchecked::<TestTlvData>(), Some(TestTlvData::new([9, 8, 7, 6])));
}

#[test]
fn replace_variable_moves_record_to_end() {
    let mut tlv_collection = TlvCollection::<20>::default();
    tlv_collection
        .push(variable(&[1]))
        .unwrap();
    tlv_collection.push(TestTlvDataTypeZero::new([5])).unwrap();
    tlv_collection
        .replace(variable(&[2, 3]))
        .unwrap();
    assert_eq!(
        &tlv_collection.as_bytes()[..7],
        &[0x00, 0x01, 0x05, 0x03, 0x02, 0x02, 0x03]
    );
    assert_eq!(
        TlvCollection::<20>::find_tlv_with_type(0x03, tlv_collection.as_bytes()),
        Some(3..7)
    );
}

#[test]
fn replace_absent_type_is_a_no_op() {
    let mut tlv_collection = TlvCollection::<8>::default();
    assert_eq!(tlv_collection.replace(TestTlvData::new([1, 2, 3, 4])), Ok(()));
    assert_eq!(tlv_collection.len(), 0);
}

#[test]
fn zero_length_record_reads_as_end_of_data() {
    let tlv_data = [0x05, 0x00, 0x01, 0x01, 0xAA, 0, 0, 0];
    let tlv_collection = TlvCollection::<8>::new_from_static(tlv_data);
    assert_eq!(tlv_collection.len(), 0);
    assert_eq!(tlv_collection.count(), 0);
    assert!(!tlv_collection.contains_tlv(0x05));
    assert!(!tlv_collection.contains_tlv(0x01));
}

#[test]
fn peek_and_next_position() {
    let buffer = [0x02, 0xFF, 0x01, 0x00];
    assert_eq!(TlvCollection::<4>::peek_tlv_len(&buffer, 0), 256);
    assert_eq!(TlvCollection::<4>::next_tlv_position(&buffer, 0), 260);
    let buffer = [0x02, 0x03, 0, 0, 0];
    assert_eq!(TlvCollection::<5>::peek_tlv_len(&buffer, 0), 3);
    assert_eq!(TlvCollection::<5>::next_tlv_position(&buffer, 0), 5);
    assert_eq!(TlvCollection::<5>::find_buffer_len(&buffer), 5);
}
