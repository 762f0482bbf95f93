use ir_recorder::uuid::{le_number, Uuid, CCCD_UUID, SERVICE_UUID};

#[test]
fn short_identifier_is_read_lowest_byte_first() {
    assert_eq!(Uuid::from_le_bytes(&[0x02, 0x29]), Some(Uuid::Uuid16(0x2902)));
    assert_eq!(Uuid::from_le_bytes(&CCCD_UUID.to_le_bytes()), Some(Uuid::Uuid16(CCCD_UUID)));
    assert_eq!(Uuid::from_le_bytes(&[0xFF, 0xFF]), Some(Uuid::Uuid16(0xFFFF)));
    assert_eq!(Uuid::from_le_bytes(&[0x00, 0x00]), Some(Uuid::Uuid16(0)));
}

#[test]
fn medium_identifier_is_read_lowest_byte_first() {
    assert_eq!(Uuid::from_le_bytes(&[0x78, 0x56, 0x34, 0x12]), Some(Uuid::Uuid32(0x1234_5678)));
    assert_eq!(Uuid::from_le_bytes(&[0xFF; 4]), Some(Uuid::Uuid32(u32::MAX)));
}

#[test]
fn full_identifier_is_read_lowest_byte_first() {
    assert_eq!(
        Uuid::from_le_bytes(&SERVICE_UUID.to_le_bytes()),
        Some(Uuid::Uuid128(0xad91b201734740479e173bed82d75f9d))
    );
    assert_eq!(Uuid::from_le_bytes(&[0xFF; 16]), Some(Uuid::Uuid128(u128::MAX)));
    let mut bytes = [0u8; 16];
    bytes[15] = 0x80;
    assert_eq!(Uuid::from_le_bytes(&bytes), Some(Uuid::Uuid128(1u128 << 127)));
}

#[test]
fn bytes_of_another_number_are_no_identifier() {
    assert_eq!(Uuid::from_le_bytes(&[]), None);
    assert_eq!(Uuid::from_le_bytes(&[1]), None);
    assert_eq!(Uuid::from_le_bytes(&[1, 2, 3]), None);
    assert_eq!(Uuid::from_le_bytes(&[0; 8]), None);
    assert_eq!(Uuid::from_le_bytes(&[0; 15]), None);
    assert_eq!(Uuid::from_le_bytes(&[0; 17]), None);
}

#[test]
fn number_of_bytes_counts_the_first_byte_lowest() {
    assert_eq!(le_number(&[]), 0);
    assert_eq!(le_number(&[7]), 7);
    assert_eq!(le_number(&[0x01, 0x02, 0x03]), 0x030201);
    assert_eq!(le_number(&[0; 16]), 0);
}
