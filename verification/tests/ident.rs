use muzanci_transport::ident::Uuid;

#[test]
fn nil_is_all_zero() {
    assert!(Uuid::nil().is_nil());
    assert_eq!(Uuid::nil().value, 0);
    assert!(!Uuid { value: 1 }.is_nil());
    assert_eq!(Uuid::nil().to_string(), "00000000-0000-0000-0000-000000000000");
}

#[test]
fn hyphenated_form_is_lower_case() {
    let id = Uuid { value: 0xA1A2A3A4_B1B2_C1C2_D1D2_D3D4D5D6D7D8 };
    assert_eq!(id.to_string(), "a1a2a3a4-b1b2-c1c2-d1d2-d3d4d5d6d7d8");
}

#[test]
fn bytes_are_most_significant_first() {
    let id = Uuid { value: 0x000102030405060708090A0B0C0D0E0F };
    let bytes = id.as_bytes();
    assert_eq!(bytes, [0, 1, 2, 3, 4, 5, 6, 7, 8, 9, 10, 11, 12, 13, 14, 15]);
    assert_eq!(Uuid::from_slice(&bytes).unwrap(), id);
}

#[test]
fn from_slice_takes_sixteen_bytes_only() {
    assert!(Uuid::from_slice(&[0u8; 15]).is_err());
    assert!(Uuid::from_slice(&[0u8; 17]).is_err());
    assert!(Uuid::from_slice(&[]).is_err());
    let mut bytes = [0u8; 16];
    bytes[0] = 0x80;
    assert_eq!(Uuid::from_slice(&bytes).unwrap().value, 1u128 << 127);
}

#[test]
fn fresh_identifiers_are_version_seven() {
    let first = Uuid::now_v7();
    let second = Uuid::now_v7();
    assert!(!first.is_nil());
    assert_eq!(first.value >> 76 & 0xF, 7);
    assert_eq!(first.value >> 62 & 3, 2);
    assert_ne!(first, second);
    assert_eq!(&first.to_string()[14..15], "7");
}
