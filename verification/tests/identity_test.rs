use peripheral_manager::peripheral::{
    ble_uuid_from_u16, PeripheralIdentity, DEVICE_INFO_SERVICE_UUID, FIRMWARE_REVISION_UUID,
    HARDWARE_REVISION_UUID, PNP_ID_UUID, SERVICE_UUID, SOFTWARE_REVISION_UUID,
    WRITE_READ_NOTIFY_UUID,
};

#[test]
fn ble_identity_exact_value() {
    let native: [u8; 6] = [0x11, 0x22, 0x33, 0x44, 0x55, 0x66];
    let id = PeripheralIdentity::from_ble_native_id(&native);
    // The six native bytes fill the front of a big-endian 16-byte word and
    // the remaining ten bytes are zero.
    assert_eq!(id.value, 0x11223344556600000000000000000000u128);
}

#[test]
fn ble_identity_deterministic() {
    let native: [u8; 6] = [0xA0, 0x55, 0x00, 0xFF, 0x01, 0x7E];
    let first = PeripheralIdentity::from_ble_native_id(&native);
    let second = PeripheralIdentity::from_ble_native_id(&native);
    let third = PeripheralIdentity::from_ble_native_id(&[0xA0, 0x55, 0x00, 0xFF, 0x01, 0x7E]);
    assert_eq!(first, second);
    assert_eq!(first, third);
}

#[test]
fn ble_identity_distinguishes_inputs() {
    let a = PeripheralIdentity::from_ble_native_id(&[1, 0, 0, 0, 0, 0]);
    let b = PeripheralIdentity::from_ble_native_id(&[0, 0, 0, 0, 0, 1]);
    assert_ne!(a, b);
    assert_eq!(a.value, 0x01000000000000000000000000000000u128);
    assert_eq!(b.value, 0x00000000000100000000000000000000u128);
}

#[test]
fn short_uuid_expansion_matches_constants() {
    assert_eq!(ble_uuid_from_u16(0xFF00), SERVICE_UUID);
    assert_eq!(ble_uuid_from_u16(0xFF01), WRITE_READ_NOTIFY_UUID);
    assert_eq!(ble_uuid_from_u16(0x180A), DEVICE_INFO_SERVICE_UUID);
    assert_eq!(ble_uuid_from_u16(0x2A50), PNP_ID_UUID);
    assert_eq!(ble_uuid_from_u16(0x2A26), FIRMWARE_REVISION_UUID);
    assert_eq!(ble_uuid_from_u16(0x2A27), HARDWARE_REVISION_UUID);
    assert_eq!(ble_uuid_from_u16(0x2A28), SOFTWARE_REVISION_UUID);
}

#[test]
fn short_uuid_expansion_exact_form() {
    // 0000xxxx-0000-1000-8000-00805f9b34fb with xxxx = 2A19.
    assert_eq!(ble_uuid_from_u16(0x2A19), 0x00002A19_0000_1000_8000_00805F9B34FBu128);
}
