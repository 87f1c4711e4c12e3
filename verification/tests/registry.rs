use shtc3::registry::Registry;

#[test]
fn handles_are_issued_in_order() {
    let mut registry = Registry::new();
    assert_eq!(registry.create_device(), 0);
    assert_eq!(registry.create_device(), 1);
    assert_eq!(registry.create_device(), 2);
}

#[test]
fn unknown_handle_is_a_fault_for_every_event() {
    let mut registry = Registry::new();
    let handle = registry.create_device();
    assert_eq!(registry.on_i2c_connect(handle + 1, 0x70, true), None);
    assert_eq!(registry.on_i2c_read(handle + 1), None);
    assert_eq!(registry.on_i2c_write(handle + 1, 0x66), None);
    assert_eq!(registry.on_i2c_disconnect(handle + 1, 0x00), None);
}

#[test]
fn unknown_handle_in_empty_registry_is_a_fault() {
    let mut registry = Registry::new();
    assert_eq!(registry.on_i2c_read(0), None);
}

#[test]
fn full_product_id_transaction_through_registry() {
    let mut registry = Registry::new();
    let handle = registry.create_device();
    assert_eq!(registry.on_i2c_connect(handle, 0x70, false), Some(true));
    assert_eq!(registry.on_i2c_write(handle, 0xC8), Some(true));
    assert_eq!(registry.on_i2c_disconnect(handle, 0x00), Some(()));
    assert_eq!(registry.on_i2c_connect(handle, 0x70, true), Some(true));
    assert_eq!(registry.on_i2c_read(handle), Some(0x08));
    assert_eq!(registry.on_i2c_read(handle), Some(0x87));
    assert_eq!(registry.on_i2c_read(handle), Some(0x5B));
    assert_eq!(registry.on_i2c_disconnect(handle, 0x00), Some(()));
    // A stray read after the completed cycle recovers with the sentinel.
    assert_eq!(registry.on_i2c_read(handle), Some(0x00));
}

#[test]
fn full_measurement_transaction_through_registry() {
    let mut registry = Registry::new();
    let handle = registry.create_device();
    assert_eq!(registry.on_i2c_connect(handle, 0x70, false), Some(true));
    assert_eq!(registry.on_i2c_write(handle, 0x66), Some(true));
    assert_eq!(registry.on_i2c_connect(handle, 0x70, true), Some(true));
    let mut bytes = Vec::new();
    for _ in 0..6 {
        bytes.push(registry.on_i2c_read(handle).unwrap());
    }
    assert_eq!(bytes, vec![0x65, 0xD5, 0x52, 0x5D, 0xD1, 0x13]);
}

#[test]
fn devices_keep_independent_state() {
    let mut registry = Registry::new();
    let first = registry.create_device();
    let second = registry.create_device();
    assert_eq!(registry.on_i2c_connect(first, 0x70, false), Some(true));
    assert_eq!(registry.on_i2c_write(first, 0xC8), Some(true));
    assert_eq!(registry.on_i2c_connect(first, 0x70, true), Some(true));
    assert_eq!(registry.on_i2c_connect(second, 0x70, true), Some(true));
    // The second device has no register selected, so its read recovers.
    assert_eq!(registry.on_i2c_read(second), Some(0x00));
    // The first device still answers its own Product ID response.
    assert_eq!(registry.on_i2c_read(first), Some(0x08));
}
