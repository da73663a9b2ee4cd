use kamera::cycle::next_device_index;

#[test]
fn successor_wraps_around_the_enumeration() {
    let ids = vec![10u64, 20, 30];
    assert_eq!(next_device_index(&ids, 10), Some(1));
    assert_eq!(next_device_index(&ids, 20), Some(2));
    assert_eq!(next_device_index(&ids, 30), Some(0));
}

#[test]
fn unknown_identity_is_a_noop() {
    let ids = vec![10u64, 20, 30];
    assert_eq!(next_device_index(&ids, 99), None);
}

#[test]
fn single_device_swap_is_a_noop() {
    let ids = vec![7u64];
    assert_eq!(next_device_index(&ids, 7), None);
}

#[test]
fn no_devices_is_a_noop() {
    let ids: Vec<u64> = Vec::new();
    assert_eq!(next_device_index(&ids, 7), None);
}
