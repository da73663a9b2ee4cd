use kamera::camera::{Camera, Device};

const TEST_FRAMES: usize = 3;

#[test]
fn change_device() {
    let mut camera = Camera::new_default_device();
    camera.start();

    std::iter::from_fn(|| camera.wait_for_frame())
        .map(|s| println!("{s:?}"))
        .take(TEST_FRAMES)
        .count();

    camera.change_device();

    std::iter::from_fn(|| camera.wait_for_frame())
        .map(|s| println!("{s:?}"))
        .take(TEST_FRAMES)
        .count();
}

#[test]
fn enumerated_names_nonempty_and_stable() {
    let first = Device::list_all_devices();
    let second = Device::list_all_devices();
    assert!(!first.is_empty());
    assert_eq!(first.len(), second.len());
    for (a, b) in first.iter().zip(second.iter()) {
        assert!(!a.name().is_empty());
        assert_eq!(a.name(), b.name());
        assert_eq!(a.id(), b.id());
    }
}

#[test]
fn change_device_cycles_back() {
    let devices = Device::list_all_devices();
    let mut camera = Camera::new_default_device();
    let start_id = camera.device_id();
    for _ in 0..devices.len() {
        camera.change_device();
    }
    assert_eq!(camera.device_id(), start_id);
}

#[test]
fn change_device_moves_before_closing() {
    let mut camera = Camera::new_default_device();
    let start_id = camera.device_id();
    camera.change_device();
    assert_ne!(camera.device_id(), start_id);
    camera.change_device();
    assert_ne!(camera.device_id(), start_id);
    camera.change_device();
    assert_eq!(camera.device_id(), start_id);
}

#[test]
fn binding_keeps_the_chosen_device() {
    let mut devices = Device::list_all_devices();
    let chosen = devices.remove(1);
    let chosen_id = chosen.id();
    let camera = Camera::new_from_device(chosen);
    assert_eq!(camera.device_id(), chosen_id);
}

#[test]
fn no_frames_before_start() {
    let mut camera = Camera::new_default_device();
    assert!(camera.wait_for_frame().is_none());
}

#[test]
fn stop_releases_waiters() {
    let mut camera = Camera::new_default_device();
    camera.start();
    assert!(camera.wait_for_frame().is_some());
    camera.stop();
    assert!(camera.wait_for_frame().is_none());
    assert!(camera.wait_for_frame().is_none());
}

#[test]
fn three_waits_on_default_device() {
    let mut camera = Camera::new_default_device();
    camera.start();
    let mut delivered: usize = 0;
    for _ in 0..3 {
        match camera.wait_for_frame() {
            Some(frame) => {
                let (width, height) = frame.size_u32();
                assert!(width > 0 && height > 0);
                delivered += 1;
            }
            None => {}
        }
    }
    assert!(delivered >= 1);
}

#[test]
fn capture_across_device_swap() {
    let mut camera = Camera::new_default_device();
    camera.start();
    let before = camera.wait_for_frame().expect("a frame before the swap");
    camera.change_device();
    let after = camera.wait_for_frame().expect("the session keeps running across the swap");
    assert!(!before.data().data_u32().is_empty());
    assert!(!after.data().data_u32().is_empty());
}
