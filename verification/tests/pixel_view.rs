use kamera::camera::Camera;
use kamera::frame::Frame;

#[test]
fn packs_bytes_least_significant_first() {
    let frame = Frame::from_buffer(1, 1, vec![1u8, 2, 3, 4]).expect("aligned buffer");
    let data = frame.data();
    assert_eq!(data.data_u8(), &[1u8, 2, 3, 4][..]);
    assert_eq!(data.data_u32(), &[0x0403_0201u32][..]);
}

#[test]
fn rejects_buffer_not_matching_geometry() {
    assert!(Frame::from_buffer(2, 2, vec![0u8; 15]).is_none());
    assert!(Frame::from_buffer(2, 2, vec![0u8; 17]).is_none());
    assert!(Frame::from_buffer(2, 2, vec![0u8; 16]).is_some());
    assert!(Frame::from_buffer(2, 3, vec![0u8; 16]).is_none());
}

#[test]
fn zero_pixel_geometry_is_valid() {
    let frame = Frame::from_buffer(0, 5, Vec::new()).expect("zero-pixel buffer");
    assert_eq!(frame.size_u32(), (0, 5));
    assert_eq!(frame.data().data_u8().len(), 0);
    assert_eq!(frame.data().data_u32().len(), 0);
}

#[test]
fn views_agree_with_geometry() {
    let mut camera = Camera::new_default_device();
    camera.start();
    let frame = camera.wait_for_frame().expect("a frame while running");
    let (width, height) = frame.size_u32();
    assert!(width > 0 && height > 0);
    let data = frame.data();
    assert_eq!(data.data_u8().len(), 4 * data.data_u32().len());
    assert_eq!(data.data_u8().len(), (width * height * 4) as usize);
    assert_eq!(data.data_u32().len(), (width * height) as usize);
}

#[test]
fn delivered_frames_carry_the_advancing_pattern() {
    let mut camera = Camera::new_default_device();
    camera.start();
    let first = camera.wait_for_frame().expect("first frame");
    let data = first.data();
    assert_eq!(data.data_u8()[0], 1);
    assert_eq!(data.data_u8()[3], 255);
    assert_eq!(data.data_u32()[0], 0xFF01_0101u32);
    let second = camera.wait_for_frame().expect("second frame");
    assert_eq!(second.data().data_u8()[0], 2);
    assert_eq!(second.data().data_u32()[0], 0xFF02_0202u32);
}
