use fuchsia_api::frames::{Delay, PlacedFrame};
use fuchsia_api::pixels::PixelBuffer;

#[test]
fn from_raw_wants_four_bytes_per_pixel() {
    assert!(PixelBuffer::from_raw(2, 3, vec![0; 24]).is_some());
    assert!(PixelBuffer::from_raw(2, 3, vec![0; 23]).is_none());
    assert!(PixelBuffer::from_raw(2, 3, vec![0; 25]).is_none());
    assert!(PixelBuffer::from_raw(0, 3, vec![]).is_some());
    assert!(PixelBuffer::from_raw(0, 0, vec![0; 4]).is_none());
    assert!(PixelBuffer::from_raw(u32::MAX, u32::MAX, vec![0; 4]).is_none());
}

#[test]
fn pixels_lie_row_by_row() {
    let bytes: Vec<u8> = (0..24).collect();
    let img = PixelBuffer::from_raw(3, 2, bytes.clone()).unwrap();
    assert_eq!(img.width(), 3);
    assert_eq!(img.height(), 2);
    assert_eq!(img.dimensions(), (3, 2));
    assert_eq!(img.get_pixel(0, 0), [0, 1, 2, 3]);
    assert_eq!(img.get_pixel(2, 0), [8, 9, 10, 11]);
    assert_eq!(img.get_pixel(0, 1), [12, 13, 14, 15]);
    assert_eq!(img.get_pixel(2, 1), [20, 21, 22, 23]);
    assert_eq!(img.as_raw(), &bytes);
    assert_eq!(img.into_raw(), bytes);
}

#[test]
fn set_alpha_touches_one_byte() {
    let bytes: Vec<u8> = (0..24).collect();
    let mut img = PixelBuffer::from_raw(3, 2, bytes.clone()).unwrap();
    img.set_alpha(1, 1, 99);
    let mut expected = bytes;
    expected[19] = 99;
    assert_eq!(img.into_raw(), expected);
}

#[test]
fn delay_keeps_its_fraction() {
    let d = Delay::from_numer_denom_ms(30, 4);
    assert_eq!(d.numer_denom_ms(), (30, 4));
    assert_eq!(d, Delay::from_numer_denom_ms(30, 4));
    assert_ne!(d, Delay::from_numer_denom_ms(15, 2));
}

#[test]
fn frame_keeps_its_parts() {
    let img = PixelBuffer::from_raw(1, 1, vec![1, 2, 3, 4]).unwrap();
    let f = PlacedFrame::from_parts(img, 7, 9, Delay::from_numer_denom_ms(100, 1));
    assert_eq!(f.left(), 7);
    assert_eq!(f.top(), 9);
    assert_eq!(f.delay().numer_denom_ms(), (100, 1));
    assert_eq!(f.buffer().get_pixel(0, 0), [1, 2, 3, 4]);
    assert_eq!(f.into_buffer().into_raw(), vec![1, 2, 3, 4]);
}

#[test]
fn new_frame_sits_at_the_origin() {
    let img = PixelBuffer::from_raw(1, 1, vec![1, 2, 3, 4]).unwrap();
    let f = PlacedFrame::new(img);
    assert_eq!((f.left(), f.top()), (0, 0));
    assert_eq!(f.delay().numer_denom_ms(), (0, 1));
}
