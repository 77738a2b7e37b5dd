use fuchsia_api::mask::{circlize_frame, lies_outside};
use fuchsia_api::pixels::PixelBuffer;

fn filled(n: u32, channel: u8) -> PixelBuffer {
    let bytes = vec![channel; (4 * n * n) as usize];
    PixelBuffer::from_raw(n, n, bytes).unwrap()
}

fn expected_outside(x: u32, y: u32, n: u32) -> bool {
    let cx = x as i64 - (n / 2) as i64;
    let cy = (n / 2) as i64 - y as i64;
    4 * (cx * cx + cy * cy) > (n as i64) * (n as i64)
}

fn check_mask(n: u32) {
    let mut img = filled(n, 200);
    circlize_frame(&mut img, n);
    assert_eq!(img.dimensions(), (n, n));
    for y in 0..n {
        for x in 0..n {
            let px = img.get_pixel(x, y);
            assert_eq!(px[0], 200);
            assert_eq!(px[1], 200);
            assert_eq!(px[2], 200);
            if expected_outside(x, y, n) {
                assert_eq!(px[3], 0);
            } else {
                assert_eq!(px[3], 200);
            }
        }
    }
}

#[test]
fn lies_outside_on_a_square_of_four() {
    assert!(lies_outside(0, 0, 4));
    assert!(!lies_outside(0, 2, 4));
    assert!(!lies_outside(2, 0, 4));
    assert!(!lies_outside(2, 2, 4));
    assert!(!lies_outside(1, 1, 4));
    assert!(lies_outside(0, 3, 4));
    assert!(!lies_outside(3, 3, 4));
    assert!(!lies_outside(3, 1, 4));
}

#[test]
fn lies_outside_on_a_square_of_five() {
    assert!(lies_outside(0, 0, 5));
    assert!(lies_outside(4, 4, 5));
    assert!(lies_outside(0, 4, 5));
    assert!(lies_outside(4, 0, 5));
    assert!(!lies_outside(0, 2, 5));
    assert!(!lies_outside(4, 2, 5));
    assert!(!lies_outside(2, 4, 5));
    assert!(!lies_outside(0, 1, 5));
    assert!(!lies_outside(1, 0, 5));
    assert!(!lies_outside(3, 4, 5));
    assert!(!lies_outside(1, 1, 5));
}

#[test]
fn mask_of_four_by_four_clears_the_rim_of_two_sides() {
    let mut img = filled(4, 255);
    circlize_frame(&mut img, 4);
    let mut cleared = Vec::new();
    for y in 0..4 {
        for x in 0..4 {
            if img.get_pixel(x, y)[3] == 0 {
                cleared.push((x, y));
            }
        }
    }
    assert_eq!(cleared, vec![(0, 0), (1, 0), (3, 0), (0, 1), (0, 3)]);
}

#[test]
fn mask_holds_for_even_sides() {
    check_mask(2);
    check_mask(8);
    check_mask(64);
}

#[test]
fn mask_holds_for_odd_sides() {
    check_mask(1);
    check_mask(3);
    check_mask(9);
    check_mask(33);
}

#[test]
fn mask_of_an_empty_image_is_empty() {
    let mut img = filled(0, 0);
    circlize_frame(&mut img, 0);
    assert_eq!(img.dimensions(), (0, 0));
    assert!(img.into_raw().is_empty());
}

#[test]
fn mask_keeps_what_lies_inside() {
    let mut bytes = Vec::new();
    for i in 0..(4 * 6 * 6) {
        bytes.push((i % 251) as u8 + 1);
    }
    let before = bytes.clone();
    let mut img = PixelBuffer::from_raw(6, 6, bytes).unwrap();
    circlize_frame(&mut img, 6);
    let after = img.into_raw();
    for y in 0..6u32 {
        for x in 0..6u32 {
            let at = (4 * (y * 6 + x)) as usize;
            assert_eq!(after[at..at + 3], before[at..at + 3]);
            if expected_outside(x, y, 6) {
                assert_eq!(after[at + 3], 0);
            } else {
                assert_eq!(after[at + 3], before[at + 3]);
            }
        }
    }
}

#[test]
fn mask_twice_is_mask_once() {
    for n in [4u32, 7, 10] {
        let mut img = filled(n, 90);
        circlize_frame(&mut img, n);
        let once = img.as_raw().clone();
        circlize_frame(&mut img, n);
        assert_eq!(img.as_raw(), &once);
    }
}

#[test]
fn circlize_frame_is_reexported_at_the_root() {
    let mut img = filled(4, 255);
    fuchsia_api::circlize_frame(&mut img, 4);
    assert_eq!(img.get_pixel(0, 0), [255, 255, 255, 0]);
    assert_eq!(img.get_pixel(1, 1), [255, 255, 255, 255]);
}

#[test]
fn mask_of_five_by_five_clears_the_four_corners() {
    let mut img = filled(5, 255);
    circlize_frame(&mut img, 5);
    let mut cleared = Vec::new();
    for y in 0..5 {
        for x in 0..5 {
            if img.get_pixel(x, y)[3] == 0 {
                cleared.push((x, y));
            }
        }
    }
    assert_eq!(cleared, vec![(0, 0), (4, 0), (0, 4), (4, 4)]);
}

#[test]
fn the_radius_is_half_the_side_and_not_rounded() {
    assert!(!lies_outside(0, 1, 5));
    assert!(!lies_outside(0, 0, 3));
    assert!(lies_outside(0, 0, 7));
    assert!(!lies_outside(1, 1, 7));
    assert!(!lies_outside(0, 2, 7));
    assert!(lies_outside(0, 1, 7));
    assert!(!lies_outside(0, 0, 1));
}
