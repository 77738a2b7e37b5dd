use fuchsia_api::editor::{EditError, Editor};
use fuchsia_api::format::{is_animated_webp, DetectedFormat};
use fuchsia_api::frames::PlacedFrame;
use fuchsia_api::pixels::PixelBuffer;
use fuchsia_api::transform::{Circle, Resize};
use fuchsia_api::webp::encode_webp;
use fuchsia_api::{circlize_img, resize_img};
use image::codecs::webp::WebPDecoder;
use image::{AnimationDecoder, ImageFormat};
use std::io::Cursor;

const TINY_STILL: [u8; 34] = [
    0x52, 0x49, 0x46, 0x46, 0x1a, 0x00, 0x00, 0x00, 0x57, 0x45, 0x42, 0x50, 0x56, 0x50, 0x38, 0x4c,
    0x0d, 0x00, 0x00, 0x00, 0x2f, 0x00, 0x00, 0x00, 0x10, 0x07, 0x10, 0x11, 0x11, 0x88, 0x88, 0xfe,
    0x07, 0x00,
];

fn animation(frames: u32, width: u32, height: u32) -> Vec<u8> {
    let mut encoder = webp_animation::Encoder::new((width, height)).unwrap();
    for i in 0..frames {
        let shade = (i * 20 % 250) as u8;
        let mut data = Vec::new();
        for _ in 0..(width * height) {
            data.extend_from_slice(&[shade, 255 - shade, 7, 255]);
        }
        encoder.add_frame(&data, (i * 40) as i32).unwrap();
    }
    encoder.finalize((frames * 40) as i32).unwrap().to_vec()
}

fn frames_of(bytes: &[u8]) -> Vec<image::Frame> {
    let decoder = WebPDecoder::new(Cursor::new(bytes)).unwrap();
    assert!(decoder.has_animation());
    decoder.into_frames().collect_frames().unwrap()
}

fn frame(width: u32, height: u32, shade: u8) -> PlacedFrame {
    PlacedFrame::new(PixelBuffer::from_raw(width, height, vec![shade; (4 * width * height) as usize]).unwrap())
}

#[test]
fn a_still_webp_comes_back_as_png() {
    let (bytes, fmt, dims) = resize_img(&TINY_STILL, 3, 2, 250, false).unwrap();
    assert_eq!(fmt, DetectedFormat::WebP);
    assert_eq!(dims, (3, 2));
    assert_eq!(image::guess_format(&bytes).unwrap(), ImageFormat::Png);
    assert_eq!(image::load_from_memory(&bytes).unwrap().to_rgba8().dimensions(), (3, 2));
}

#[test]
fn an_animated_webp_stays_animated() {
    let input = animation(4, 8, 6);
    let (bytes, fmt, dims) = resize_img(&input, 4, 3, 250, false).unwrap();
    assert_eq!(fmt, DetectedFormat::WebP);
    assert_eq!(dims, (4, 3));
    assert_eq!(image::guess_format(&bytes).unwrap(), ImageFormat::WebP);
    let frames = frames_of(&bytes);
    assert_eq!(frames.len(), 4);
    for f in &frames {
        assert_eq!(f.buffer().dimensions(), (4, 3));
    }
}

#[test]
fn an_animated_webp_stops_at_the_frame_limit() {
    let input = animation(12, 4, 4);
    assert_eq!(frames_of(&input).len(), 12);
    let (bytes, _, _) = resize_img(&input, 4, 4, 5, false).unwrap();
    assert_eq!(frames_of(&bytes).len(), 5);
    let (bytes, _, _) = resize_img(&input, 2, 2, 12, true).unwrap();
    assert_eq!(frames_of(&bytes).len(), 12);
    let (bytes, _, dims) = circlize_img(&input, 6, 2).unwrap();
    assert_eq!(dims, (6, 6));
    assert_eq!(frames_of(&bytes).len(), 2);
}

#[test]
fn a_broken_webp_container_is_a_decode_failure() {
    assert_eq!(resize_img(b"RIFF\x04\x00\x00\x00WEBP", 4, 4, 250, false), Err(EditError::Decode));
    assert_eq!(resize_img(b"RIFF\x04\x00\x00\x00WAVE", 4, 4, 250, false), Err(EditError::Decode));
    let input = animation(3, 4, 4);
    assert_eq!(resize_img(&input[..20], 4, 4, 250, false), Err(EditError::Decode));
}

#[test]
fn encode_webp_writes_every_frame_that_fits() {
    let frames = vec![frame(4, 4, 10), frame(4, 4, 20), frame(4, 4, 30)];
    let (bytes, skipped) = encode_webp(&frames).unwrap();
    assert!(skipped.is_empty());
    let out = frames_of(&bytes);
    assert_eq!(out.len(), 3);
    assert_eq!(out[0].buffer().dimensions(), (4, 4));
}

#[test]
fn encode_webp_skips_frames_of_another_size() {
    let frames = vec![frame(4, 4, 10), frame(2, 2, 20), frame(4, 4, 30), frame(5, 4, 40), frame(4, 4, 50)];
    let (bytes, skipped) = encode_webp(&frames).unwrap();
    assert_eq!(skipped, vec![1, 3]);
    assert_eq!(frames_of(&bytes).len(), 3);
}

#[test]
fn encode_webp_needs_a_frame() {
    assert_eq!(encode_webp(&Vec::new()), Err(EditError::Encode));
}

#[test]
fn encode_webp_needs_a_canvas_with_area() {
    assert_eq!(encode_webp(&vec![frame(0, 0, 0)]), Err(EditError::Encode));
    assert_eq!(encode_webp(&vec![frame(0, 3, 0), frame(1, 1, 0)]), Err(EditError::Encode));
}

#[test]
fn encode_webp_refuses_a_canvas_beyond_the_format() {
    assert_eq!(encode_webp(&vec![frame(16384, 1, 0)]), Err(EditError::Encode));
    assert_eq!(encode_webp(&vec![frame(1, 16384, 0)]), Err(EditError::Encode));
}

#[test]
fn an_animated_webp_without_area_is_an_encode_failure() {
    let input = animation(2, 4, 4);
    assert_eq!(resize_img(&input, 0, 0, 250, false), Err(EditError::Encode));
    assert_eq!(resize_img(&input, 20_000, 1, 250, false), Err(EditError::Encode));
}

#[test]
fn a_still_webp_ignores_the_frame_limit() {
    let (_, fmt, dims) = resize_img(&TINY_STILL, 5, 4, 0, false).unwrap();
    assert_eq!(fmt, DetectedFormat::WebP);
    assert_eq!(dims, (5, 4));
}

#[test]
fn a_frame_limit_of_nothing_admits_no_frame_of_a_webp() {
    let input = animation(3, 4, 4);
    assert_eq!(resize_img(&input, 4, 4, 0, false), Err(EditError::Decode));
}

#[test]
fn an_animated_webp_keeps_its_frames_in_order() {
    let input = animation(5, 4, 4);
    let (bytes, _, _) = resize_img(&input, 4, 4, 3, false).unwrap();
    let out = frames_of(&bytes);
    assert_eq!(out.len(), 3);
    for (i, f) in out.iter().enumerate() {
        let shade = (i as u32 * 20) as i32;
        let px = f.buffer().get_pixel(2, 2);
        assert!((px[0] as i32 - shade).abs() <= 12);
        assert!((px[1] as i32 - (255 - shade)).abs() <= 12);
    }
}

#[test]
fn an_animated_webp_reports_the_frames_left_out() {
    let input = animation(4, 6, 6);
    let mut editor = Editor::new(None, 250);
    editor.set_buffer_processor(Circle { dim: 3 });
    let ((bytes, fmt, dims), left_out) = editor.process_reporting(&input).unwrap();
    assert_eq!((fmt, dims), (DetectedFormat::WebP, (3, 3)));
    assert_eq!(frames_of(&bytes).len(), 4);
    assert!(left_out.is_empty());
    let mut editor = Editor::new(None, 2);
    editor.set_buffer_processor(Resize { width: 2, height: 5, keep_aspect: false });
    let ((bytes, _, dims), left_out) = editor.process_reporting(&input).unwrap();
    assert_eq!(dims, (2, 5));
    assert_eq!(frames_of(&bytes).len(), 2);
    assert!(left_out.is_empty());
}

#[test]
fn encode_webp_lists_every_frame_it_leaves_out() {
    let frames = vec![frame(3, 3, 1), frame(3, 2, 2), frame(2, 3, 3), frame(1, 1, 4)];
    let (bytes, skipped) = encode_webp(&frames).unwrap();
    assert_eq!(skipped, vec![1, 2, 3]);
    assert_eq!(image::guess_format(&bytes).unwrap(), ImageFormat::WebP);
}

#[test]
fn animations_are_told_from_still_files() {
    assert!(!is_animated_webp(&TINY_STILL));
    assert!(is_animated_webp(&animation(2, 4, 4)));
    assert!(is_animated_webp(&animation(3, 2, 2)));
}

#[test]
fn a_webp_of_one_frame_is_a_still_image() {
    let input = animation(1, 4, 4);
    assert!(!is_animated_webp(&input));
    let (bytes, fmt, dims) = resize_img(&input, 2, 2, 250, false).unwrap();
    assert_eq!(fmt, DetectedFormat::WebP);
    assert_eq!(dims, (2, 2));
    assert_eq!(image::guess_format(&bytes).unwrap(), ImageFormat::Png);
}
