//! Tests of pixel conversions and buffer comparison.

use vello_bench::pixels::{
    buffers_match_within, clone_bytes, premultiply, rgba_bytes_from_pixels, unpremultiply,
    PixelBuf, Rgba8,
};
use vello_bench::screenshot::ScreenshotResult;

#[test]
fn opaque_pixels_round_trip_through_premultiplication() {
    let p = Rgba8 { r: 200, g: 17, b: 0, a: 255 };
    assert_eq!(premultiply(p), p);
    assert_eq!(unpremultiply(premultiply(p)), p);
}

#[test]
fn premultiplication_scales_by_alpha() {
    let p = Rgba8 { r: 200, g: 100, b: 0, a: 128 };
    let q = premultiply(p);
    // 200 * 128 / 255 rounds to 100; 100 * 128 / 255 rounds to 50.
    assert_eq!(q, Rgba8 { r: 100, g: 50, b: 0, a: 128 });
    let back = unpremultiply(q);
    assert_eq!(back.a, 128);
    // Rounding loses at most one step per channel.
    assert!(back.r.abs_diff(p.r) <= 1);
    assert!(back.g.abs_diff(p.g) <= 1);
}

#[test]
fn transparent_pixels_unpremultiply_to_zero() {
    let q = unpremultiply(Rgba8 { r: 9, g: 9, b: 9, a: 0 });
    assert_eq!(q, Rgba8 { r: 0, g: 0, b: 0, a: 0 });
}

#[test]
fn pixels_flatten_in_rgba_order() {
    let pixels = vec![
        Rgba8 { r: 1, g: 2, b: 3, a: 4 },
        Rgba8 { r: 5, g: 6, b: 7, a: 8 },
    ];
    assert_eq!(rgba_bytes_from_pixels(&pixels), vec![1, 2, 3, 4, 5, 6, 7, 8]);
}

#[test]
fn buffer_comparison_respects_tolerance() {
    let a = vec![10u8, 20, 30];
    let b = vec![12u8, 18, 30];
    assert!(buffers_match_within(&a, &b, 2));
    assert!(!buffers_match_within(&a, &b, 1));
    assert!(buffers_match_within(&a, &a, 0));
    assert!(!buffers_match_within(&a, &vec![10u8, 20], 255));
}

#[test]
fn pixel_buffers_enforce_their_length() {
    let p = PixelBuf::new(3, 2);
    assert_eq!(p.width(), 3);
    assert_eq!(p.height(), 2);
    assert_eq!(p.data().len(), 24);
    assert!(p.data().iter().all(|&b| b == 0));
    assert!(PixelBuf::from_parts(2, 2, vec![0u8; 16]).is_some());
    assert!(PixelBuf::from_parts(2, 2, vec![0u8; 15]).is_none());
    let src = vec![7u8; 8];
    let q = PixelBuf::from_parts(1, 2, clone_bytes(&src)).unwrap();
    assert_eq!(q.data(), &src);
}

#[test]
fn screenshot_results_check_their_length() {
    let ok = ScreenshotResult::new(2, 1, vec![0u8; 8]).expect("fits");
    assert_eq!(ok.width, 2);
    assert_eq!(ok.height, 1);
    assert_eq!(ok.rgba.len(), 8);
    assert!(ScreenshotResult::new(2, 1, vec![0u8; 7]).is_none());
    assert!(ScreenshotResult::new(0, 0, Vec::new()).is_some());
}
