//! Tests of the image store and the decode path.

use vello_bench::images::{decode_image, ImageStore};
use vello_bench::pixels::PixelBuf;

#[test]
fn upload_then_paint_reproduces_the_source() {
    // The concrete round-trip scenario: a 2-by-2 opaque-red image painted
    // at the origin of a 2-by-2 canvas yields four red pixels.
    let red = vec![255u8, 0, 0, 255].repeat(4);
    let image = PixelBuf::from_parts(2, 2, red.clone()).unwrap();
    let mut store = ImageStore::new();
    let handle = store.get_image_source(image);
    let mut canvas = PixelBuf::new(2, 2);
    store.paint_at_origin(handle, &mut canvas);
    assert_eq!(canvas.data(), &red);
    assert_eq!(canvas.width(), 2);
    assert_eq!(canvas.height(), 2);
}

#[test]
fn fetch_returns_the_uploaded_image() {
    let mut store = ImageStore::new();
    let a = store.get_image_source(PixelBuf::from_parts(1, 1, vec![1, 2, 3, 4]).unwrap());
    let b = store.get_image_source(PixelBuf::from_parts(1, 1, vec![5, 6, 7, 8]).unwrap());
    assert_eq!(store.fetch(a).data(), &vec![1, 2, 3, 4]);
    assert_eq!(store.fetch(b).data(), &vec![5, 6, 7, 8]);
}

#[test]
fn decoding_a_png_recovers_its_pixels() {
    let img = image::RgbaImage::from_pixel(2, 2, image::Rgba([255, 0, 0, 255]));
    let mut bytes: Vec<u8> = Vec::new();
    img.write_to(&mut std::io::Cursor::new(&mut bytes), image::ImageFormat::Png)
        .unwrap();
    let decoded = decode_image(&bytes).expect("valid png");
    assert_eq!(decoded.width(), 2);
    assert_eq!(decoded.height(), 2);
    assert_eq!(decoded.data(), &vec![255u8, 0, 0, 255].repeat(4));
}

#[test]
fn decoding_garbage_fails() {
    assert!(decode_image(&[0u8, 1, 2, 3]).is_none());
    assert!(decode_image(&[]).is_none());
}
