//! Tests of layer accounting, render-target dimensions, and readback
//! stride arithmetic.

use vello_bench::renderer::{align_to, strip_row_padding, LayerStack, RenderTarget};

#[test]
fn balanced_layers_validate() {
    let mut s = LayerStack::new();
    s.push_layer();
    s.push_layer();
    s.pop_layer();
    s.pop_layer();
    assert!(s.check_balanced().is_ok());
}

#[test]
fn one_extra_push_is_detected() {
    let mut s = LayerStack::new();
    s.push_layer();
    s.push_layer();
    s.pop_layer();
    assert_eq!(s.check_balanced(), Err(1));
    assert_eq!(s.depth(), 1);
}

#[test]
fn resize_leaves_exactly_the_new_dimensions() {
    let mut t = RenderTarget::new(1024, 768);
    assert_eq!(t.readback_len(), 4 * 1024 * 768);
    t.configure(640, 480);
    assert_eq!(t.width(), 640);
    assert_eq!(t.height(), 480);
    assert_eq!(t.readback_len(), 4 * 640 * 480);
    t.configure(1, 1);
    assert_eq!(t.readback_len(), 4);
}

#[test]
fn row_alignment_rounds_up_to_256() {
    assert_eq!(align_to(4096, 256), 4096);
    assert_eq!(align_to(4097, 256), 4352);
    assert_eq!(align_to(1, 256), 256);
    assert_eq!(align_to(0, 256), 0);
    let t = RenderTarget::new(1024, 768);
    assert_eq!(t.padded_bytes_per_row(), 4096);
    let t = RenderTarget::new(1, 1);
    assert_eq!(t.padded_bytes_per_row(), 256);
    let t = RenderTarget::new(3, 1);
    assert_eq!(t.padded_bytes_per_row(), 256);
}

#[test]
fn stripping_padding_keeps_each_rows_pixels() {
    // Two rows of two pixels, padded to 16 bytes per row.
    let mut data = Vec::new();
    for row in 0..2u8 {
        for b in 0..8u8 {
            data.push(10 * row + b);
        }
        for _ in 8..16 {
            data.push(0xEE);
        }
    }
    let out = strip_row_padding(&data, 2, 2, 16);
    assert_eq!(
        out,
        vec![0, 1, 2, 3, 4, 5, 6, 7, 10, 11, 12, 13, 14, 15, 16, 17]
    );
}

#[test]
fn stripping_no_padding_is_identity() {
    let data: Vec<u8> = (0..24).collect();
    let out = strip_row_padding(&data, 2, 3, 8);
    assert_eq!(out, data);
}
