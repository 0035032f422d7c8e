//! Tests that drive the real CPU rasterizer and hold its pixel output to
//! the library's specified expectations.

use std::sync::Arc;

use vello_bench::filled_rects::{
    filled_rects_cell_bounds, filled_rects_cell_color, filled_rects_expected_pixel,
};
use vello_bench::pixels::buffers_match_within;
use vello_cpu::{Pixmap, RenderContext, Resources};
use vello_common::kurbo::Rect;
use vello_common::paint::{Image, ImageSource};
use vello_common::peniko::color::palette;
use vello_common::peniko::{ImageAlphaType, ImageSampler};
use vello_common::pixmap::PixelMetadata;

fn render_filled_rects_grid() -> Pixmap {
    let colors = [
        palette::css::RED,
        palette::css::GREEN,
        palette::css::BLUE,
        palette::css::YELLOW,
        palette::css::CYAN,
        palette::css::MAGENTA,
    ];
    let mut ctx = RenderContext::new(1024, 768);
    for row in 0..12u16 {
        for col in 0..16u16 {
            let idx = ((row * 16 + col) as usize) % colors.len();
            let (x0, y0, x1, y1) = filled_rects_cell_bounds(row, col);
            ctx.set_paint(colors[idx]);
            ctx.fill_rect(&Rect::new(
                f64::from(x0),
                f64::from(y0),
                f64::from(x1),
                f64::from(y1),
            ));
        }
    }
    ctx.flush();
    let mut pixmap = Pixmap::new(1024, 768);
    let mut resources = Resources::new();
    ctx.render(pixmap.as_mut(), &mut resources);
    pixmap
}

#[test]
fn rasterized_grid_matches_the_specified_cell_colors() {
    let pixmap = render_filled_rects_grid();
    // Sample the center of every cell: away from cell edges there is no
    // anti-aliasing, so the rasterized color must match the specified
    // palette rotation within a small blend/rounding tolerance.
    for row in 0..12u16 {
        for col in 0..16u16 {
            let expected = filled_rects_cell_color(row, col);
            let (x0, y0, _, _) = filled_rects_cell_bounds(row, col);
            let sample = pixmap.sample(x0 + 32, y0 + 32);
            let got = vec![sample.r, sample.g, sample.b, sample.a];
            let want = vec![expected.r, expected.g, expected.b, expected.a];
            assert!(
                buffers_match_within(&got, &want, 1),
                "cell ({row},{col}): got {got:?}, want {want:?}"
            );
        }
    }
}

#[test]
fn rasterized_pixels_match_the_expected_pixel_function() {
    let pixmap = render_filled_rects_grid();
    for (x, y) in [(32u16, 32u16), (100, 500), (1000, 700), (670, 90)] {
        let expected = filled_rects_expected_pixel(x, y);
        let sample = pixmap.sample(x, y);
        assert!(sample.r.abs_diff(expected.r) <= 1, "pixel ({x},{y})");
        assert!(sample.g.abs_diff(expected.g) <= 1, "pixel ({x},{y})");
        assert!(sample.b.abs_diff(expected.b) <= 1, "pixel ({x},{y})");
        assert_eq!(sample.a, 255);
    }
}

#[test]
fn uploaded_image_painted_one_to_one_reproduces_its_pixels() {
    // The same round-trip scenario as the store model, through the real
    // rasterizer: a 2-by-2 opaque-red image painted over its own bounds.
    let red_bytes = vec![255u8, 0, 0, 255].repeat(4);
    let source = Pixmap::from_parts(
        red_bytes.clone(),
        2,
        2,
        PixelMetadata::new(ImageAlphaType::Alpha, false),
    );
    let mut ctx = RenderContext::new(2, 2);
    ctx.set_paint(Image {
        image: ImageSource::Pixmap(Arc::new(source)),
        sampler: ImageSampler::default(),
    });
    ctx.fill_rect(&Rect::new(0.0, 0.0, 2.0, 2.0));
    ctx.flush();
    let mut pixmap = Pixmap::new(2, 2);
    let mut resources = Resources::new();
    ctx.render(pixmap.as_mut(), &mut resources);
    let rgba = pixmap.take_rgba8(ImageAlphaType::Alpha);
    assert_eq!(rgba, red_bytes);
}

#[test]
fn resized_context_reads_back_the_new_dimensions() {
    // Two consecutive setups at different sizes: readback after the
    // second reflects exactly the new size.
    let mut resources = Resources::new();
    let ctx = RenderContext::new(640, 480);
    let mut pixmap = Pixmap::new(640, 480);
    ctx.render(pixmap.as_mut(), &mut resources);
    assert_eq!((pixmap.width(), pixmap.height()), (640, 480));
    let ctx = RenderContext::new(320, 200);
    let mut pixmap = Pixmap::new(320, 200);
    ctx.render(pixmap.as_mut(), &mut resources);
    assert_eq!((pixmap.width(), pixmap.height()), (320, 200));
    assert_eq!(pixmap.data_as_u8_slice().len(), 4 * 320 * 200);
}
