//! Screenshot results for visual verification.
//!
//! A screenshot renders exactly one frame through the same codepath as
//! the corresponding benchmark and carries raw non-premultiplied RGBA
//! pixels with their dimensions. The adapter layer produces the pixels;
//! assembling a result checks that their length fits the dimensions, so
//! a well-formed result never carries a stale or truncated buffer.

use vstd::prelude::*;

verus! {

/// One rendered frame: dimensions plus raw non-premultiplied RGBA8 pixel
/// data, row-major, four bytes per pixel.
#[derive(Debug)]
pub struct ScreenshotResult {
    /// Width in pixels.
    pub width: u32,
    /// Height in pixels.
    pub height: u32,
    /// Non-premultiplied RGBA8 pixel data, row-major.
    pub rgba: Vec<u8>,
}

impl ScreenshotResult {
    /// The pixel data fills the dimensions exactly.
    pub open spec fn wf(&self) -> bool {
        self.rgba@.len() == 4 * self.width * self.height
    }

    /// Assemble a screenshot result; nothing exactly when the pixel data
    /// does not fill the dimensions.
    pub fn new(width: u32, height: u32, rgba: Vec<u8>) -> (r: Option<ScreenshotResult>)
        ensures
            r is Some <==> rgba@.len() == 4 * width * height,
            r matches Some(s) ==> s.width == width && s.height == height && s.rgba@ == rgba@
                && s.wf(),
    {
        proof {
            assert(4 * (width as int) * (height as int) < 0x1_0000_0000_0000_0000_0000_0000_0000_0000)
                by (nonlinear_arith)
                requires
                    width <= u32::MAX,
                    height <= u32::MAX,
            ;
        }
        let expected: u128 = 4 * (width as u128) * (height as u128);
        if rgba.len() as u128 == expected {
            Some(ScreenshotResult { width, height, rgba })
        } else {
            None
        }
    }
}

} // verus!
