//! Plain pixel data and the conversions pixel readback relies on.
//!
//! Pixels are 8-bit-per-channel RGBA. A [`PixelBuf`] is a row-major pixel
//! buffer with its dimensions; its length always equals four bytes per
//! pixel. Premultiplication and its inverse are specified exactly, and
//! shown to round-trip on opaque pixels.

use vstd::prelude::*;

verus! {

/// One non-premultiplied RGBA pixel, 8 bits per channel.
#[derive(Clone, Copy, Debug, PartialEq, Eq, Structural)]
pub struct Rgba8 {
    /// Red.
    pub r: u8,
    /// Green.
    pub g: u8,
    /// Blue.
    pub b: u8,
    /// Alpha.
    pub a: u8,
}

/// One channel premultiplied by alpha, rounding half up.
pub open spec fn spec_premul_channel(c: u8, a: u8) -> u8 {
    ((c as int * a as int + 127) / 255) as u8
}

/// One premultiplied channel divided back out by alpha, rounding half up
/// and saturating at 255. A fully transparent pixel has no color to
/// recover: every channel reads zero.
pub open spec fn spec_unpremul_channel(c: u8, a: u8) -> u8 {
    if a == 0 {
        0u8
    } else if (c as int * 255 + a as int / 2) / (a as int) > 255 {
        255u8
    } else {
        ((c as int * 255 + a as int / 2) / (a as int)) as u8
    }
}

/// A pixel with every channel premultiplied by its alpha.
pub open spec fn spec_premultiply(p: Rgba8) -> Rgba8 {
    Rgba8 {
        r: spec_premul_channel(p.r, p.a),
        g: spec_premul_channel(p.g, p.a),
        b: spec_premul_channel(p.b, p.a),
        a: p.a,
    }
}

/// A premultiplied pixel converted back to non-premultiplied form.
pub open spec fn spec_unpremultiply(p: Rgba8) -> Rgba8 {
    Rgba8 {
        r: spec_unpremul_channel(p.r, p.a),
        g: spec_unpremul_channel(p.g, p.a),
        b: spec_unpremul_channel(p.b, p.a),
        a: p.a,
    }
}

fn premul_channel(c: u8, a: u8) -> (q: u8)
    ensures
        q == spec_premul_channel(c, a),
{
    proof {
        assert(c as int * a as int <= 255 * 255) by (nonlinear_arith)
            requires
                c <= 255,
                a <= 255,
        ;
        assert((c as int * a as int + 127) / 255 <= 255) by (nonlinear_arith)
            requires
                c as int * a as int <= 255 * 255,
        ;
    }
    ((c as u32 * a as u32 + 127) / 255) as u8
}

/// Premultiply a pixel's channels by its alpha.
pub fn premultiply(p: Rgba8) -> (q: Rgba8)
    ensures
        q == spec_premultiply(p),
{
    Rgba8 {
        r: premul_channel(p.r, p.a),
        g: premul_channel(p.g, p.a),
        b: premul_channel(p.b, p.a),
        a: p.a,
    }
}

/// Divide a premultiplied pixel's channels back out by its alpha.
pub fn unpremultiply(p: Rgba8) -> (q: Rgba8)
    ensures
        q == spec_unpremultiply(p),
{
    if p.a == 0 {
        Rgba8 { r: 0, g: 0, b: 0, a: 0 }
    } else {
        let a = p.a as u32;
        let r = (p.r as u32 * 255 + a / 2) / a;
        let g = (p.g as u32 * 255 + a / 2) / a;
        let b = (p.b as u32 * 255 + a / 2) / a;
        Rgba8 {
            r: if r > 255 {
                255
            } else {
                r as u8
            },
            g: if g > 255 {
                255
            } else {
                g as u8
            },
            b: if b > 255 {
                255
            } else {
                b as u8
            },
            a: p.a,
        }
    }
}

/// On an opaque pixel, premultiplication changes nothing and the round
/// trip through premultiplied form reproduces the source exactly.
pub proof fn lemma_opaque_premul_round_trip(p: Rgba8)
    requires
        p.a == 255,
    ensures
        spec_premultiply(p) == p,
        spec_unpremultiply(spec_premultiply(p)) == p,
{
    lemma_premul_channel_opaque(p.r);
    lemma_premul_channel_opaque(p.g);
    lemma_premul_channel_opaque(p.b);
    lemma_unpremul_channel_opaque(p.r);
    lemma_unpremul_channel_opaque(p.g);
    lemma_unpremul_channel_opaque(p.b);
}

proof fn lemma_premul_channel_opaque(c: u8)
    ensures
        spec_premul_channel(c, 255) == c,
{
    assert((c * 255 + 127) / 255 == c as int) by (nonlinear_arith);
}

proof fn lemma_unpremul_channel_opaque(c: u8)
    ensures
        spec_unpremul_channel(c, 255) == c,
{
    assert((c * 255 + 127) / 255 == c as int) by (nonlinear_arith);
}

/// Flatten pixels into bytes, four per pixel, in r, g, b, a order.
pub fn rgba_bytes_from_pixels(pixels: &Vec<Rgba8>) -> (out: Vec<u8>)
    requires
        4 * pixels@.len() <= usize::MAX,
    ensures
        out@.len() == 4 * pixels@.len(),
        forall|i: int|
            0 <= i < pixels@.len() ==> out@[4 * i] == (#[trigger] pixels@[i]).r && out@[4 * i + 1]
                == pixels@[i].g && out@[4 * i + 2] == pixels@[i].b && out@[4 * i + 3]
                == pixels@[i].a,
{
    let mut out: Vec<u8> = Vec::new();
    let mut i: usize = 0;
    while i < pixels.len()
        invariant
            i <= pixels@.len(),
            4 * pixels@.len() <= usize::MAX,
            out@.len() == 4 * i,
            forall|k: int|
                0 <= k < i ==> out@[4 * k] == (#[trigger] pixels@[k]).r && out@[4 * k + 1]
                    == pixels@[k].g && out@[4 * k + 2] == pixels@[k].b && out@[4 * k + 3]
                    == pixels@[k].a,
        decreases pixels@.len() - i,
    {
        let p = pixels[i];
        out.push(p.r);
        out.push(p.g);
        out.push(p.b);
        out.push(p.a);
        i = i + 1;
    }
    out
}

/// The absolute difference of two channel values.
pub open spec fn spec_abs_diff(x: u8, y: u8) -> int {
    if x >= y {
        x - y
    } else {
        y - x
    }
}

/// Whether two pixel buffers have the same length and agree within
/// `tolerance` at every byte: the cross-backend consistency check.
pub fn buffers_match_within(a: &Vec<u8>, b: &Vec<u8>, tolerance: u8) -> (r: bool)
    ensures
        r <==> (a@.len() == b@.len() && forall|i: int|
            0 <= i < a@.len() ==> spec_abs_diff(#[trigger] a@[i], b@[i]) <= tolerance),
{
    if a.len() != b.len() {
        return false;
    }
    let mut i: usize = 0;
    while i < a.len()
        invariant
            i <= a@.len(),
            a@.len() == b@.len(),
            forall|k: int| 0 <= k < i ==> spec_abs_diff(#[trigger] a@[k], b@[k]) <= tolerance,
        decreases a@.len() - i,
    {
        let x = a[i];
        let y = b[i];
        let diff = if x >= y {
            x - y
        } else {
            y - x
        };
        if diff > tolerance {
            return false;
        }
        i = i + 1;
    }
    true
}

/// Copy a byte vector.
pub fn clone_bytes(v: &Vec<u8>) -> (out: Vec<u8>)
    ensures
        out@ == v@,
{
    let mut out: Vec<u8> = Vec::new();
    let mut i: usize = 0;
    while i < v.len()
        invariant
            i <= v@.len(),
            out@ == v@.subrange(0, i as int),
        decreases v@.len() - i,
    {
        out.push(v[i]);
        i = i + 1;
    }
    proof {
        assert(out@ =~= v@);
    }
    out
}

/// A row-major RGBA pixel buffer with its dimensions. Four bytes per
/// pixel, rows packed without padding: the data length is always exactly
/// `4 * width * height`.
#[derive(Debug)]
pub struct PixelBuf {
    width: u16,
    height: u16,
    data: Vec<u8>,
}

impl PixelBuf {
    #[verifier::type_invariant]
    spec fn type_inv(self) -> bool {
        self.data@.len() == 4 * self.width * self.height
    }

    /// Width in pixels.
    pub closed spec fn spec_width(&self) -> u16 {
        self.width
    }

    /// Height in pixels.
    pub closed spec fn spec_height(&self) -> u16 {
        self.height
    }

    /// The pixel bytes, row-major, four per pixel.
    pub closed spec fn spec_data(&self) -> Seq<u8> {
        self.data@
    }

    /// An all-transparent buffer of the given dimensions.
    pub fn new(width: u16, height: u16) -> (p: PixelBuf)
        requires
            4 * width * height <= usize::MAX,
        ensures
            p.spec_width() == width,
            p.spec_height() == height,
            p.spec_data() == Seq::new((4 * width * height) as nat, |i: int| 0u8),
    {
        let len: usize = 4 * (width as usize) * (height as usize);
        let data: Vec<u8> = vec![0u8; len];
        proof {
            assert(data@ =~= Seq::new((4 * width * height) as nat, |i: int| 0u8));
        }
        PixelBuf { width, height, data }
    }

    /// Assemble a buffer from loose parts; nothing exactly when the data
    /// length does not fit the dimensions.
    pub fn from_parts(width: u16, height: u16, data: Vec<u8>) -> (r: Option<PixelBuf>)
        ensures
            r is Some <==> data@.len() == 4 * width * height,
            r matches Some(p) ==> p.spec_width() == width && p.spec_height() == height
                && p.spec_data() == data@,
    {
        proof {
            assert(4 * (width as int) * (height as int) < 0x1_0000_0000_0000_0000) by (nonlinear_arith)
                requires
                    width <= 0xffff,
                    height <= 0xffff,
            ;
        }
        let expected: u64 = 4 * (width as u64) * (height as u64);
        if data.len() as u64 == expected {
            Some(PixelBuf { width, height, data })
        } else {
            None
        }
    }

    /// Width in pixels.
    pub fn width(&self) -> (w: u16)
        ensures
            w == self.spec_width(),
    {
        self.width
    }

    /// Height in pixels.
    pub fn height(&self) -> (h: u16)
        ensures
            h == self.spec_height(),
    {
        self.height
    }

    /// The pixel bytes: always exactly four per pixel.
    pub fn data(&self) -> (d: &Vec<u8>)
        ensures
            d@ == self.spec_data(),
            d@.len() == 4 * self.spec_width() * self.spec_height(),
    {
        proof {
            use_type_invariant(self);
        }
        &self.data
    }
}

} // verus!
