//! Backend-independent render state accounting.
//!
//! A backend adapter owns its device and pixel buffers; what this module
//! verifies is the bookkeeping around them that every adapter shares: the
//! layer push/pop discipline a scene must balance before it is complete,
//! the render-target dimensions that pixel readback must reflect, and the
//! row-stride arithmetic of reading a padded GPU buffer back into packed
//! rows.

use vstd::prelude::*;

verus! {

/// The GPU's minimum row alignment for texture-to-buffer copies, in
/// bytes: rows in a readback buffer are padded to a multiple of this.
pub const ROW_ALIGNMENT: u32 = 256;

/// Tracks the nesting depth of compositing layers as a scene is built.
/// Every push must have a matching pop before the scene is complete;
/// validation makes an unbalanced scene detectable instead of silently
/// accepted.
#[derive(Clone, Copy, Debug)]
pub struct LayerStack {
    depth: u64,
}

impl LayerStack {
    /// How many layers are currently open.
    pub closed spec fn spec_depth(&self) -> u64 {
        self.depth
    }

    /// No layers open.
    pub fn new() -> (s: LayerStack)
        ensures
            s.spec_depth() == 0,
    {
        LayerStack { depth: 0 }
    }

    /// How many layers are currently open.
    pub fn depth(&self) -> (d: u64)
        ensures
            d == self.spec_depth(),
    {
        self.depth
    }

    /// Open one compositing layer.
    pub fn push_layer(&mut self)
        requires
            old(self).spec_depth() < u64::MAX,
        ensures
            final(self).spec_depth() == old(self).spec_depth() + 1,
    {
        self.depth = self.depth + 1;
    }

    /// Close the innermost open layer. Popping with no layer open is a
    /// caller error, excluded by contract.
    pub fn pop_layer(&mut self)
        requires
            old(self).spec_depth() > 0,
        ensures
            final(self).spec_depth() == old(self).spec_depth() - 1,
    {
        self.depth = self.depth - 1;
    }

    /// Validate that the scene's layers are balanced: succeeds exactly
    /// when every pushed layer has been popped, and otherwise reports how
    /// many layers are still open.
    pub fn check_balanced(&self) -> (r: Result<(), u64>)
        ensures
            r is Ok <==> self.spec_depth() == 0,
            r matches Err(open) ==> open == self.spec_depth() && open > 0,
    {
        if self.depth == 0 {
            Ok(())
        } else {
            Err(self.depth)
        }
    }
}

/// A scene built with one more push than pop cannot validate: its layer
/// depth is positive, so balance checking reports it as a contract
/// violation rather than accepting the scene.
pub proof fn lemma_unbalanced_layers_detected(s: LayerStack, pushes: nat, pops: nat)
    requires
        pops < pushes,
        s.spec_depth() == pushes - pops,
    ensures
        s.spec_depth() > 0,
{
}

/// The dimensions of a backend's render target. The target is recreated
/// whenever a benchmark needs other dimensions, so readback always
/// reflects the size configured last.
#[derive(Clone, Copy, Debug)]
pub struct RenderTarget {
    width: u16,
    height: u16,
}

impl RenderTarget {
    /// Width in pixels.
    pub closed spec fn spec_width(&self) -> u16 {
        self.width
    }

    /// Height in pixels.
    pub closed spec fn spec_height(&self) -> u16 {
        self.height
    }

    /// A target sized exactly to the given dimensions.
    pub fn new(width: u16, height: u16) -> (t: RenderTarget)
        ensures
            t.spec_width() == width,
            t.spec_height() == height,
    {
        RenderTarget { width, height }
    }

    /// Resize the target: afterwards it has exactly the new dimensions,
    /// with nothing left over from the old ones.
    pub fn configure(&mut self, width: u16, height: u16)
        ensures
            final(self).spec_width() == width,
            final(self).spec_height() == height,
    {
        self.width = width;
        self.height = height;
    }

    /// Width in pixels.
    pub fn width(&self) -> (w: u16)
        ensures
            w == self.spec_width(),
    {
        self.width
    }

    /// Height in pixels.
    pub fn height(&self) -> (h: u16)
        ensures
            h == self.spec_height(),
    {
        self.height
    }

    /// How many bytes a packed, row-major readback of this target holds:
    /// four per pixel.
    pub fn readback_len(&self) -> (n: u64)
        ensures
            n == 4 * self.spec_width() * self.spec_height(),
    {
        proof {
            assert(4 * (self.width as int) * (self.height as int) < 0x1_0000_0000_0000_0000)
                by (nonlinear_arith)
                requires
                    self.width <= 0xffff,
                    self.height <= 0xffff,
            ;
        }
        4 * (self.width as u64) * (self.height as u64)
    }

    /// The padded row stride of a GPU readback buffer for this target:
    /// four bytes per pixel, rounded up to the row alignment.
    pub fn padded_bytes_per_row(&self) -> (n: u32)
        ensures
            n == spec_align_up(4 * self.spec_width() as int, ROW_ALIGNMENT as int),
            n % ROW_ALIGNMENT == 0,
            4 * self.spec_width() <= n,
    {
        align_to(4 * (self.width as u32), ROW_ALIGNMENT)
    }
}

/// Reconfiguring a target across two consecutive benchmark setups leaves
/// exactly the dimensions configured last. A target's state is nothing
/// but its dimensions, and `configure` pins both of them, so whatever was
/// configured first, a target whose second setup asked for `w2`-by-`h2`
/// reads back exactly that size: the old dimensions cannot leak into the
/// new readback length.
pub proof fn lemma_resize_takes_latest(first: RenderTarget, second: RenderTarget, w2: u16, h2: u16)
    requires
        second.spec_width() == w2,
        second.spec_height() == h2,
    ensures
        4 * second.spec_width() * second.spec_height() == 4 * w2 * h2,
        first.spec_width() != w2 ==> second.spec_width() != first.spec_width(),
        first.spec_height() != h2 ==> second.spec_height() != first.spec_height(),
{
}

/// `value` rounded up to the next multiple of `alignment`.
pub open spec fn spec_align_up(value: int, alignment: int) -> int {
    ((value + alignment - 1) / alignment) * alignment
}

/// Round `value` up to the next multiple of `alignment`.
pub fn align_to(value: u32, alignment: u32) -> (r: u32)
    requires
        alignment > 0,
        value + alignment - 1 <= u32::MAX,
    ensures
        r == spec_align_up(value as int, alignment as int),
        r % alignment == 0,
        value <= r < value + alignment,
{
    proof {
        lemma_align_up_bounds(value as int, alignment as int);
    }
    (value + (alignment - 1)) / alignment * alignment
}

proof fn lemma_align_up_bounds(value: int, alignment: int)
    requires
        value >= 0,
        alignment > 0,
    ensures
        value <= spec_align_up(value, alignment) < value + alignment,
        spec_align_up(value, alignment) % alignment == 0,
{
    let q = (value + alignment - 1) / alignment;
    assert(q * alignment == spec_align_up(value, alignment));
    assert(value <= q * alignment < value + alignment && (q * alignment) % alignment == 0)
        by (nonlinear_arith)
        requires
            alignment > 0,
            value >= 0,
            q == (value + alignment - 1) / alignment,
    ;
}

/// Strip the row padding of a GPU readback buffer: keep the leading
/// `4 * width` bytes of each of `height` rows of `bytes_per_row` bytes,
/// producing packed row-major pixel data.
pub fn strip_row_padding(data: &Vec<u8>, width: u32, height: u32, bytes_per_row: u32) -> (out: Vec<
    u8,
>)
    requires
        4 * width <= bytes_per_row,
        height * bytes_per_row <= data@.len(),
        4 * width * height <= usize::MAX,
        height * bytes_per_row <= usize::MAX,
    ensures
        out@.len() == 4 * width * height,
        forall|r: int, c: int|
            0 <= r < height && 0 <= c < 4 * width ==> #[trigger] out@[r * (4 * width) + c]
                == data@[r * (bytes_per_row as int) + c],
{
    let row_bytes: usize = 4 * (width as usize);
    let mut out: Vec<u8> = Vec::new();
    let mut r: usize = 0;
    while r < height as usize
        invariant
            r <= height,
            4 * width <= bytes_per_row,
            height * bytes_per_row <= data@.len(),
            4 * width * height <= usize::MAX,
            height * bytes_per_row <= usize::MAX,
            row_bytes == 4 * width,
            out@.len() == r * (4 * width),
            forall|rr: int, c: int|
                0 <= rr < r && 0 <= c < 4 * width ==> #[trigger] out@[rr * (4 * width) + c]
                    == data@[rr * (bytes_per_row as int) + c],
        decreases height - r,
    {
        proof {
            assert((r + 1) * (4 * width) <= height * (4 * width)) by (nonlinear_arith)
                requires
                    r + 1 <= height,
                    width >= 0,
            ;
            assert(height * (4 * width) == 4 * width * height) by (nonlinear_arith);
            assert((r + 1) * (bytes_per_row as int) <= height * (bytes_per_row as int))
                by (nonlinear_arith)
                requires
                    r + 1 <= height,
                    bytes_per_row >= 0,
            ;
            assert(r * (bytes_per_row as int) <= (r + 1) * (bytes_per_row as int))
                by (nonlinear_arith)
                requires
                    bytes_per_row >= 0,
            ;
            assert(r * (4 * width) <= (r + 1) * (4 * width)) by (nonlinear_arith)
                requires
                    width >= 0,
            ;
            assert((r + 1) * (4 * width) == r * (4 * width) + 4 * width) by (nonlinear_arith);
            assert((r + 1) * (bytes_per_row as int) == r * (bytes_per_row as int) + bytes_per_row)
                by (nonlinear_arith);
            assert(height * (bytes_per_row as int) == height * bytes_per_row);
            assert(r * (bytes_per_row as int) <= usize::MAX);
        }
        let row_start: usize = r * (bytes_per_row as usize);
        let mut c: usize = 0;
        while c < row_bytes
            invariant
                c <= row_bytes,
                r < height,
                4 * width <= bytes_per_row,
                height * bytes_per_row <= data@.len(),
                4 * width * height <= usize::MAX,
                height * bytes_per_row <= usize::MAX,
                row_bytes == 4 * width,
                (r + 1) * (bytes_per_row as int) <= height * (bytes_per_row as int),
                row_start == r * (bytes_per_row as int),
                (r + 1) * (bytes_per_row as int) <= data@.len(),
                (r + 1) * (4 * width) <= 4 * width * height,
                (r + 1) * (4 * width) == r * (4 * width) + 4 * width,
                (r + 1) * (bytes_per_row as int) == r * (bytes_per_row as int) + bytes_per_row,
                out@.len() == r * (4 * width) + c,
                forall|rr: int, cc: int|
                    0 <= rr < r && 0 <= cc < 4 * width ==> #[trigger] out@[rr * (4 * width) + cc]
                        == data@[rr * (bytes_per_row as int) + cc],
                forall|cc: int|
                    0 <= cc < c ==> #[trigger] out@[r * (4 * width) + cc] == data@[r * (
                    bytes_per_row as int) + cc],
            decreases row_bytes - c,
        {
            proof {
                assert forall|rr: int, cc: int|
                    0 <= rr < r && 0 <= cc < 4 * width implies #[trigger] (rr * (4 * width) + cc)
                        < out@.len() by {
                    assert((rr + 1) * (4 * width) <= r * (4 * width)) by (nonlinear_arith)
                        requires
                            rr + 1 <= r,
                            width >= 0,
                    ;
                    assert(rr * (4 * width) + cc < (rr + 1) * (4 * width)) by (nonlinear_arith)
                        requires
                            cc < 4 * width,
                    ;
                }
            }
            proof {
                assert(row_start + c < (r + 1) * (bytes_per_row as int));
                assert(height * (bytes_per_row as int) == height * bytes_per_row);
                assert((r + 1) * (bytes_per_row as int) <= usize::MAX);
            }
            out.push(data[row_start + c]);
            c = c + 1;
        }
        r = r + 1;
    }
    proof {
        assert((height as int) * (4 * width) == 4 * width * height) by (nonlinear_arith);
    }
    out
}

} // verus!
