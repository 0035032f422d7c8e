//! Image assets and the image-source interface.
//!
//! The image scenes upload one decoded photograph during setup and paint
//! it by handle in the draw loop. Decoding is delegated to the image
//! codec crate; the store models the backend's image-source interface:
//! uploading yields an opaque handle, and painting by handle reads back
//! exactly the uploaded pixels. A handle is only ever produced by an
//! upload, so a draw that needs one cannot run before setup.

use vstd::prelude::*;

use crate::pixels::{PixelBuf, clone_bytes};
use crate::vello_scenes::VelloSceneInfo;

verus! {

/// What decoding an encoded image yields: the raw RGBA bytes and the
/// dimensions, or nothing for bytes that are not a supported image.
/// Decoding is a function of the bytes alone, so the result carries a
/// name rather than a page of codec mathematics.
pub uninterp spec fn spec_decoded_rgba(bytes: Seq<u8>) -> Option<(Seq<u8>, u32, u32)>;

/// Relies on `image::load_from_memory` and `DynamicImage::into_rgba8`:
/// decoding an encoded image yields [`spec_decoded_rgba`] of the bytes —
/// its dimensions and a raw RGBA buffer of exactly four bytes per pixel —
/// or nothing exactly when the bytes are not a supported image.
#[verifier::external_body]
fn decode_rgba8(bytes: &[u8]) -> (r: Option<(Vec<u8>, u32, u32)>)
    ensures
        r is Some <==> spec_decoded_rgba(bytes@) is Some,
        r matches Some(d) ==> spec_decoded_rgba(bytes@) matches Some(s) && d.0@ == s.0 && d.1
            == s.1 && d.2 == s.2 && d.0@.len() == 4 * d.1 * d.2,
{
    let img = match image::load_from_memory(bytes) {
        Ok(img) => img.into_rgba8(),
        Err(_) => return None,
    };
    let (w, h) = img.dimensions();
    Some((img.into_raw(), w, h))
}

/// Decode an encoded image into a pixel buffer: exactly the decoded
/// pixels and dimensions. Nothing exactly when the bytes are not a
/// supported image or a decoded dimension exceeds the pixel-buffer range.
pub fn decode_image(bytes: &[u8]) -> (r: Option<PixelBuf>)
    ensures
        r is Some <==> (spec_decoded_rgba(bytes@) matches Some(s) && s.1 <= u16::MAX && s.2
            <= u16::MAX),
        r matches Some(p) ==> spec_decoded_rgba(bytes@) matches Some(s) && p.spec_width() == s.1
            && p.spec_height() == s.2 && p.spec_data() == s.0 && p.spec_data().len() == 4
            * p.spec_width() * p.spec_height(),
{
    let (data, w, h) = match decode_rgba8(bytes) {
        Some(d) => d,
        None => return None,
    };
    if w > u16::MAX as u32 || h > u16::MAX as u32 {
        return None;
    }
    PixelBuf::from_parts(w as u16, h as u16, data)
}

/// An opaque handle to an uploaded image, usable as paint input. Handles
/// come only from [`ImageStore::get_image_source`]: holding one is proof
/// that setup uploaded the image it names.
#[derive(Clone, Copy, Debug)]
pub struct ImageHandle {
    index: usize,
}

impl ImageHandle {
    /// The upload slot this handle names.
    pub closed spec fn spec_index(&self) -> int {
        self.index as int
    }
}

/// The backend's store of uploaded images: upload once during setup, then
/// paint by handle any number of times during draw.
#[derive(Debug)]
pub struct ImageStore {
    images: Vec<PixelBuf>,
}

impl ImageStore {
    /// The uploaded images, in upload order.
    pub closed spec fn spec_images(&self) -> Seq<PixelBuf> {
        self.images@
    }

    /// How many images have been uploaded.
    pub open spec fn spec_count(&self) -> nat {
        self.spec_images().len()
    }

    /// Whether `h` names an image this store holds.
    pub open spec fn valid_handle(&self, h: ImageHandle) -> bool {
        0 <= h.spec_index() < self.spec_count()
    }

    /// A store with nothing uploaded.
    pub fn new() -> (s: ImageStore)
        ensures
            s.spec_count() == 0,
    {
        ImageStore { images: Vec::new() }
    }

    /// Upload an image, producing the handle that names it from now on.
    /// Upload cost is paid here, once, by contract during setup — never in
    /// the measured draw loop.
    pub fn get_image_source(&mut self, image: PixelBuf) -> (h: ImageHandle)
        ensures
            final(self).spec_images() == old(self).spec_images().push(image),
            h.spec_index() == old(self).spec_count(),
            final(self).valid_handle(h),
    {
        let h = ImageHandle { index: self.images.len() };
        self.images.push(image);
        h
    }

    /// The image a handle names.
    pub fn fetch<'a>(&'a self, h: ImageHandle) -> (img: &'a PixelBuf)
        requires
            self.valid_handle(h),
        ensures
            *img == self.spec_images()[h.spec_index()],
    {
        &self.images[h.index]
    }

    /// Paint the image a handle names at the origin, at 1:1 scale, over
    /// its own bounds: the canvas must have the image's dimensions, and
    /// afterwards holds exactly the uploaded pixels.
    pub fn paint_at_origin(&self, h: ImageHandle, canvas: &mut PixelBuf)
        requires
            self.valid_handle(h),
            old(canvas).spec_width() == self.spec_images()[h.spec_index()].spec_width(),
            old(canvas).spec_height() == self.spec_images()[h.spec_index()].spec_height(),
        ensures
            final(canvas).spec_width() == old(canvas).spec_width(),
            final(canvas).spec_height() == old(canvas).spec_height(),
            final(canvas).spec_data() == self.spec_images()[h.spec_index()].spec_data(),
    {
        let img = self.fetch(h);
        let data = clone_bytes(img.data());
        let painted = PixelBuf::from_parts(img.width(), img.height(), data);
        match painted {
            Some(p) => {
                *canvas = p;
            },
            None => {
                proof {
                    assert(false);
                }
            },
        }
    }
}

/// Round trip: uploading an image and immediately painting it at 1:1
/// scale over its own bounds reproduces the source pixels exactly.
pub proof fn lemma_upload_paint_round_trip(
    before: ImageStore,
    after: ImageStore,
    h: ImageHandle,
    image: PixelBuf,
    canvas: PixelBuf,
)
    requires
        after.spec_images() == before.spec_images().push(image),
        h.spec_index() == before.spec_count(),
        canvas.spec_data() == after.spec_images()[h.spec_index()].spec_data(),
    ensures
        canvas.spec_data() == image.spec_data(),
{
    assert(after.spec_images()[h.spec_index()] == image);
}

/// The scene that interleaves batches of filled and stroked paths with
/// painted images: its draw pass issues ten rounds of one hundred paths
/// followed by one image each.
pub struct PathsAndImages100;

impl PathsAndImages100 {
    /// Scene metadata: name and native dimensions.
    pub fn info() -> (info: VelloSceneInfo)
        ensures
            info.name@ == "paths_and_images_100"@,
            info.width == 1920,
            info.height == 1080,
    {
        VelloSceneInfo { name: "paths_and_images_100", width: 1920, height: 1080 }
    }
}

/// Draw cannot precede setup: painting demands a handle the store holds,
/// and before any upload no handle at all is valid, so the draw entry
/// point is unreachable until setup has produced its handle.
pub proof fn lemma_draw_requires_setup(store: ImageStore, h: ImageHandle)
    requires
        store.spec_count() == 0,
    ensures
        !store.valid_handle(h),
{
}

} // verus!
