//! Trusted boundary to the `image` crate: captured screen regions are RGB
//! pixel buffers, held opaquely in [`Capture`] and read by the verified
//! classifier through the wrappers below.  The pixel grid and the dimensions
//! of a capture are given names that the wrappers' contracts share.

use vstd::prelude::*;

verus! {

/// A captured screen region: an `image::RgbImage` held behind a trusted
/// boundary, since Verus cannot look inside the buffer type itself.
#[verifier::external_body]
pub struct Capture {
    img: image::RgbImage,
}

/// The pixel stored at each in-bounds `(x, y)` coordinate of a capture, as a
/// plain `(red, green, blue)` channel triple.
pub uninterp spec fn capture_pixels(c: Capture) -> Map<(int, int), (u8, u8, u8)>;

/// The width a capture was made with.
pub uninterp spec fn capture_width(c: Capture) -> u32;

/// The height a capture was made with.
pub uninterp spec fn capture_height(c: Capture) -> u32;

impl Capture {
    /// Relies on `image::ImageBuffer::from_raw` and the documented buffer
    /// layout: row-major from the top-left corner, three interleaved
    /// channels per pixel, so pixel `(x, y)` starts at byte `3 * (y * width
    /// + x)`.  `from_raw` returns a buffer exactly when the container holds
    /// enough bytes, which the precondition guarantees.
    #[verifier::external_body]
    pub fn from_rgb8(width: u32, height: u32, data: Vec<u8>) -> (r: Capture)
        requires
            data@.len() == 3 * (width * height),
        ensures
            capture_width(r) == width,
            capture_height(r) == height,
            forall|x: int, y: int|
                0 <= x < width && 0 <= y < height ==> #[trigger] capture_pixels(r)[(x, y)] == (
                    data@[3 * (y * width + x)],
                    data@[3 * (y * width + x) + 1],
                    data@[3 * (y * width + x) + 2],
                ),
    {
        Capture { img: image::RgbImage::from_raw(width, height, data).unwrap() }
    }

    /// Relies on `image::ImageBuffer::width`: returns the width the buffer
    /// was constructed with.
    #[verifier::external_body]
    pub(crate) fn width(&self) -> (r: u32)
        ensures
            r == capture_width(*self),
    {
        self.img.width()
    }

    /// Relies on `image::ImageBuffer::height`: returns the height the
    /// buffer was constructed with.
    #[verifier::external_body]
    pub(crate) fn height(&self) -> (r: u32)
        ensures
            r == capture_height(*self),
    {
        self.img.height()
    }

    /// Relies on `image::ImageBuffer::get_pixel`: in bounds it returns the
    /// pixel stored at `(x, y)`; out of bounds it panics, so the bounds are
    /// required here.
    #[verifier::external_body]
    pub(crate) fn pixel(&self, x: u32, y: u32) -> (r: (u8, u8, u8))
        requires
            x < capture_width(*self),
            y < capture_height(*self),
        ensures
            r == capture_pixels(*self)[(x as int, y as int)],
    {
        let p = self.img.get_pixel(x, y);
        (p.0[0], p.0[1], p.0[2])
    }
}

} // verus!
