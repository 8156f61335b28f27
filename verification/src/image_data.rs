//! The decoded image data the pipeline works on: a fixed-size byte buffer
//! tagged with its dimensions and its container format, holding an RGBA8
//! image in row-major order.

use vstd::prelude::*;

verus! {

/// The container format an image was encoded in, as opposed to its in-memory
/// pixel layout. Compared only for equality: two inputs of differing formats
/// are rejected, never converted.
#[derive(Clone, Copy, Debug, PartialEq, Eq, Structural)]
pub enum ImageFormatTag {
    Png,
    Jpeg,
    Gif,
    WebP,
    Pnm,
    Tiff,
    Tga,
    Dds,
    Bmp,
    Ico,
    Hdr,
    OpenExr,
    Farbfeld,
    Avif,
    Qoi,
    Pcx,
}

/// A decoded RGBA8 image: `pixels` holds `width * height` pixels of 4 bytes
/// each, row-major. Exclusively owned by the pipeline stage operating on it,
/// and moved, never shared, between stages.
pub struct PixelBuffer {
    pub width: u32,
    pub height: u32,
    pub format: ImageFormatTag,
    pub pixels: Vec<u8>,
}

impl PixelBuffer {
    /// Four bytes per pixel: the buffer's length matches its dimensions.
    pub open spec fn wf(self) -> bool {
        self.pixels@.len() == (self.width as int) * (self.height as int) * 4
    }

    /// The (width, height) pair, as the dimension reconciler compares it.
    pub open spec fn dims(self) -> (u32, u32) {
        (self.width, self.height)
    }

    /// Builds a well-formed buffer, or returns `None` when the byte length
    /// does not match the dimensions.
    pub fn new(width: u32, height: u32, format: ImageFormatTag, pixels: Vec<u8>) -> (r: Option<
        PixelBuffer,
    >)
        ensures
            r is Some <==> pixels@.len() == (width as int) * (height as int) * 4,
            r matches Some(b) ==> ({
                &&& b.wf()
                &&& b.width == width
                &&& b.height == height
                &&& b.format == format
                &&& b.pixels@ == pixels@
            }),
    {
        proof {
            assert((width as int) * (height as int) * 4 <= 0xffff_ffff * 0xffff_ffff * 4)
                by (nonlinear_arith)
                requires
                    width <= 0xffff_ffff,
                    height <= 0xffff_ffff,
            ;
        }
        let expected: u128 = (width as u128) * (height as u128) * 4;
        if (pixels.len() as u128) == expected {
            Some(PixelBuffer { width, height, format, pixels })
        } else {
            None
        }
    }
}

} // verus!
