//! The resampling stage: an image whose dimensions differ from the
//! reconciled target is rescaled to it with a triangle (linear) filter; an
//! image already at the target passes through byte-identical, with no
//! redundant resample. The filter's interpolation math itself is an outside
//! capability; what this module proves is when it is invoked and what shape
//! its result has.

use vstd::prelude::*;

use crate::dimensions::get_smallest_dimensions;
use crate::dimensions::smallest_dimensions;
use crate::image_data::PixelBuffer;

verus! {

/// The bytes that triangle-filter resampling produces from a
/// `width` x `height` RGBA8 buffer when rescaling it to
/// `new_width` x `new_height`: a fixed function of the buffer and the two
/// dimension pairs alone, left otherwise unspecified.
pub uninterp spec fn resample_of(
    pixels: Seq<u8>,
    width: int,
    height: int,
    new_width: int,
    new_height: int,
) -> Seq<u8>;

/// Relies on image::imageops::resize with FilterType::Triangle: from an
/// RGBA8 buffer of the given dimensions it produces the RGBA8 buffer of the
/// new dimensions, deterministically from its arguments. RgbaImage::from_raw
/// accepts the buffer because its length matches the dimensions exactly; the
/// two size bounds keep the element counts of the result and of the
/// resampler's intermediate `width` x `new_height` buffer within usize, the
/// condition under which the resize cannot abort.
#[verifier::external_body]
fn resize_rgba(pixels: Vec<u8>, width: u32, height: u32, new_width: u32, new_height: u32) -> (r:
    Vec<u8>)
    requires
        pixels@.len() == (width as int) * (height as int) * 4,
        (new_width as int) * (new_height as int) * 4 <= usize::MAX,
        (width as int) * (new_height as int) * 4 <= usize::MAX,
    ensures
        r@.len() == (new_width as int) * (new_height as int) * 4,
        r@ == resample_of(
            pixels@,
            width as int,
            height as int,
            new_width as int,
            new_height as int,
        ),
{
    let img = image::RgbaImage::from_raw(width, height, pixels).unwrap();
    let resized = image::imageops::resize(
        &img,
        new_width,
        new_height,
        image::imageops::FilterType::Triangle,
    );
    resized.into_raw()
}

/// What resampling an image to `target` leaves in its buffer: the bytes
/// unchanged when the image is already at the target, the triangle-filter
/// result otherwise.
pub open spec fn resampled_pixels(image: PixelBuffer, target: (u32, u32)) -> Seq<u8> {
    if image.dims() == target {
        image.pixels@
    } else {
        resample_of(
            image.pixels@,
            image.width as int,
            image.height as int,
            target.0 as int,
            target.1 as int,
        )
    }
}

/// Whether an image can be rescaled to `target` within machine limits: the
/// resampler walks through an intermediate buffer of the source's width and
/// the target's height, whose element count must fit in usize. An image
/// already at the target is never rescaled, so nothing is demanded of it.
pub open spec fn resample_fits(image: PixelBuffer, target: (u32, u32)) -> bool {
    image.dims() == target || (image.width as int) * (target.1 as int) * 4 <= usize::MAX
}

/// Whether both images can be rescaled to their reconciled target within
/// machine limits.
pub open spec fn standardise_fits(image_1: PixelBuffer, image_2: PixelBuffer) -> bool {
    let target = smallest_dimensions(image_1.dims(), image_2.dims());
    resample_fits(image_1, target) && resample_fits(image_2, target)
}

/// Rescales an image to the target dimensions. An image whose dimensions
/// already equal the target is returned unchanged, byte-identical: no
/// redundant resample happens.
pub fn resample(image: PixelBuffer, target: (u32, u32)) -> (r: PixelBuffer)
    requires
        image.wf(),
        (target.0 as int) * (target.1 as int) * 4 <= usize::MAX,
        resample_fits(image, target),
    ensures
        r.wf(),
        r.dims() == target,
        r.format == image.format,
        r.pixels@ == resampled_pixels(image, target),
        image.dims() == target ==> r.pixels@ == image.pixels@,
{
    if image.width == target.0 && image.height == target.1 {
        image
    } else {
        let pixels = resize_rgba(image.pixels, image.width, image.height, target.0, target.1);
        PixelBuffer { width: target.0, height: target.1, format: image.format, pixels }
    }
}

/// Normalizes two decoded images to the reconciled target resolution: the
/// pair with the smaller area sets the target, and only an image not already
/// at the target is resampled. Both results share the target dimensions, so
/// their buffers are equally long.
pub fn standardise_size(image_1: PixelBuffer, image_2: PixelBuffer) -> (r: (
    PixelBuffer,
    PixelBuffer,
))
    requires
        image_1.wf(),
        image_2.wf(),
        standardise_fits(image_1, image_2),
    ensures
        ({
            let target = smallest_dimensions(image_1.dims(), image_2.dims());
            &&& r.0.wf()
            &&& r.1.wf()
            &&& r.0.dims() == target
            &&& r.1.dims() == target
            &&& r.0.format == image_1.format
            &&& r.1.format == image_2.format
            &&& r.0.pixels@ == resampled_pixels(image_1, target)
            &&& r.1.pixels@ == resampled_pixels(image_2, target)
        }),
{
    let target = get_smallest_dimensions(
        (image_1.width, image_1.height),
        (image_2.width, image_2.height),
    );
    proof {
        // The target is one of the inputs' dimension pairs, so its byte size
        // is one of the inputs' buffer lengths, which fit in usize.
        vstd::std_specs::vec::axiom_spec_len(&image_1.pixels);
        vstd::std_specs::vec::axiom_spec_len(&image_2.pixels);
        assert(target == image_1.dims() || target == image_2.dims());
        assert((target.0 as int) * (target.1 as int) * 4 <= usize::MAX);
    }
    let image_1 = resample(image_1, target);
    let image_2 = resample(image_2, target);
    (image_1, image_2)
}

} // verus!
