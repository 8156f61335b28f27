//! The pipeline driver: format check, dimension reconciliation, resampling,
//! interleaving, and the checked assignment into the output image, in that
//! order. Every failure is terminal and short-circuits the remaining stages;
//! the caller writes the output file only after the whole pipeline has
//! succeeded, so no partial output is ever produced.

use vstd::prelude::*;

use crate::dimensions::area;
use crate::dimensions::smallest_dimensions;
use crate::errors::ImageDataErrors;
use crate::floating_image::FloatingImage;
use crate::image_data::ImageFormatTag;
use crate::image_data::PixelBuffer;
use crate::interleave::combine_images;
use crate::interleave::interleave_spec;
use crate::resample::resampled_pixels;
use crate::resample::standardise_fits;
use crate::resample::standardise_size;

verus! {

/// Runs two decoded images through the whole in-memory pipeline and returns
/// the filled output image together with the container format to save it in:
/// the first image's format, which the format check has made equal to the
/// second's. The only failure is a format mismatch, reported before any
/// resample takes place.
pub fn process_images(image_1: PixelBuffer, image_2: PixelBuffer, name: String) -> (r: Result<
    (FloatingImage, ImageFormatTag),
    ImageDataErrors,
>)
    requires
        image_1.wf(),
        image_2.wf(),
        standardise_fits(image_1, image_2),
    ensures
        r is Err <==> image_1.format != image_2.format,
        r is Err ==> r matches Err(ImageDataErrors::DifferentImageFormats),
        r matches Ok(out) ==> ({
            let target = smallest_dimensions(image_1.dims(), image_2.dims());
            &&& out.1 == image_1.format
            &&& out.0.width == target.0
            &&& out.0.height == target.1
            &&& out.0.name@ == name@
            &&& out.0.capacity == area(target) * 4
            &&& out.0.data@ == interleave_spec(
                resampled_pixels(image_1, target),
                resampled_pixels(image_2, target),
            )
            &&& out.0.data@.len() == area(target) * 4
        }),
{
    if image_1.format != image_2.format {
        return Err(ImageDataErrors::DifferentImageFormats);
    }
    let format = image_1.format;
    let (image_1, image_2) = standardise_size(image_1, image_2);
    proof {
        // The resampled buffer's length is the target's byte size, so that
        // size fits in usize and the output capacity can be declared.
        vstd::std_specs::vec::axiom_spec_len(&image_1.pixels);
    }
    let mut output = FloatingImage::new(image_1.width, image_1.height, name);
    let combined_data = combine_images(image_1, image_2);
    match output.set_data(combined_data) {
        Ok(()) => Ok((output, format)),
        Err(e) => Err(e),
    }
}

} // verus!
