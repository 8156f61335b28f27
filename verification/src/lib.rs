//! Merges two raster images of the same encoded format into one output image
//! by interleaving 4-byte RGBA pixel blocks from each source, after
//! normalizing both images to a common resolution.

pub mod dimensions;
pub mod errors;
pub mod floating_image;
pub mod image_data;
pub mod interleave;
pub mod pipeline;
pub mod resample;
