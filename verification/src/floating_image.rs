//! The output image: created with a declared byte capacity before its data is
//! known, then filled exactly once through a checked assignment.

use vstd::prelude::*;

use crate::errors::ImageDataErrors;

verus! {

/// An output image of declared dimensions and destination name. `capacity`
/// records the byte budget (`width * height * 4`) declared at construction;
/// `set_data` enforces that assigned data stays within it.
pub struct FloatingImage {
    pub width: u32,
    pub height: u32,
    pub data: Vec<u8>,
    pub name: String,
    pub capacity: usize,
}

impl FloatingImage {
    /// Declares an empty output image whose capacity is the byte size of a
    /// `width` x `height` RGBA8 image.
    pub fn new(width: u32, height: u32, name: String) -> (r: FloatingImage)
        requires
            (width as int) * (height as int) * 4 <= usize::MAX,
        ensures
            r.width == width,
            r.height == height,
            r.name@ == name@,
            r.capacity == (width as int) * (height as int) * 4,
            r.data@.len() == 0,
    {
        proof {
            assert((height as int) * (width as int) == (width as int) * (height as int))
                by (nonlinear_arith);
        }
        let buffer_capacity: usize = (height as usize) * (width as usize) * 4;
        let buffer: Vec<u8> = Vec::with_capacity(buffer_capacity);
        FloatingImage { width, height, data: buffer, name, capacity: buffer_capacity }
    }

    /// Assigns the image's data, exactly once: data longer than the declared
    /// capacity is rejected as `BufferTooSmall` and the image is left
    /// unchanged, never truncated.
    pub fn set_data(&mut self, data: Vec<u8>) -> (r: Result<(), ImageDataErrors>)
        ensures
            data@.len() <= old(self).capacity ==> ({
                &&& r is Ok
                &&& final(self).data@ == data@
                &&& final(self).width == old(self).width
                &&& final(self).height == old(self).height
                &&& final(self).name@ == old(self).name@
                &&& final(self).capacity == old(self).capacity
            }),
            data@.len() > old(self).capacity ==> ({
                &&& r matches Err(ImageDataErrors::BufferTooSmall)
                &&& *final(self) == *old(self)
            }),
    {
        if data.len() > self.capacity {
            return Err(ImageDataErrors::BufferTooSmall);
        }
        self.data = data;
        Ok(())
    }
}

} // verus!
