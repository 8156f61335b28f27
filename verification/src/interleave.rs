//! The pixel interleaver: merges two equal-length RGBA8 buffers into one,
//! alternating which source supplies each 4-byte pixel. The buffer is walked
//! flat, in 4-byte strides from offset 0: a stride starting at an offset
//! divisible by 8 (an even-indexed pixel) comes from the first buffer, every
//! other stride from the second. The pattern repeats every 8 bytes and does
//! not respect row boundaries.

use vstd::prelude::*;

use crate::image_data::PixelBuffer;

verus! {

/// The merged buffer: byte `j` comes from `a` when `j`'s pixel starts at an
/// offset divisible by 8 (that is, when `j % 8 < 4`), and from `b` otherwise.
/// A pure function of the two buffers, as long as the first.
pub open spec fn interleave_spec(a: Seq<u8>, b: Seq<u8>) -> Seq<u8> {
    Seq::new(a.len(), |j: int| if j % 8 < 4 { a[j] } else { b[j] })
}

/// Copies the window `vec[start ..= end]` out of a buffer. A window that
/// would run past the end of the buffer is ruled out by the precondition:
/// reaching one would be an internal defect, not a recoverable state.
pub fn set_rgba(vec: &Vec<u8>, start: usize, end: usize) -> (rgba: Vec<u8>)
    requires
        start <= end < vec@.len(),
    ensures
        rgba@ == vec@.subrange(start as int, end + 1),
{
    let n: usize = vec.len();
    let mut rgba: Vec<u8> = Vec::new();
    let mut i: usize = start;
    while i <= end
        invariant
            start <= i <= end + 1,
            end < n == vec@.len(),
            rgba@ == vec@.subrange(start as int, i as int),
        decreases end + 1 - i,
    {
        rgba.push(vec[i]);
        proof {
            assert(rgba@ =~= vec@.subrange(start as int, i + 1));
        }
        i = i + 1;
    }
    rgba
}

/// Interleaves two equal-length buffers, whole 4-byte pixels at a time, per
/// the fixed even/odd pixel pattern. The output is exactly as long as each
/// input.
pub fn alternative_pixels(vec_1: Vec<u8>, vec_2: Vec<u8>) -> (combined: Vec<u8>)
    requires
        vec_1@.len() == vec_2@.len(),
        vec_1@.len() % 4 == 0,
    ensures
        combined@ == interleave_spec(vec_1@, vec_2@),
        combined@.len() == vec_1@.len(),
{
    let len: usize = vec_1.len();
    let mut combined_data: Vec<u8> = vec![0u8; len];
    let mut i: usize = 0;
    while i < len
        invariant
            len == vec_1@.len(),
            vec_1@.len() == vec_2@.len(),
            len % 4 == 0,
            i % 4 == 0,
            i <= len,
            combined_data@.len() == len,
            forall|j: int|
                0 <= j < i ==> combined_data@[j] == (if j % 8 < 4 {
                    vec_1@[j]
                } else {
                    vec_2@[j]
                }),
        decreases len - i,
    {
        assert(i + 4 <= len);
        let rgba = if i % 8 == 0 {
            set_rgba(&vec_1, i, i + 3)
        } else {
            set_rgba(&vec_2, i, i + 3)
        };
        let mut k: usize = 0;
        while k < 4
            invariant
                i + 4 <= len,
                k <= 4,
                combined_data@.len() == len,
                len == vec_1@.len(),
                vec_1@.len() == vec_2@.len(),
                rgba@.len() == 4,
                rgba@ == (if i % 8 == 0 {
                    vec_1@
                } else {
                    vec_2@
                }).subrange(i as int, i + 4),
                forall|j: int|
                    0 <= j < i ==> combined_data@[j] == (if j % 8 < 4 {
                        vec_1@[j]
                    } else {
                        vec_2@[j]
                    }),
                forall|j: int| i <= j < i + k ==> combined_data@[j] == rgba@[j - i],
            decreases 4 - k,
        {
            combined_data[i + k] = rgba[k];
            k = k + 1;
        }
        proof {
            assert forall|j: int| i <= j < i + 4 implies combined_data@[j] == (if j % 8 < 4 {
                vec_1@[j]
            } else {
                vec_2@[j]
            }) by {
                assert(combined_data@[j] == rgba@[j - i]);
                if i % 8 == 0 {
                    assert(j % 8 < 4);
                } else {
                    assert(i % 8 == 4);
                    assert(j % 8 >= 4);
                }
            }
        }
        i = i + 4;
    }
    proof {
        assert(combined_data@ =~= interleave_spec(vec_1@, vec_2@));
    }
    combined_data
}

/// Merges two decoded images of identical dimensions into one combined
/// buffer, per the fixed interleave pattern.
pub fn combine_images(image_1: PixelBuffer, image_2: PixelBuffer) -> (r: Vec<u8>)
    requires
        image_1.wf(),
        image_2.wf(),
        image_1.dims() == image_2.dims(),
    ensures
        r@ == interleave_spec(image_1.pixels@, image_2.pixels@),
        r@.len() == image_1.pixels@.len(),
{
    alternative_pixels(image_1.pixels, image_2.pixels)
}

} // verus!
