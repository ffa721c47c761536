//! The continuous image buffer handed to the engine: a width x height grid
//! of fixed-point RGBA pixels in row-major order, read-only during a
//! conversion.

use vstd::prelude::*;

use crate::fx::{Rgba, ONE};

verus! {

/// Every channel of the pixel lies in the normalized range [0, `ONE`].
pub open spec fn chan_in_range(p: Rgba) -> bool {
    &&& 0 <= p.r <= ONE
    &&& 0 <= p.g <= ONE
    &&& 0 <= p.b <= ONE
    &&& 0 <= p.a <= ONE
}

/// A continuous-color source image.
pub struct ImageBuffer {
    pub width: usize,
    pub height: usize,
    pub pixels: Vec<Rgba>,
}

impl ImageBuffer {
    /// The grid holds exactly width * height pixels, the dimensions fit the
    /// range of decoded image sizes, and every channel is normalized.
    pub open spec fn wf(&self) -> bool {
        &&& self.pixels@.len() == self.width * self.height
        &&& self.width <= 0xffff_ffff
        &&& self.height <= 0xffff_ffff
        &&& forall|i: int|
            0 <= i < self.pixels@.len() ==> chan_in_range(#[trigger] self.pixels@[i])
    }

    /// Builds an image buffer from its parts, refusing mismatched lengths,
    /// oversized dimensions, and out-of-range channels.
    pub fn new(width: usize, height: usize, pixels: Vec<Rgba>) -> (r: Option<ImageBuffer>)
        ensures
            match r {
                Some(img) => {
                    &&& img.wf()
                    &&& img.width == width
                    &&& img.height == height
                    &&& img.pixels@ == pixels@
                },
                None => {
                    ||| pixels@.len() != width * height
                    ||| width > 0xffff_ffff
                    ||| height > 0xffff_ffff
                    ||| exists|i: int|
                        0 <= i < pixels@.len() && !chan_in_range(#[trigger] pixels@[i])
                },
            },
    {
        if width > 0xffff_ffff || height > 0xffff_ffff {
            return None;
        }
        proof {
            assert((width as int) * (height as int) <= 0xffff_ffff * 0xffff_ffff)
                by (nonlinear_arith)
                requires
                    0 <= width <= 0xffff_ffff,
                    0 <= height <= 0xffff_ffff,
            ;
        }
        let expected: u64 = (width as u64) * (height as u64);
        if (pixels.len() as u64) != expected {
            return None;
        }
        let mut i: usize = 0;
        while i < pixels.len()
            invariant
                0 <= i <= pixels@.len(),
                forall|j: int| 0 <= j < i ==> chan_in_range(#[trigger] pixels@[j]),
            decreases pixels@.len() - i,
        {
            let p = pixels[i];
            if p.r < 0 || p.r > ONE || p.g < 0 || p.g > ONE || p.b < 0 || p.b > ONE || p.a < 0
                || p.a > ONE {
                return None;
            }
            i = i + 1;
        }
        Some(ImageBuffer { width, height, pixels })
    }
}

} // verus!
