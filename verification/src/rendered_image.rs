//! The output raster: dimensions, the pixel buffer, and its byte layout.

use crate::color::Rgb8;
use crate::fixed::FX_ONE;
use vstd::prelude::*;

verus! {

/// Width and height of the output image, in pixels.
#[derive(Clone, Copy, PartialEq, Eq, Structural, Debug)]
pub struct Dimensions {
    pub width: u32,
    pub height: u32,
}

/// The derived height for a width and an aspect ratio: the quotient,
/// floored, never less than one, and capped at the pixel type's range.
pub open spec fn from_width_s(width: int, aspect_ratio: int) -> int {
    let h = (width * (FX_ONE as int)) / aspect_ratio;
    if h < 1 {
        1
    } else if h > 0xFFFF_FFFF {
        0xFFFF_FFFF
    } else {
        h
    }
}

impl Dimensions {
    /// Dimensions derived from a width and a positive aspect ratio.
    pub fn from_width(width: u32, aspect_ratio: i64) -> (r: Dimensions)
        requires
            aspect_ratio > 0,
        ensures
            r.width == width,
            r.height as int == from_width_s(width as int, aspect_ratio as int),
    {
        proof {
            assert((width as int) * (FX_ONE as int) <= 0xFFFF_FFFF_0000_0000) by (nonlinear_arith)
                requires
                    0 <= (width as int) <= 0xFFFF_FFFF,
            ;
        }
        let scaled = (width as u64) * (FX_ONE as u64);
        let h = scaled / (aspect_ratio as u64);
        proof {
            vstd::arithmetic::div_mod::lemma_div_pos_is_pos(scaled as int, aspect_ratio as int);
        }
        let height = if h < 1 {
            1
        } else if h > 0xFFFF_FFFF {
            0xFFFF_FFFFu64 as u32
        } else {
            h as u32
        };
        Dimensions { width, height }
    }

    /// The width-to-height ratio as a fixed-point scalar.
    pub fn ratio(&self) -> (r: i64)
        requires
            self.height > 0,
        ensures
            r as int == ((self.width as int) * (FX_ONE as int)) / (self.height as int),
    {
        proof {
            assert((self.width as int) * (FX_ONE as int) <= 0xFFFF_FFFF_0000_0000)
                by (nonlinear_arith)
                requires
                    0 <= (self.width as int) <= 0xFFFF_FFFF,
            ;
        }
        let scaled = (self.width as u64) * (FX_ONE as u64);
        let q = scaled / (self.height as u64);
        proof {
            vstd::arithmetic::div_mod::lemma_div_pos_is_pos(scaled as int, self.height as int);
            vstd::arithmetic::div_mod::lemma_div_is_ordered(
                scaled as int,
                0xFFFF_FFFF_0000_FFFF,
                self.height as int,
            );
        }
        q as i64
    }

    /// How many pixels the image holds.
    pub fn all_elements(&self) -> (r: u32)
        requires
            (self.width as int) * (self.height as int) <= 0xFFFF_FFFF,
        ensures
            r as int == (self.width as int) * (self.height as int),
    {
        proof {
            vstd::arithmetic::mul::lemma_mul_nonnegative(self.width as int, self.height as int);
        }
        (((self.width as u64) * (self.height as u64))) as u32
    }
}

/// Why a pixel buffer cannot serve as an image.
#[derive(Clone, Copy, PartialEq, Eq, Structural, Debug)]
pub enum RenderedImageError {
    PixelCountMismatch,
}

/// A finished render: all pixels, row by row from the top.
pub struct RenderedImage {
    pub pixels: Vec<Rgb8>,
    pub dimensions: Dimensions,
}

impl RenderedImage {
    /// An image over the given pixels, which must fill the dimensions
    /// exactly.
    pub fn new(pixels: Vec<Rgb8>, dimensions: Dimensions) -> (r: Result<
        RenderedImage,
        RenderedImageError,
    >)
        ensures
            r is Ok <==> pixels@.len() == (dimensions.width as int) * (dimensions.height as int),
            r matches Ok(im) ==> im.pixels@ == pixels@ && im.dimensions == dimensions,
            r is Err ==> r == Err::<RenderedImage, RenderedImageError>(
                RenderedImageError::PixelCountMismatch,
            ),
    {
        proof {
            vstd::arithmetic::mul::lemma_mul_nonnegative(
                dimensions.width as int,
                dimensions.height as int,
            );
            assert((dimensions.width as int) * (dimensions.height as int) < 0x1_0000_0000_0000_0000)
                by (nonlinear_arith)
                requires
                    0 <= (dimensions.width as int) <= 0xFFFF_FFFF,
                    0 <= (dimensions.height as int) <= 0xFFFF_FFFF,
            ;
        }
        let expected = (dimensions.width as u64) * (dimensions.height as u64);
        if (pixels.len() as u64) != expected {
            return Err(RenderedImageError::PixelCountMismatch);
        }
        Ok(RenderedImage { pixels, dimensions })
    }

    /// The pixel bytes, row by row: three bytes per pixel, red first.
    pub fn as_bytes(&self) -> (r: Vec<u8>)
        ensures
            r@.len() == 3 * self.pixels@.len(),
            forall|i: int|
                0 <= i < self.pixels@.len() ==> {
                    &&& r@[3 * i] == #[trigger] self.pixels@[i].r
                    &&& r@[3 * i + 1] == self.pixels@[i].g
                    &&& r@[3 * i + 2] == self.pixels@[i].b
                },
    {
        let mut out: Vec<u8> = Vec::new();
        let mut i: usize = 0;
        while i < self.pixels.len()
            invariant
                i <= self.pixels@.len(),
                out@.len() == 3 * i,
                forall|k: int|
                    0 <= k < i ==> {
                        &&& out@[3 * k] == #[trigger] self.pixels@[k].r
                        &&& out@[3 * k + 1] == self.pixels@[k].g
                        &&& out@[3 * k + 2] == self.pixels@[k].b
                    },
            decreases self.pixels@.len() - i,
        {
            let px = self.pixels[i];
            out.push(px.r);
            out.push(px.g);
            out.push(px.b);
            i = i + 1;
        }
        out
    }
}

} // verus!
