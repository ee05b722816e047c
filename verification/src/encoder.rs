//! Encoding a finished render as plain-text PPM bytes.

use crate::rendered_image::RenderedImage;
use vstd::prelude::*;

verus! {

/// The decimal digits of a number, most significant first.
pub open spec fn dec_s(n: int) -> Seq<u8>
    decreases n,
{
    if n < 10 {
        seq![(48 + if n >= 0 { n } else { 0 }) as u8]
    } else {
        dec_s(n / 10).push((48 + n % 10) as u8)
    }
}

/// The bytes of one encoded pixel: three decimal channels, spaces between,
/// a line break after.
pub open spec fn pixel_line_s(px: crate::color::Rgb8) -> Seq<u8> {
    dec_s(px.r as int) + seq![32u8] + dec_s(px.g as int) + seq![32u8] + dec_s(px.b as int) + seq![
        10u8,
    ]
}

/// The bytes of the encoded pixels up to position `i`.
pub open spec fn pixel_lines_s(pixels: Seq<crate::color::Rgb8>, i: int) -> Seq<u8>
    decreases i,
{
    if i <= 0 {
        Seq::empty()
    } else {
        pixel_lines_s(pixels, i - 1) + pixel_line_s(pixels[i - 1])
    }
}

/// The PPM header: the magic line, the dimensions, the color depth.
pub open spec fn ppm_header_s(width: int, height: int, max_color: int) -> Seq<u8> {
    seq![80u8, 51u8, 10u8] + dec_s(width) + seq![32u8] + dec_s(height) + seq![10u8] + dec_s(
        max_color,
    ) + seq![10u8]
}

/// The whole PPM encoding of an image.
pub open spec fn ppm_s(image: &RenderedImage, max_color: int) -> Seq<u8> {
    ppm_header_s(image.dimensions.width as int, image.dimensions.height as int, max_color)
        + pixel_lines_s(image.pixels@, image.pixels@.len() as int)
}

/// An encoder of finished renders into one image file format.
pub trait RenderedImageEncoder {
    /// The bytes the encoder produces, at the mathematical level.
    spec fn encode_spec(&self, image: &RenderedImage) -> Seq<u8>;

    /// The encoded bytes of the image.
    fn encode(&self, image: &RenderedImage) -> (r: Vec<u8>)
        ensures
            r@ == self.encode_spec(image),
    ;
}

/// The plain-text PPM encoder.
pub struct PpmEncoder {
    pub max_color: u8,
}

impl PpmEncoder {
    /// An encoder writing the given color depth into the header.
    pub fn new(max_color: u8) -> (r: PpmEncoder)
        ensures
            r.max_color == max_color,
    {
        PpmEncoder { max_color }
    }
}

/// Append the decimal digits of a number.
fn push_decimal(out: &mut Vec<u8>, n: u32)
    ensures
        final(out)@ == old(out)@ + dec_s(n as int),
    decreases n,
{
    if n < 10 {
        out.push(48 + (n as u8));
        proof {
            assert(old(out)@.push((48 + n) as u8) =~= old(out)@ + dec_s(n as int));
        }
    } else {
        let q = n / 10;
        let digit = n % 10;
        push_decimal(out, q);
        out.push(48 + (digit as u8));
        proof {
            assert((old(out)@ + dec_s(q as int)).push((48 + digit) as u8) =~= old(out)@ + dec_s(
                n as int,
            ));
        }
    }
}

impl RenderedImageEncoder for PpmEncoder {
    open spec fn encode_spec(&self, image: &RenderedImage) -> Seq<u8> {
        ppm_s(image, self.max_color as int)
    }

    /// The PPM bytes: header, then one line of three decimal channels per
    /// pixel, rows from the top.
    fn encode(&self, image: &RenderedImage) -> (r: Vec<u8>) {
        let ghost pixels = image.pixels@;
        let mut out: Vec<u8> = Vec::new();
        out.push(80);
        out.push(51);
        out.push(10);
        push_decimal(&mut out, image.dimensions.width);
        out.push(32);
        push_decimal(&mut out, image.dimensions.height);
        out.push(10);
        push_decimal(&mut out, self.max_color as u32);
        out.push(10);
        proof {
            assert(out@ =~= ppm_header_s(
                image.dimensions.width as int,
                image.dimensions.height as int,
                self.max_color as int,
            ));
        }
        let ghost header = out@;

        let mut i: usize = 0;
        while i < image.pixels.len()
            invariant
                i <= pixels.len(),
                pixels == image.pixels@,
                out@ == header + pixel_lines_s(pixels, i as int),
                header == ppm_header_s(
                    image.dimensions.width as int,
                    image.dimensions.height as int,
                    self.max_color as int,
                ),
            decreases pixels.len() - i,
        {
            let px = image.pixels[i];
            let ghost before = out@;
            push_decimal(&mut out, px.r as u32);
            out.push(32);
            push_decimal(&mut out, px.g as u32);
            out.push(32);
            push_decimal(&mut out, px.b as u32);
            out.push(10);
            proof {
                assert(out@ =~= before + pixel_line_s(pixels[i as int]));
                assert(before + pixel_line_s(pixels[i as int]) =~= header + (pixel_lines_s(
                    pixels,
                    i as int,
                ) + pixel_line_s(pixels[i as int])));
                assert(out@ =~= header + pixel_lines_s(pixels, i as int + 1));
            }
            i = i + 1;
        }
        out
    }
}

} // verus!
