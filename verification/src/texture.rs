//! Textures: the closed set of color sources a material samples, with one
//! dispatch function and exact accounts of each lookup.

use crate::color::{unit_c, Color, Rgb8, C3};
use crate::fixed;
use crate::fixed::{fmul, funits, sadd, sin_s, smax, smin, ssub, FX_ONE};
use crate::perlin::{perlin_wf, turbulance_s, PerlinNoise, PerlinV};
use crate::rng::Rng;
use crate::vector::{Vec3, V3};
use vstd::prelude::*;

verus! {

/// A constant color.
#[derive(Clone, Copy)]
pub struct SolidColor {
    pub albedo: Color,
}

/// A three-dimensional checker pattern alternating two inner textures by
/// the parity of the floored, scaled position.
pub struct CheckerTexture {
    pub inversed_scale: i64,
    pub even_texture: NonRecursiveTexture,
    pub odd_texture: NonRecursiveTexture,
}

/// A decoded raster sampled by nearest pixel, with clamped and flipped
/// texture coordinates.
pub struct ImageTexture {
    pub width: u32,
    pub height: u32,
    pub pixels: Vec<Rgb8>,
}

/// A gray marble-like pattern: a sine of depth plus turbulence.
pub struct NoiseTexture {
    pub perlin_noise: PerlinNoise,
    pub scale: i64,
    pub turbulance_depth: usize,
    pub turbulance_factor: i64,
}

/// The color sources that may stand inside a checker pattern.
pub enum NonRecursiveTexture {
    SolidColor(SolidColor),
    ImageTexture(ImageTexture),
    NoiseTexture(NoiseTexture),
}

/// The closed set of textures.
pub enum TextureType {
    NonRecursive(NonRecursiveTexture),
    CheckerTexture(CheckerTexture),
}

/// Why a raster cannot serve as a texture.
#[derive(Clone, Copy, PartialEq, Eq, Structural, Debug)]
pub enum ImageTextureError {
    EmptyImage,
    WrongPixelCount,
}

/// Mathematical value of a raster texture.
pub ghost struct ImageV {
    pub width: int,
    pub height: int,
    pub pixels: Seq<Rgb8>,
}

/// Mathematical value of a noise texture.
pub ghost struct NoiseV {
    pub perlin: PerlinV,
    pub scale: int,
    pub turbulance_depth: nat,
    pub turbulance_factor: int,
}

/// Mathematical value of a checker texture.
pub ghost struct CheckerV {
    pub inversed_scale: int,
    pub even_texture: NrV,
    pub odd_texture: NrV,
}

/// Mathematical value of a non-recursive texture.
pub ghost enum NrV {
    Solid(C3),
    Image(ImageV),
    Noise(NoiseV),
}

/// Mathematical value of a texture.
pub ghost enum TexV {
    Nr(NrV),
    Checker(CheckerV),
}

impl View for ImageTexture {
    type V = ImageV;

    open spec fn view(&self) -> ImageV {
        ImageV { width: self.width as int, height: self.height as int, pixels: self.pixels@ }
    }
}

impl View for NoiseTexture {
    type V = NoiseV;

    open spec fn view(&self) -> NoiseV {
        NoiseV {
            perlin: self.perlin_noise@,
            scale: self.scale as int,
            turbulance_depth: self.turbulance_depth as nat,
            turbulance_factor: self.turbulance_factor as int,
        }
    }
}

impl View for NonRecursiveTexture {
    type V = NrV;

    open spec fn view(&self) -> NrV {
        match self {
            NonRecursiveTexture::SolidColor(s) => NrV::Solid(s.albedo@),
            NonRecursiveTexture::ImageTexture(im) => NrV::Image(im@),
            NonRecursiveTexture::NoiseTexture(n) => NrV::Noise(n@),
        }
    }
}

impl View for CheckerTexture {
    type V = CheckerV;

    open spec fn view(&self) -> CheckerV {
        CheckerV {
            inversed_scale: self.inversed_scale as int,
            even_texture: self.even_texture@,
            odd_texture: self.odd_texture@,
        }
    }
}

impl View for TextureType {
    type V = TexV;

    open spec fn view(&self) -> TexV {
        match self {
            TextureType::NonRecursive(n) => TexV::Nr(n@),
            TextureType::CheckerTexture(c) => TexV::Checker(c@),
        }
    }
}

/// A raster is usable when it has pixels and exactly one per cell.
pub open spec fn image_wf(im: ImageV) -> bool {
    im.width > 0 && im.height > 0 && im.pixels.len() == im.width * im.height
}

/// A usable non-recursive texture: colors within `[0, 1]`, rasters laid out
/// right, noise tables complete.
pub open spec fn nr_wf(t: NrV) -> bool {
    match t {
        NrV::Solid(c) => unit_c(c),
        NrV::Image(im) => image_wf(im),
        NrV::Noise(n) => perlin_wf(n.perlin),
    }
}

/// A usable texture.
pub open spec fn tex_wf(t: TexV) -> bool {
    match t {
        TexV::Nr(n) => nr_wf(n),
        TexV::Checker(c) => nr_wf(c.even_texture) && nr_wf(c.odd_texture),
    }
}

/// The raster lookup: coordinates clamped into `[0, 1]`, the vertical one
/// flipped, spread over the pixel grid and clamped to its edge; channels
/// scale from 255 levels to `[0, 1]`.
pub open spec fn image_color_s(im: ImageV, u: int, v: int) -> C3 {
    let s = FX_ONE as int;
    let uc = smax(smin(u, s), 0);
    let vc = ssub(s, smax(smin(v, s), 0));
    let x = smin((uc * im.width) / s, im.width - 1);
    let y = smin((vc * im.height) / s, im.height - 1);
    let px = im.pixels[y * im.width + x];
    C3 {
        r: (px.r * s) / 255,
        g: (px.g * s) / 255,
        b: (px.b * s) / 255,
    }
}

/// The noise lookup: a gray level driven by a sine of scaled depth plus
/// weighted turbulence, always within `[0, 1]`.
pub open spec fn noise_color_s(n: NoiseV, pos: V3) -> C3 {
    let arg = sadd(
        fmul(n.scale, pos.z),
        fmul(n.turbulance_factor, turbulance_s(n.perlin, pos, n.turbulance_depth)),
    );
    let level = fmul((FX_ONE as int) / 2, sadd(sin_s(arg), FX_ONE as int));
    C3 { r: level, g: level, b: level }
}

/// The lookup of a non-recursive texture.
pub open spec fn nr_color_s(t: NrV, u: int, v: int, pos: V3) -> C3 {
    match t {
        NrV::Solid(c) => c,
        NrV::Image(im) => image_color_s(im, u, v),
        NrV::Noise(n) => noise_color_s(n, pos),
    }
}

/// The lookup of any texture: a checker picks one of its two inner textures
/// by the parity of the floored, scaled position.
pub open spec fn tex_color_s(t: TexV, u: int, v: int, pos: V3) -> C3 {
    match t {
        TexV::Nr(n) => nr_color_s(n, u, v, pos),
        TexV::Checker(c) => {
            let x = funits(fmul(pos.x, c.inversed_scale));
            let y = funits(fmul(pos.y, c.inversed_scale));
            let z = funits(fmul(pos.z, c.inversed_scale));
            let is_even = sadd(sadd(x, y), z) % 2 == 0;
            if is_even {
                nr_color_s(c.even_texture, u, v, pos)
            } else {
                nr_color_s(c.odd_texture, u, v, pos)
            }
        },
    }
}

/// A channel spread from 255 levels stays within `[0, 1]`.
proof fn lemma_channel_unit(c: int)
    requires
        0 <= c <= 255,
    ensures
        0 <= (c * (FX_ONE as int)) / 255 <= FX_ONE as int,
{
    fixed::lemma_scaled_div_le(c, 255, FX_ONE as int);
    vstd::arithmetic::div_mod::lemma_div_is_ordered(
        c * (FX_ONE as int),
        255 * (FX_ONE as int),
        255,
    );
    vstd::arithmetic::mul::lemma_mul_inequality(c, 255, FX_ONE as int);
    vstd::arithmetic::div_mod::lemma_div_multiples_vanish(FX_ONE as int, 255);
    assert(255 * (FX_ONE as int) == (FX_ONE as int) * 255) by (nonlinear_arith);
    vstd::arithmetic::mul::lemma_mul_nonnegative(c, FX_ONE as int);
    vstd::arithmetic::div_mod::lemma_div_pos_is_pos(c * (FX_ONE as int), 255);
}

/// The gray blend of a sine value stays within `[0, 1]`.
proof fn lemma_half_blend_unit(x: int)
    requires
        0 <= x <= 2 * (FX_ONE as int),
    ensures
        0 <= fmul((FX_ONE as int) / 2, x) <= FX_ONE as int,
{
    let half = (FX_ONE as int) / 2;
    assert(half == 32768);
    vstd::arithmetic::mul::lemma_mul_nonnegative(half, x);
    vstd::arithmetic::div_mod::lemma_div_pos_is_pos(half * x, FX_ONE as int);
    vstd::arithmetic::mul::lemma_mul_inequality(x, 2 * (FX_ONE as int), half);
    assert(half * x == x * half) by (nonlinear_arith);
    assert((2 * (FX_ONE as int)) * half == (FX_ONE as int) * (FX_ONE as int)) by (nonlinear_arith)
        requires
            half == 32768,
    ;
    vstd::arithmetic::div_mod::lemma_div_is_ordered(
        half * x,
        (FX_ONE as int) * (FX_ONE as int),
        FX_ONE as int,
    );
    vstd::arithmetic::div_mod::lemma_div_multiples_vanish(FX_ONE as int, FX_ONE as int);
    assert((FX_ONE as int) * (FX_ONE as int) / (FX_ONE as int) == FX_ONE as int);
}

/// Every lookup of a usable texture lands in `[0, 1]` on every channel.
pub proof fn lemma_tex_color_unit(t: TexV, u: int, v: int, pos: V3)
    requires
        tex_wf(t),
    ensures
        unit_c(tex_color_s(t, u, v, pos)),
{
    match t {
        TexV::Nr(n) => {
            lemma_nr_color_unit(n, u, v, pos);
        },
        TexV::Checker(c) => {
            lemma_nr_color_unit(c.even_texture, u, v, pos);
            lemma_nr_color_unit(c.odd_texture, u, v, pos);
        },
    }
}

/// Every lookup of a usable non-recursive texture lands in `[0, 1]`.
pub proof fn lemma_nr_color_unit(t: NrV, u: int, v: int, pos: V3)
    requires
        nr_wf(t),
    ensures
        unit_c(nr_color_s(t, u, v, pos)),
{
    match t {
        NrV::Solid(_) => {},
        NrV::Image(im) => {
            let s = FX_ONE as int;
            let uc = smax(smin(u, s), 0);
            let vc = ssub(s, smax(smin(v, s), 0));
            let x = smin((uc * im.width) / s, im.width - 1);
            let y = smin((vc * im.height) / s, im.height - 1);
            lemma_image_index(im, x, y);
            let px = im.pixels[y * im.width + x];
            lemma_channel_unit(px.r as int);
            lemma_channel_unit(px.g as int);
            lemma_channel_unit(px.b as int);
        },
        NrV::Noise(n) => {
            let arg = sadd(
                fmul(n.scale, pos.z),
                fmul(n.turbulance_factor, turbulance_s(n.perlin, pos, n.turbulance_depth)),
            );
            lemma_half_blend_unit(sadd(sin_s(arg), FX_ONE as int));
        },
    }
}

/// Clamped raster coordinates index inside the pixel array.
proof fn lemma_image_index(im: ImageV, x: int, y: int)
    requires
        image_wf(im),
        0 <= x < im.width,
        0 <= y < im.height,
    ensures
        0 <= y * im.width + x < im.pixels.len(),
{
    assert(y * im.width + x < im.height * im.width) by (nonlinear_arith)
        requires
            0 <= x < im.width,
            0 <= y < im.height,
    ;
    assert(im.height * im.width == im.width * im.height) by (nonlinear_arith);
    vstd::arithmetic::mul::lemma_mul_nonnegative(y, im.width);
}

impl SolidColor {
    /// A constant texture of the given color.
    pub fn new(albedo: Color) -> (r: SolidColor)
        ensures
            r.albedo == albedo,
    {
        SolidColor { albedo }
    }

    /// The constant color, everywhere.
    pub fn color_at(&self, u: i64, v: i64, p: &Vec3) -> (r: Color)
        ensures
            r@ == nr_color_s(NrV::Solid(self.albedo@), u as int, v as int, p@),
    {
        self.albedo
    }
}

impl CheckerTexture {
    /// A checker of the given cell size alternating two inner textures.
    pub fn new(scale: i64, even_texture: NonRecursiveTexture, odd_texture: NonRecursiveTexture) -> (r:
        CheckerTexture)
        requires
            scale != 0,
        ensures
            r.inversed_scale as int == fixed::fdiv(FX_ONE as int, scale as int),
            r.even_texture@ == even_texture@,
            r.odd_texture@ == odd_texture@,
    {
        CheckerTexture {
            inversed_scale: fixed::fx_div(FX_ONE, scale),
            even_texture,
            odd_texture,
        }
    }

    /// The inner texture picked by the parity of the scaled cell.
    pub fn color_at(&self, u: i64, v: i64, p: &Vec3) -> (r: Color)
        requires
            tex_wf(TexV::Checker(self@)),
        ensures
            r@ == tex_color_s(TexV::Checker(self@), u as int, v as int, p@),
            unit_c(r@),
    {
        proof {
            lemma_tex_color_unit(TexV::Checker(self@), u as int, v as int, p@);
        }
        let x = fixed::fx_floor_units(fixed::fx_mul(p.x, self.inversed_scale));
        let y = fixed::fx_floor_units(fixed::fx_mul(p.y, self.inversed_scale));
        let z = fixed::fx_floor_units(fixed::fx_mul(p.z, self.inversed_scale));
        let is_even = fixed::fx_even(fixed::fx_add(fixed::fx_add(x, y), z));
        if is_even {
            self.even_texture.color_at(u, v, p)
        } else {
            self.odd_texture.color_at(u, v, p)
        }
    }
}

impl ImageTexture {
    /// A raster texture over a decoded image: the pixels row by row from
    /// the top, exactly one per cell of the given size. An empty image, or
    /// a pixel count that does not match, is rejected.
    pub fn new(width: u32, height: u32, pixels: Vec<Rgb8>) -> (r: Result<
        ImageTexture,
        ImageTextureError,
    >)
        ensures
            match r {
                Ok(t) => t@.width == width as int && t@.height == height as int && t@.pixels
                    == pixels@ && image_wf(t@),
                Err(ImageTextureError::EmptyImage) => width == 0 || height == 0,
                Err(ImageTextureError::WrongPixelCount) => width > 0 && height > 0 && pixels@.len()
                    != width as int * height as int,
            },
            r is Ok <==> (width > 0 && height > 0 && pixels@.len() == width as int * height as int),
    {
        if width == 0 || height == 0 {
            return Err(ImageTextureError::EmptyImage);
        }
        proof {
            assert((width as int) * (height as int) <= 0xFFFF_FFFF * 0xFFFF_FFFF)
                by (nonlinear_arith)
                requires
                    0 <= width as int <= 0xFFFF_FFFF,
                    0 <= height as int <= 0xFFFF_FFFF,
            ;
        }
        let expected = (width as u64) * (height as u64);
        if pixels.len() as u64 != expected {
            return Err(ImageTextureError::WrongPixelCount);
        }
        Ok(ImageTexture { width, height, pixels })
    }

    /// The nearest raster pixel under the clamped, flipped coordinates.
    pub fn color_at(&self, u: i64, v: i64, _p: &Vec3) -> (r: Color)
        requires
            image_wf(self@),
        ensures
            r@ == image_color_s(self@, u as int, v as int),
            unit_c(r@),
    {
        let s = FX_ONE;
        let uc = fixed::fx_clamp(u, 0, s);
        let vc = fixed::fx_sub(s, fixed::fx_clamp(v, 0, s));
        proof {
            fixed::lemma_scaled_div_le(uc as int, s as int, self.width as int);
            fixed::lemma_scaled_div_le(vc as int, s as int, self.height as int);
        }
        let x_raw = ((uc as u64) * (self.width as u64) / (s as u64)) as u32;
        let y_raw = ((vc as u64) * (self.height as u64) / (s as u64)) as u32;
        let x = if x_raw > self.width - 1 {
            self.width - 1
        } else {
            x_raw
        };
        let y = if y_raw > self.height - 1 {
            self.height - 1
        } else {
            y_raw
        };
        proof {
            lemma_image_index(self@, x as int, y as int);
            lemma_nr_color_unit(NrV::Image(self@), u as int, v as int, _p@);
            assert((y as int) * (self.width as int) + (x as int) < 0x1_0000_0000_0000_0000)
                by (nonlinear_arith)
                requires
                    0 <= (x as int) < 0x1_0000_0000,
                    0 <= (y as int) < 0x1_0000_0000,
                    self.width as int <= 0xFFFF_FFFF,
            ;
        }
        let count = self.pixels.len();
        let idx = (y as u64) * (self.width as u64) + (x as u64);
        proof {
            assert(idx as int == (y as int) * (self.width as int) + (x as int));
            assert(idx < count);
        }
        let px = self.pixels[idx as usize];
        Color {
            r: ((px.r as u64) * (s as u64) / 255) as i64,
            g: ((px.g as u64) * (s as u64) / 255) as i64,
            b: ((px.b as u64) * (s as u64) / 255) as i64,
        }
    }
}

impl NoiseTexture {
    /// The preset octave count of the turbulence.
    pub const DEFAULT_TURBULANCE_DEPTH: usize = 7;

    /// The preset weight of the turbulence.
    pub const DEFAULT_TURBULANCE_FACTOR: i64 = 655360;

    /// A marble-like texture of the given scale with the preset turbulence.
    pub fn new(scale: i64, rng: &mut Rng) -> (r: NoiseTexture)
        ensures
            perlin_wf(r@.perlin),
            r@.scale == scale as int,
            r@.turbulance_depth == 7,
            r@.turbulance_factor == 655360,
    {
        NoiseTexture {
            perlin_noise: PerlinNoise::new(rng),
            scale,
            turbulance_depth: Self::DEFAULT_TURBULANCE_DEPTH,
            turbulance_factor: Self::DEFAULT_TURBULANCE_FACTOR,
        }
    }

    /// A marble-like texture with the turbulence dialed by hand.
    pub fn with_turbulance_params(
        scale: i64,
        turbulance_depth: usize,
        turbulance_factor: i64,
        rng: &mut Rng,
    ) -> (r: NoiseTexture)
        ensures
            perlin_wf(r@.perlin),
            r@.scale == scale as int,
            r@.turbulance_depth == turbulance_depth as nat,
            r@.turbulance_factor == turbulance_factor as int,
    {
        NoiseTexture {
            perlin_noise: PerlinNoise::new(rng),
            scale,
            turbulance_depth,
            turbulance_factor,
        }
    }

    /// The gray level at a point.
    pub fn color_at(&self, _u: i64, _v: i64, p: &Vec3) -> (r: Color)
        requires
            perlin_wf(self@.perlin),
        ensures
            r@ == noise_color_s(self@, p@),
            unit_c(r@),
    {
        let turb = self.perlin_noise.turbulance(p, self.turbulance_depth);
        let arg = fixed::fx_add(
            fixed::fx_mul(self.scale, p.z),
            fixed::fx_mul(self.turbulance_factor, turb),
        );
        let level = fixed::fx_mul(FX_ONE / 2, fixed::fx_add(fixed::fx_sin(arg), FX_ONE));
        proof {
            lemma_half_blend_unit(sadd(sin_s(arg as int), FX_ONE as int));
        }
        Color { r: level, g: level, b: level }
    }
}

impl NonRecursiveTexture {
    /// The lookup of whichever texture this is.
    pub fn color_at(&self, u: i64, v: i64, p: &Vec3) -> (r: Color)
        requires
            nr_wf(self@),
        ensures
            r@ == nr_color_s(self@, u as int, v as int, p@),
            unit_c(r@),
    {
        proof {
            lemma_nr_color_unit(self@, u as int, v as int, p@);
        }
        match self {
            NonRecursiveTexture::SolidColor(solid_color) => solid_color.color_at(u, v, p),
            NonRecursiveTexture::ImageTexture(image_texture) => image_texture.color_at(u, v, p),
            NonRecursiveTexture::NoiseTexture(noise_texture) => noise_texture.color_at(u, v, p),
        }
    }
}

impl TextureType {
    /// The lookup of whichever texture this is.
    pub fn color_at(&self, u: i64, v: i64, p: &Vec3) -> (r: Color)
        requires
            tex_wf(self@),
        ensures
            r@ == tex_color_s(self@, u as int, v as int, p@),
            unit_c(r@),
    {
        match self {
            TextureType::NonRecursive(non_recursive_texture) => non_recursive_texture.color_at(
                u,
                v,
                p,
            ),
            TextureType::CheckerTexture(checker_texture) => checker_texture.color_at(u, v, p),
        }
    }
}

impl From<NonRecursiveTexture> for TextureType {
    fn from(value: NonRecursiveTexture) -> (r: TextureType) {
        TextureType::NonRecursive(value)
    }
}

impl vstd::std_specs::convert::FromSpecImpl<NonRecursiveTexture> for TextureType {
    open spec fn obeys_from_spec() -> bool {
        true
    }

    open spec fn from_spec(value: NonRecursiveTexture) -> TextureType {
        TextureType::NonRecursive(value)
    }
}

impl From<CheckerTexture> for TextureType {
    fn from(value: CheckerTexture) -> (r: TextureType) {
        TextureType::CheckerTexture(value)
    }
}

impl vstd::std_specs::convert::FromSpecImpl<CheckerTexture> for TextureType {
    open spec fn obeys_from_spec() -> bool {
        true
    }

    open spec fn from_spec(value: CheckerTexture) -> TextureType {
        TextureType::CheckerTexture(value)
    }
}

impl From<SolidColor> for TextureType {
    fn from(value: SolidColor) -> (r: TextureType) {
        TextureType::NonRecursive(NonRecursiveTexture::SolidColor(value))
    }
}

impl vstd::std_specs::convert::FromSpecImpl<SolidColor> for TextureType {
    open spec fn obeys_from_spec() -> bool {
        true
    }

    open spec fn from_spec(value: SolidColor) -> TextureType {
        TextureType::NonRecursive(NonRecursiveTexture::SolidColor(value))
    }
}

impl From<ImageTexture> for TextureType {
    fn from(value: ImageTexture) -> (r: TextureType) {
        TextureType::NonRecursive(NonRecursiveTexture::ImageTexture(value))
    }
}

impl vstd::std_specs::convert::FromSpecImpl<ImageTexture> for TextureType {
    open spec fn obeys_from_spec() -> bool {
        true
    }

    open spec fn from_spec(value: ImageTexture) -> TextureType {
        TextureType::NonRecursive(NonRecursiveTexture::ImageTexture(value))
    }
}

impl From<NoiseTexture> for TextureType {
    fn from(value: NoiseTexture) -> (r: TextureType) {
        TextureType::NonRecursive(NonRecursiveTexture::NoiseTexture(value))
    }
}

impl vstd::std_specs::convert::FromSpecImpl<NoiseTexture> for TextureType {
    open spec fn obeys_from_spec() -> bool {
        true
    }

    open spec fn from_spec(value: NoiseTexture) -> TextureType {
        TextureType::NonRecursive(NonRecursiveTexture::NoiseTexture(value))
    }
}

impl From<SolidColor> for NonRecursiveTexture {
    fn from(value: SolidColor) -> (r: NonRecursiveTexture) {
        NonRecursiveTexture::SolidColor(value)
    }
}

impl vstd::std_specs::convert::FromSpecImpl<SolidColor> for NonRecursiveTexture {
    open spec fn obeys_from_spec() -> bool {
        true
    }

    open spec fn from_spec(value: SolidColor) -> NonRecursiveTexture {
        NonRecursiveTexture::SolidColor(value)
    }
}

impl From<ImageTexture> for NonRecursiveTexture {
    fn from(value: ImageTexture) -> (r: NonRecursiveTexture) {
        NonRecursiveTexture::ImageTexture(value)
    }
}

impl vstd::std_specs::convert::FromSpecImpl<ImageTexture> for NonRecursiveTexture {
    open spec fn obeys_from_spec() -> bool {
        true
    }

    open spec fn from_spec(value: ImageTexture) -> NonRecursiveTexture {
        NonRecursiveTexture::ImageTexture(value)
    }
}

impl From<NoiseTexture> for NonRecursiveTexture {
    fn from(value: NoiseTexture) -> (r: NonRecursiveTexture) {
        NonRecursiveTexture::NoiseTexture(value)
    }
}

impl vstd::std_specs::convert::FromSpecImpl<NoiseTexture> for NonRecursiveTexture {
    open spec fn obeys_from_spec() -> bool {
        true
    }

    open spec fn from_spec(value: NoiseTexture) -> NonRecursiveTexture {
        NonRecursiveTexture::NoiseTexture(value)
    }
}

} // verus!
