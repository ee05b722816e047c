//! The path-tracing integrator: per-pixel jittered rays, recursive bounces
//! bounded by a depth budget, averaging, gamma, and quantization.

use crate::bvh::{bvh_hit_s, bvh_no_medium};
use crate::color::{Color, Rgb8, C3};
use crate::extensions::RgbLinearToGammaExtension;
use crate::fixed;
use crate::fixed::{FX_MAX, FX_ONE};
use crate::interval::Interval;
use crate::material::MatV;
use crate::object::hittable_object::HitRecord;
use crate::ray::Ray;
use crate::rendered_image::{Dimensions, RenderedImage};
use crate::rng::Rng;
use crate::scene::{options_wf, SceneContent, SceneOptions};
use crate::texture::tex_color_s;
use crate::vector::Vec3;
use vstd::prelude::*;

verus! {

/// The parametric guard below which hits are ignored, so a bounced ray does
/// not immediately meet the surface it starts on: about a thousandth.
pub const T_MIN_GUARD: i64 = 66;

/// The camera and integrator. The per-pixel ray basis (the upper-left pixel
/// position, the pixel steps, the defocus disk) is supplied ready-made:
/// deriving it from a field of view is plain trigonometry for the caller.
pub struct Camera {
    pub width: u32,
    pub dimensions: Dimensions,
    pub center: Vec3,
    pub samples_per_pixel: u32,
    /// The reciprocal of `samples_per_pixel`, as a scalar.
    pub pixel_samples_scale: i64,
    pub upper_left_pixel_pos: Vec3,
    pub pixel_delta_horizontal: Vec3,
    pub pixel_delta_vertical: Vec3,
    pub max_bounce_depth: u32,
    /// Positive when depth of field is on.
    pub defocus_angle: i64,
    pub defocus_disk_horizontal: Vec3,
    pub defocus_disk_vertical: Vec3,
}

/// All channels at least zero: radiance is never negative.
pub open spec fn nonneg_c(c: C3) -> bool {
    0 <= c.r && 0 <= c.g && 0 <= c.b
}

impl Camera {
    /// A jitter within one pixel's footprint.
    fn sample_square(rng: &mut Rng) -> (r: Vec3)
        ensures
            r.z == 0,
    {
        let f1 = rng.next_unit();
        let f2 = rng.next_unit();
        Vec3 { x: f1 - FX_ONE / 2, y: f2 - FX_ONE / 2, z: 0 }
    }

    /// A random origin on the defocus disk around the camera center.
    fn defocus_disk_sample(&self, rng: &mut Rng) -> (r: Vec3) {
        let p = rng.random_unit_vector2_in_disk();
        self.center.add(&self.defocus_disk_horizontal.scale(p.x)).add(
            &self.defocus_disk_vertical.scale(p.y),
        )
    }

    /// A ray from the camera (or its defocus disk) through a random point
    /// within the pixel at `(pixel_x, pixel_y)`, at a random moment of the
    /// exposure.
    fn create_ray_around_pixel(&self, pixel_x: u32, pixel_y: u32, rng: &mut Rng) -> (r: Ray) {
        let offset = Self::sample_square(rng);

        let pixel = self.upper_left_pixel_pos.add(
            &self.pixel_delta_horizontal.scale(
                fixed::fx_add((pixel_x as i64) * FX_ONE, offset.x),
            ),
        ).add(&self.pixel_delta_vertical.scale(fixed::fx_add((pixel_y as i64) * FX_ONE, offset.y)));

        let ray_origin = if self.defocus_angle <= 0 {
            self.center
        } else {
            self.defocus_disk_sample(rng)
        };

        let ray_direction = pixel.sub(&ray_origin);
        let ray_time = rng.next_unit();

        Ray::new(ray_origin, ray_direction, ray_time)
    }

    /// The radiance a ray gathers. At the depth budget the path ends black;
    /// a ray that leaves the scene brings the background; a hit adds what
    /// the material emits to its attenuation of the bounced radiance, and
    /// an absorbed path ends with the emission alone. Radiance is never
    /// negative on any channel. For a scene without media the world query
    /// is a pure function of the ray, so the miss and pure-emission answers
    /// are pinned exactly.
    pub fn calculate_color(
        &self,
        ray: &Ray,
        scene_content: &SceneContent,
        scene_options: &SceneOptions,
        depth: u32,
        rng: &mut Rng,
    ) -> (c: Color)
        requires
            scene_content.wf(),
            options_wf(scene_options),
        ensures
            depth >= self.max_bounce_depth ==> c@ == (C3 { r: 0, g: 0, b: 0 }),
            nonneg_c(c@),
            ({
                let nodes = scene_content.bvh.nodes@;
                let world = bvh_hit_s(nodes, 0, ray@, T_MIN_GUARD as int, FX_MAX as int);
                &&& (depth < self.max_bounce_depth && bvh_no_medium(nodes) && world is None
                    ==> c@ == scene_options.background@)
                &&& (depth < self.max_bounce_depth && bvh_no_medium(nodes) ==> (world matches Some(
                    h,
                ) ==> (0 <= h.material_id < scene_content.materials@.len()
                    ==> (scene_content.materials@[h.material_id]@ matches MatV::DiffuseLight(t)
                    ==> c@ == tex_color_s(t, h.u, h.v, h.pos)))))
            }),
        decreases self.max_bounce_depth - depth,
    {
        if depth >= self.max_bounce_depth {
            return Color::black();
        }

        // The guard below keeps a bounced ray from meeting its own surface.
        let full_range = Interval::new(T_MIN_GUARD, FX_MAX);
        let hit_record = scene_content.bvh.hit(ray, &full_range, rng);
        if let Some(hit_record) = hit_record {
            let material = match scene_content.material_by_id(hit_record.material_id()) {
                Some(m) => m,
                None => {
                    // A hit can only mention an index some leaf carries, and
                    // a usable scene keeps all of those inside the table.
                    proof {
                        lemma_hit_material_in_table(scene_content, &hit_record);
                    }
                    return Color::black();
                },
            };
            let emitted_color = material.emitted(
                hit_record.u(),
                hit_record.v(),
                hit_record.pos(),
            );
            match material.scatter(ray, &hit_record, rng) {
                Some(material_scattering) => {
                    let next_color = self.calculate_color(
                        material_scattering.scattered_ray(),
                        scene_content,
                        scene_options,
                        depth + 1,
                        rng,
                    );
                    let scattered_color = next_color.mul(material_scattering.attenuation());
                    proof {
                        fixed::lemma_fmul_basics(next_color@.r, material_scattering.attenuation@.r);
                        fixed::lemma_fmul_basics(next_color@.g, material_scattering.attenuation@.g);
                        fixed::lemma_fmul_basics(next_color@.b, material_scattering.attenuation@.b);
                    }
                    return scattered_color.add(&emitted_color);
                },
                None => {
                    return emitted_color;
                },
            }
        }

        // The ray left the scene.
        *scene_options.background()
    }

    /// The whole image: for every pixel, from the top row down and left to
    /// right, the average over the sample budget of the gathered radiance,
    /// gamma-corrected and quantized.
    pub fn render(&self, scene_content: &SceneContent, scene_options: &SceneOptions, rng: &mut Rng) -> (r:
        RenderedImage)
        requires
            scene_content.wf(),
            options_wf(scene_options),
            (self.dimensions.width as int) * (self.dimensions.height as int)
                < 0x1_0000_0000_0000_0000,
        ensures
            r.pixels@.len() == (self.dimensions.width as int) * (self.dimensions.height as int),
            r.dimensions == self.dimensions,
            self.max_bounce_depth == 0 ==> forall|k: int|
                0 <= k < r.pixels@.len() ==> r.pixels@[k] == (Rgb8 { r: 0, g: 0, b: 0 }),
    {
        let width = self.dimensions.width;
        let height = self.dimensions.height;
        let mut pixels: Vec<Rgb8> = Vec::new();
        let mut j: u32 = 0;
        while j < height
            invariant
                j <= height,
                pixels@.len() == (j as int) * (width as int),
                self.max_bounce_depth == 0 ==> forall|k: int|
                    0 <= k < pixels@.len() ==> pixels@[k] == (Rgb8 { r: 0, g: 0, b: 0 }),
                scene_content.wf(),
                options_wf(scene_options),
                width == self.dimensions.width,
                height == self.dimensions.height,
                (width as int) * (height as int) < 0x1_0000_0000_0000_0000,
            decreases height - j,
        {
            let mut i: u32 = 0;
            while i < width
                invariant
                    i <= width,
                    j < height,
                    pixels@.len() == (j as int) * (width as int) + (i as int),
                    self.max_bounce_depth == 0 ==> forall|k: int|
                        0 <= k < pixels@.len() ==> pixels@[k] == (Rgb8 { r: 0, g: 0, b: 0 }),
                    scene_content.wf(),
                    options_wf(scene_options),
                    width == self.dimensions.width,
                    height == self.dimensions.height,
                    (width as int) * (height as int) < 0x1_0000_0000_0000_0000,
                decreases width - i,
            {
                proof {
                    assert((j as int) * (width as int) + (i as int) + 1 < 0x1_0000_0000_0000_0000)
                        by (nonlinear_arith)
                        requires
                            0 <= (j as int) < (height as int),
                            0 <= (i as int) < (width as int),
                            (width as int) * (height as int) < 0x1_0000_0000_0000_0000,
                    ;
                }
                let mut accumulated = Color::black();
                let mut sample: u32 = 0;
                while sample < self.samples_per_pixel
                    invariant
                        scene_content.wf(),
                        options_wf(scene_options),
                        j < height,
                        i < width,
                        self.max_bounce_depth == 0 ==> accumulated@ == (C3 { r: 0, g: 0, b: 0 }),
                    decreases self.samples_per_pixel - sample,
                {
                    let ray = self.create_ray_around_pixel(i, j, rng);
                    let color = self.calculate_color(&ray, scene_content, scene_options, 0, rng);
                    accumulated = accumulated.add(&color);
                    sample = sample + 1;
                }
                let averaged = accumulated.scale(self.pixel_samples_scale);
                let pixel = averaged.linear_to_gamma().to_rgb8();
                proof {
                    if self.max_bounce_depth == 0 {
                        fixed::lemma_fmul_basics(0, self.pixel_samples_scale as int);
                        assert(averaged@ == (C3 { r: 0, g: 0, b: 0 }));
                        assert(pixel == (Rgb8 { r: 0, g: 0, b: 0 }));
                    }
                }
                pixels.push(pixel);
                i = i + 1;
            }
            proof {
                assert((j as int) * (width as int) + (width as int) == (j as int + 1) * (
                width as int)) by (nonlinear_arith);
            }
            j = j + 1;
        }
        proof {
            assert((height as int) * (width as int) == (width as int) * (height as int))
                by (nonlinear_arith);
        }
        RenderedImage { pixels, dimensions: self.dimensions }
    }
}

/// A hit's material index always lands inside a usable scene's table.
proof fn lemma_hit_material_in_table(scene_content: &SceneContent, hit_record: &HitRecord)
    requires
        scene_content.wf(),
        crate::bvh::bvh_has_mat(scene_content.bvh.nodes@, hit_record@.material_id),
    ensures
        hit_record@.material_id < scene_content.materials@.len(),
{
    let nodes = scene_content.bvh.nodes@;
    let id = hit_record@.material_id;
    let j = choose|j: int|
        0 <= j < nodes.len() && match #[trigger] nodes[j] {
            crate::bvh::BvhValue::Leaf(l) => crate::object::obj_has_mat(l.object@, id),
            crate::bvh::BvhValue::Node(_) => false,
        };
    match nodes[j] {
        crate::bvh::BvhValue::Leaf(l) => {
            crate::object::lemma_mats_ok_bound(
                l.object@,
                id,
                scene_content.materials@.len() as int,
            );
        },
        crate::bvh::BvhValue::Node(_) => {},
    }
}

} // verus!
