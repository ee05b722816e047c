//! Materials: the closed set of scattering behaviors, each giving an
//! outgoing ray and an attenuation, or absorbing the path.

use crate::color::{unit_c, Color, C3};
use crate::extensions::{reflect_v, refract_v};
use crate::fixed;
use crate::fixed::{fmul, sadd, FX_ONE};
use crate::object::hittable_object::HitRecord;
use crate::ray::Ray;
use crate::ray_generator;
use crate::ray_generator::refract_ratio_s;
use crate::rng::Rng;
use crate::texture::{tex_color_s, tex_wf, TextureType, TexV};
use crate::vector::{add_v, dot_v, normalized_v, Vec3, V3};
use vstd::prelude::*;

verus! {

/// A diffuse surface colored by a texture; it always scatters.
pub struct Lambertian {
    pub texture: TextureType,
}

/// A specular surface with a fuzz radius; grazing fuzzed rays are absorbed.
pub struct Metal {
    pub albedo: Color,
    /// The radius of the random perturbation of the reflected direction;
    /// zero leaves reflections sharp.
    pub fuzziness: i64,
}

/// A clear refractive surface; it always scatters, transmitting everything.
pub struct Dielectric {
    /// Refraction index against vacuum, or the ratio over the enclosing
    /// medium's index when the material sits inside one.
    pub refraction_index: i64,
}

/// A light: it never scatters and emits its texture's color.
pub struct DiffuseLight {
    pub texture: TextureType,
}

/// The phase function of a volume: it scatters uniformly in all directions.
pub struct Isotropic {
    pub texture: TextureType,
}

/// The closed set of materials.
pub enum MaterialType {
    Lambertian(Lambertian),
    Metal(Metal),
    Dielectric(Dielectric),
    DiffuseLight(DiffuseLight),
    Isotropic(Isotropic),
}

/// Mathematical value of a material.
pub ghost enum MatV {
    Lambertian(TexV),
    Metal(C3, int),
    Dielectric(int),
    DiffuseLight(TexV),
    Isotropic(TexV),
}

impl View for MaterialType {
    type V = MatV;

    open spec fn view(&self) -> MatV {
        match self {
            MaterialType::Lambertian(l) => MatV::Lambertian(l.texture@),
            MaterialType::Metal(m) => MatV::Metal(m.albedo@, m.fuzziness as int),
            MaterialType::Dielectric(d) => MatV::Dielectric(d.refraction_index as int),
            MaterialType::DiffuseLight(l) => MatV::DiffuseLight(l.texture@),
            MaterialType::Isotropic(i) => MatV::Isotropic(i.texture@),
        }
    }
}

/// A usable material: textures usable, albedo within `[0, 1]`, fuzz not
/// negative, refraction index positive.
pub open spec fn mat_wf(m: MatV) -> bool {
    match m {
        MatV::Lambertian(t) => tex_wf(t),
        MatV::Metal(albedo, fuzz) => unit_c(albedo) && fuzz >= 0,
        MatV::Dielectric(idx) => idx > 0,
        MatV::DiffuseLight(t) => tex_wf(t),
        MatV::Isotropic(t) => tex_wf(t),
    }
}

/// What a material emits: lights sample their texture, everything else is
/// black.
pub open spec fn emitted_s(m: MatV, u: int, v: int, pos: crate::vector::V3) -> C3 {
    match m {
        MatV::DiffuseLight(t) => tex_color_s(t, u, v, pos),
        _ => C3 { r: 0, g: 0, b: 0 },
    }
}

/// The largest alignment with the normal a fuzz offset can contribute:
/// the fuzz radius spread over the normal's components. A reflection whose
/// own alignment clears this bound survives every draw; one below its
/// negation survives none.
pub open spec fn fuzz_alignment_bound_s(fuzz: int, normal: V3) -> int {
    sadd(
        sadd(fmul(fuzz, fixed::abs_i(normal.x)), fmul(fuzz, fixed::abs_i(normal.y))),
        fmul(fuzz, fixed::abs_i(normal.z)),
    )
}

/// A scattering: the color filter applied to whatever the scattered ray
/// brings back, and the scattered ray itself.
pub struct MaterialScattering {
    pub attenuation: Color,
    pub scattered_ray: Ray,
}

impl MaterialScattering {
    /// A scattering of the given filter and ray.
    pub fn new(attenuation: Color, scattered_ray: Ray) -> (r: MaterialScattering)
        ensures
            r.attenuation == attenuation,
            r.scattered_ray == scattered_ray,
    {
        MaterialScattering { attenuation, scattered_ray }
    }

    /// The color filter.
    pub fn attenuation(&self) -> (r: &Color)
        ensures
            r == &self.attenuation,
    {
        &self.attenuation
    }

    /// The scattered ray.
    pub fn scattered_ray(&self) -> (r: &Ray)
        ensures
            r == &self.scattered_ray,
    {
        &self.scattered_ray
    }
}

impl Lambertian {
    /// A diffuse surface over the given texture.
    pub fn new(texture: TextureType) -> (r: Lambertian)
        ensures
            r.texture@ == texture@,
    {
        Lambertian { texture }
    }

    /// Always scatters: a diffuse bounce filtered by the texture's color at
    /// the hit.
    pub fn scatter(&self, ray: &Ray, hit_record: &HitRecord, rng: &mut Rng) -> (r: Option<
        MaterialScattering,
    >)
        requires
            tex_wf(self.texture@),
        ensures
            r is Some,
            r matches Some(ms) ==> {
                &&& ms.attenuation@ == tex_color_s(
                    self.texture@,
                    hit_record@.u,
                    hit_record@.v,
                    hit_record@.pos,
                )
                &&& unit_c(ms.attenuation@)
                &&& ms.scattered_ray@.origin == hit_record@.pos
                &&& ms.scattered_ray@.time == ray@.time
            },
    {
        let scattered_ray = ray_generator::random_ray_on_hemisphere(ray, hit_record, rng);
        let attenuation = self.texture.color_at(hit_record.u(), hit_record.v(), hit_record.pos());
        Some(MaterialScattering::new(attenuation, scattered_ray))
    }
}

impl Metal {
    /// A specular surface of the given color and fuzz radius.
    pub fn new(albedo: Color, fuzziness: i64) -> (r: Metal)
        requires
            fuzziness >= 0,
        ensures
            r.albedo == albedo,
            r.fuzziness == fuzziness,
    {
        Metal { albedo, fuzziness }
    }

    /// A mirror reflection, perturbed by the fuzz radius; a perturbed ray
    /// that would dive under the surface is absorbed instead. With zero
    /// fuzz, the answer is exactly the reflection and the absorption test
    /// is exactly its angle with the normal. With positive fuzz, the test
    /// sums the reflection's and the offset's alignments with the normal
    /// (taken before renormalization, whose quantized sign could not be
    /// stated exactly), so absorption is pinned on both sides: a reflection
    /// aligned beyond the fuzz bound always scatters, one below its
    /// negation never does.
    pub fn scatter(&self, ray: &Ray, hit_record: &HitRecord, rng: &mut Rng) -> (r: Option<
        MaterialScattering,
    >)
        requires
            self.fuzziness >= 0,
        ensures
            r matches Some(ms) ==> {
                &&& ms.attenuation == self.albedo
                &&& ms.scattered_ray@.origin == hit_record@.pos
                &&& ms.scattered_ray@.time == ray@.time
            },
            self.fuzziness == 0 ==> {
                let reflected = normalized_v(reflect_v(ray@.direction, hit_record@.normal));
                if dot_v(reflected, hit_record@.normal) > 0 {
                    r matches Some(ms) && ms.scattered_ray@.direction == reflected
                } else {
                    r is None
                }
            },
            self.fuzziness > 0 ==> {
                let reflected = normalized_v(reflect_v(ray@.direction, hit_record@.normal));
                let aligned = dot_v(reflected, hit_record@.normal);
                let bound = fuzz_alignment_bound_s(self.fuzziness as int, hit_record@.normal);
                &&& (aligned > bound ==> r is Some)
                &&& (aligned < -bound ==> r is None)
                &&& (r matches Some(ms) ==> exists|o: V3|
                    {
                        &&& fixed::abs_i(o.x) <= self.fuzziness as int
                        &&& fixed::abs_i(o.y) <= self.fuzziness as int
                        &&& fixed::abs_i(o.z) <= self.fuzziness as int
                        &&& ms.scattered_ray@.direction == add_v(reflected, o)
                        &&& sadd(aligned, dot_v(o, hit_record@.normal)) > 0
                    })
            },
    {
        let reflected_ray = ray_generator::reflected_ray(ray, hit_record);
        if self.fuzziness == 0 {
            // A reflection below the surface is absorbed.
            if reflected_ray.direction().dot(hit_record.normal()) > 0 {
                return Some(MaterialScattering::new(self.albedo, reflected_ray));
            }
            return None;
        }

        let u = rng.random_unit_vector3_in_sphere();
        let offset = u.scale(self.fuzziness);
        let reflected_alignment = reflected_ray.direction().dot(hit_record.normal());
        let offset_alignment = offset.dot(hit_record.normal());
        proof {
            let n = hit_record@.normal;
            let fz = self.fuzziness as int;
            fixed::lemma_fmul_le_second(u@.x, fz);
            fixed::lemma_fmul_le_second(u@.y, fz);
            fixed::lemma_fmul_le_second(u@.z, fz);
            fixed::lemma_fmul_mag_monotone(offset@.x, fz, n.x);
            fixed::lemma_fmul_mag_monotone(offset@.y, fz, n.y);
            fixed::lemma_fmul_mag_monotone(offset@.z, fz, n.z);
        }

        // A perturbed ray below the surface is absorbed.
        if fixed::fx_add(reflected_alignment, offset_alignment) > 0 {
            let direction = reflected_ray.direction().add(&offset);
            let scattered_ray = Ray::with_raw_direction(
                *hit_record.pos(),
                direction,
                ray.time(),
            );
            proof {
                let n = hit_record@.normal;
                let reflected = normalized_v(reflect_v(ray@.direction, n));
                let aligned = dot_v(reflected, n);
                assert(fixed::abs_i(offset@.x) <= self.fuzziness as int && fixed::abs_i(offset@.y)
                    <= self.fuzziness as int && fixed::abs_i(offset@.z) <= self.fuzziness as int
                    && scattered_ray@.direction == add_v(reflected, offset@) && sadd(
                    aligned,
                    dot_v(offset@, n),
                ) > 0);
            }
            Some(MaterialScattering::new(self.albedo, scattered_ray))
        } else {
            None
        }
    }
}

impl Dielectric {
    /// A clear surface with the given positive refraction index.
    pub fn new(refraction_index: i64) -> (r: Dielectric)
        requires
            refraction_index > 0,
        ensures
            r.refraction_index == refraction_index,
    {
        Dielectric { refraction_index }
    }

    /// Always scatters, transmitting all wavelengths. An index ratio of one
    /// always refracts without bending: the ray continues unchanged. Any
    /// other ratio refracts by Snell's law when it can, and reflects on
    /// total internal reflection or when a Schlick-weighted draw picks
    /// reflection.
    pub fn scatter(&self, ray: &Ray, hit_record: &HitRecord, rng: &mut Rng) -> (r: Option<
        MaterialScattering,
    >)
        requires
            self.refraction_index > 0,
        ensures
            r is Some,
            r matches Some(ms) ==> {
                let ratio = refract_ratio_s(hit_record@.front_face, self.refraction_index as int);
                &&& ms.attenuation@ == (C3 {
                    r: FX_ONE as int,
                    g: FX_ONE as int,
                    b: FX_ONE as int,
                })
                &&& ms.scattered_ray@.origin == hit_record@.pos
                &&& ms.scattered_ray@.time == ray@.time
                &&& (if ratio == FX_ONE as int {
                    ms.scattered_ray@.direction == ray@.direction
                } else {
                    ms.scattered_ray@.direction == normalized_v(
                        refract_v(ray@.direction, hit_record@.normal, ratio),
                    ) || ms.scattered_ray@.direction == normalized_v(
                        reflect_v(ray@.direction, hit_record@.normal),
                    )
                })
            },
    {
        let attenuation = Color { r: FX_ONE, g: FX_ONE, b: FX_ONE };
        // Refract when possible; when there is no solution, reflect.
        let scattered_ray = match ray_generator::refracted_ray(
            ray,
            hit_record,
            self.refraction_index,
            rng,
        ) {
            Some(refracted) => refracted,
            None => ray_generator::reflected_ray(ray, hit_record),
        };
        Some(MaterialScattering::new(attenuation, scattered_ray))
    }
}

impl DiffuseLight {
    /// A light emitting the given texture's color.
    pub fn new(texture: TextureType) -> (r: DiffuseLight)
        ensures
            r.texture@ == texture@,
    {
        DiffuseLight { texture }
    }

    /// A light never scatters.
    pub fn scatter(&self, _ray: &Ray, _hit_record: &HitRecord, _rng: &mut Rng) -> (r: Option<
        MaterialScattering,
    >)
        ensures
            r is None,
    {
        None
    }

    /// The emitted color: the texture sampled at the hit.
    pub fn emitted(&self, u: i64, v: i64, pos: &Vec3) -> (r: Color)
        requires
            tex_wf(self.texture@),
        ensures
            r@ == tex_color_s(self.texture@, u as int, v as int, pos@),
            unit_c(r@),
    {
        self.texture.color_at(u, v, pos)
    }
}

impl Isotropic {
    /// A phase function scattering uniformly, colored by the texture.
    pub fn new(texture: TextureType) -> (r: Isotropic)
        ensures
            r.texture@ == texture@,
    {
        Isotropic { texture }
    }

    /// Always scatters, in a uniformly random direction.
    pub fn scatter(&self, ray: &Ray, hit_record: &HitRecord, rng: &mut Rng) -> (r: Option<
        MaterialScattering,
    >)
        requires
            tex_wf(self.texture@),
        ensures
            r is Some,
            r matches Some(ms) ==> {
                &&& ms.attenuation@ == tex_color_s(
                    self.texture@,
                    hit_record@.u,
                    hit_record@.v,
                    hit_record@.pos,
                )
                &&& unit_c(ms.attenuation@)
                &&& ms.scattered_ray@.origin == hit_record@.pos
                &&& ms.scattered_ray@.time == ray@.time
            },
    {
        let direction = rng.random_unit_vector3_in_sphere();
        let scattered_ray = Ray::new(*hit_record.pos(), direction, ray.time());
        let attenuation = self.texture.color_at(hit_record.u(), hit_record.v(), hit_record.pos());
        Some(MaterialScattering::new(attenuation, scattered_ray))
    }
}

impl MaterialType {
    /// What the material does to an incoming ray at a hit: a scattered ray
    /// with its attenuation, or absorption. Lights never scatter; diffuse,
    /// refractive and volumetric materials always do; a metal absorbs only
    /// fuzzed rays that would dive under the surface. Every attenuation of
    /// a usable material stays within `[0, 1]` on every channel.
    pub fn scatter(&self, ray: &Ray, hit_record: &HitRecord, rng: &mut Rng) -> (r: Option<
        MaterialScattering,
    >)
        requires
            mat_wf(self@),
        ensures
            r matches Some(ms) ==> unit_c(ms.attenuation@) && ms.scattered_ray@.time == ray@.time,
            self@ matches MatV::Lambertian(t) ==> r is Some && (r matches Some(ms)
                ==> ms.attenuation@ == tex_color_s(t, hit_record@.u, hit_record@.v, hit_record@.pos)
                && ms.scattered_ray@.origin == hit_record@.pos),
            self@ matches MatV::Metal(albedo, fuzz) ==> {
                let reflected = normalized_v(reflect_v(ray@.direction, hit_record@.normal));
                let aligned = dot_v(reflected, hit_record@.normal);
                &&& (r matches Some(ms) ==> ms.attenuation@ == albedo && ms.scattered_ray@.origin
                    == hit_record@.pos)
                &&& (fuzz > 0 && aligned > fuzz_alignment_bound_s(fuzz, hit_record@.normal)
                    ==> r is Some)
                &&& (fuzz > 0 && aligned < -fuzz_alignment_bound_s(fuzz, hit_record@.normal)
                    ==> r is None)
                &&& (fuzz == 0 ==> (if aligned > 0 {
                    r matches Some(ms) && ms.scattered_ray@.direction == reflected
                } else {
                    r is None
                }))
            },
            self@ matches MatV::Dielectric(idx) ==> r is Some && (r matches Some(ms) ==> {
                let ratio = refract_ratio_s(hit_record@.front_face, idx);
                &&& ms.attenuation@ == (C3 { r: FX_ONE as int, g: FX_ONE as int, b: FX_ONE as int })
                &&& ms.scattered_ray@.origin == hit_record@.pos
                &&& (if ratio == FX_ONE as int {
                    ms.scattered_ray@.direction == ray@.direction
                } else {
                    ms.scattered_ray@.direction == normalized_v(
                        refract_v(ray@.direction, hit_record@.normal, ratio),
                    ) || ms.scattered_ray@.direction == normalized_v(
                        reflect_v(ray@.direction, hit_record@.normal),
                    )
                })
            }),
            self@ matches MatV::DiffuseLight(t) ==> r is None,
            self@ matches MatV::Isotropic(t) ==> r is Some && (r matches Some(ms)
                ==> ms.attenuation@ == tex_color_s(t, hit_record@.u, hit_record@.v, hit_record@.pos)
                && ms.scattered_ray@.origin == hit_record@.pos),
    {
        match self {
            MaterialType::Lambertian(lambertian) => lambertian.scatter(ray, hit_record, rng),
            MaterialType::Metal(metal) => metal.scatter(ray, hit_record, rng),
            MaterialType::Dielectric(dielectric) => dielectric.scatter(ray, hit_record, rng),
            MaterialType::DiffuseLight(diffuse_light) => diffuse_light.scatter(
                ray,
                hit_record,
                rng,
            ),
            MaterialType::Isotropic(isotropic) => isotropic.scatter(ray, hit_record, rng),
        }
    }

    /// What the material emits at a hit, exactly as `emitted_s` says, and
    /// within `[0, 1]` for a usable material.
    pub fn emitted(&self, u: i64, v: i64, pos: &Vec3) -> (r: Color)
        requires
            mat_wf(self@),
        ensures
            r@ == emitted_s(self@, u as int, v as int, pos@),
            unit_c(r@),
    {
        match self {
            MaterialType::DiffuseLight(diffuse_light) => diffuse_light.emitted(u, v, pos),
            _ => Color::black(),
        }
    }
}

impl From<Lambertian> for MaterialType {
    fn from(value: Lambertian) -> (r: MaterialType) {
        MaterialType::Lambertian(value)
    }
}

impl vstd::std_specs::convert::FromSpecImpl<Lambertian> for MaterialType {
    open spec fn obeys_from_spec() -> bool {
        true
    }

    open spec fn from_spec(value: Lambertian) -> MaterialType {
        MaterialType::Lambertian(value)
    }
}

impl From<Metal> for MaterialType {
    fn from(value: Metal) -> (r: MaterialType) {
        MaterialType::Metal(value)
    }
}

impl vstd::std_specs::convert::FromSpecImpl<Metal> for MaterialType {
    open spec fn obeys_from_spec() -> bool {
        true
    }

    open spec fn from_spec(value: Metal) -> MaterialType {
        MaterialType::Metal(value)
    }
}

impl From<Dielectric> for MaterialType {
    fn from(value: Dielectric) -> (r: MaterialType) {
        MaterialType::Dielectric(value)
    }
}

impl vstd::std_specs::convert::FromSpecImpl<Dielectric> for MaterialType {
    open spec fn obeys_from_spec() -> bool {
        true
    }

    open spec fn from_spec(value: Dielectric) -> MaterialType {
        MaterialType::Dielectric(value)
    }
}

impl From<DiffuseLight> for MaterialType {
    fn from(value: DiffuseLight) -> (r: MaterialType) {
        MaterialType::DiffuseLight(value)
    }
}

impl vstd::std_specs::convert::FromSpecImpl<DiffuseLight> for MaterialType {
    open spec fn obeys_from_spec() -> bool {
        true
    }

    open spec fn from_spec(value: DiffuseLight) -> MaterialType {
        MaterialType::DiffuseLight(value)
    }
}

impl From<Isotropic> for MaterialType {
    fn from(value: Isotropic) -> (r: MaterialType) {
        MaterialType::Isotropic(value)
    }
}

impl vstd::std_specs::convert::FromSpecImpl<Isotropic> for MaterialType {
    open spec fn obeys_from_spec() -> bool {
        true
    }

    open spec fn from_spec(value: Isotropic) -> MaterialType {
        MaterialType::Isotropic(value)
    }
}

} // verus!
