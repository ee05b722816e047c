//! Construction of secondary rays: diffuse bounces, mirror reflections,
//! fuzzed reflections, and stochastic refraction with Schlick reflectance.

use crate::extensions::{reflect_v, refract_v, VectorReflectionExtension, VectorRefractionExtension};
use crate::fixed;
use crate::fixed::{fdiv, fmul, fsqrt, sadd, smin, sneg, ssub, FX_ONE};
use crate::object::hittable_object::HitRecord;
use crate::ray::{Ray, R3};
use crate::rng::Rng;
use crate::vector::{dot_v, normalized_v, V3};
use vstd::prelude::*;

verus! {

/// The refraction-index ratio a ray sees: inverted when it arrives from
/// outside the object, the material's own when it leaves.
pub open spec fn refract_ratio_s(front_face: bool, material_refraction_index: int) -> int {
    if front_face {
        fdiv(FX_ONE as int, material_refraction_index)
    } else {
        material_refraction_index
    }
}

/// Schlick's approximation of Fresnel reflectance: the probability that
/// light reflects rather than refracts at the given incidence cosine.
pub open spec fn schlick_s(cos_theta: int, refraction_index: int) -> int {
    let s = FX_ONE as int;
    let r0_sqrt = fdiv(ssub(s, refraction_index), sadd(s, refraction_index));
    let r0 = fmul(r0_sqrt, r0_sqrt);
    let omc = ssub(s, cos_theta);
    let p5 = fmul(fmul(fmul(fmul(omc, omc), omc), omc), omc);
    sadd(r0, fmul(ssub(s, r0), p5))
}

/// Schlick's reflectance, exactly as `schlick_s` says.
fn schlick_reflectance(cos_theta: i64, refraction_index: i64) -> (r: i64)
    requires
        refraction_index != -FX_ONE,
    ensures
        r as int == schlick_s(cos_theta as int, refraction_index as int),
{
    let r0_sqrt = fixed::fx_div(
        fixed::fx_sub(FX_ONE, refraction_index),
        fixed::fx_add(FX_ONE, refraction_index),
    );
    let r0 = fixed::fx_mul(r0_sqrt, r0_sqrt);
    let omc = fixed::fx_sub(FX_ONE, cos_theta);
    let p5 = fixed::fx_mul(fixed::fx_mul(fixed::fx_mul(fixed::fx_mul(omc, omc), omc), omc), omc);
    fixed::fx_add(r0, fixed::fx_mul(fixed::fx_sub(FX_ONE, r0), p5))
}

/// A diffuse bounce: a random direction pushed onto the hemisphere of the
/// surface normal, added to the normal; pure cancellation falls back to the
/// normal itself. The new ray starts at the hit and keeps the ray's time.
pub fn random_ray_on_hemisphere(ray: &Ray, hit_record: &HitRecord, rng: &mut Rng) -> (r: Ray)
    ensures
        r@.origin == hit_record@.pos,
        r@.time == ray@.time,
{
    let mut direction = rng.random_unit_vector3_in_sphere();
    if direction.dot(hit_record.normal()) < 0 {
        direction = direction.neg();
    }
    direction = direction.add(hit_record.normal());
    if direction.x == 0 && direction.y == 0 && direction.z == 0 {
        direction = *hit_record.normal();
    }
    Ray::new(*hit_record.pos(), direction, ray.time())
}

/// The mirror reflection of the ray about the surface normal, starting at
/// the hit and keeping the ray's time.
pub fn reflected_ray(ray: &Ray, hit_record: &HitRecord) -> (r: Ray)
    ensures
        r@.origin == hit_record@.pos,
        r@.time == ray@.time,
        r@.direction == normalized_v(reflect_v(ray@.direction, hit_record@.normal)),
{
    let reflected_direction = ray.direction().reflect(hit_record.normal());
    Ray::new(*hit_record.pos(), reflected_direction, ray.time())
}

/// The ray perturbed by a random offset of the given radius; zero fuzziness
/// returns the ray unchanged.
pub fn fuzzed_ray(ray: &Ray, fuzziness: i64, rng: &mut Rng) -> (r: Ray)
    ensures
        fuzziness == 0 ==> r == *ray,
        r@.origin == ray@.origin,
        r@.time == ray@.time,
{
    if fuzziness == 0 {
        return *ray;
    }
    let fuzzed_direction = ray.direction().normalized().add(
        &rng.random_unit_vector3_in_sphere().scale(fuzziness),
    );
    Ray::new(ray.origin(), fuzzed_direction, ray.time())
}

/// The cosine of incidence the refraction code works with: the ray's
/// direction against the oriented normal, capped at one.
pub open spec fn incidence_cos_s(ray: R3, normal: V3) -> int {
    smin(sneg(dot_v(ray.direction, normal)), FX_ONE as int)
}

/// The sine of incidence derived from the cosine.
pub open spec fn incidence_sin_s(ray: R3, normal: V3) -> int {
    let cos = incidence_cos_s(ray, normal);
    fsqrt(ssub(FX_ONE as int, fmul(cos, cos)))
}

/// The refracted continuation of the ray, when there is one. A ratio of one
/// bends nothing and always refracts: the ray continues unchanged. Refraction
/// fails on total internal reflection, and otherwise a Schlick-weighted draw
/// may still choose reflection. Whatever comes back starts at the hit, keeps
/// the ray's time, and any refracted direction is exactly Snell's.
pub fn refracted_ray(
    ray: &Ray,
    hit_record: &HitRecord,
    material_refraction_index: i64,
    rng: &mut Rng,
) -> (r: Option<Ray>)
    requires
        material_refraction_index > 0,
    ensures
        ({
            let ratio = refract_ratio_s(hit_record@.front_face, material_refraction_index as int);
            &&& (r matches Some(rr) ==> {
                &&& rr@.origin == hit_record@.pos
                &&& rr@.time == ray@.time
                &&& rr@.direction == (if ratio == FX_ONE as int {
                    ray@.direction
                } else {
                    normalized_v(refract_v(ray@.direction, hit_record@.normal, ratio))
                })
            })
            &&& ratio == FX_ONE as int ==> r is Some
            &&& (ratio != FX_ONE as int && fmul(
                ratio,
                incidence_sin_s(ray@, hit_record@.normal),
            ) > FX_ONE as int ==> r is None)
        }),
{
    let refraction_index = if hit_record.front_face() {
        fixed::fx_div(FX_ONE, material_refraction_index)
    } else {
        material_refraction_index
    };
    proof {
        fixed::lemma_fdiv_basics(FX_ONE as int, material_refraction_index as int);
    }

    // Equal indices on both sides: nothing bends, nothing reflects.
    if refraction_index == FX_ONE {
        return Some(Ray::with_raw_direction(*hit_record.pos(), ray.direction(), ray.time()));
    }

    let cos_theta = fixed::fx_min(
        fixed::fx_neg(ray.direction().dot(hit_record.normal())),
        FX_ONE,
    );
    let sin_theta = fixed::fx_sqrt(
        fixed::fx_sub(FX_ONE, fixed::fx_mul(cos_theta, cos_theta)),
    );

    let cannot_refract = fixed::fx_mul(refraction_index, sin_theta) > FX_ONE;

    let draw = rng.next_unit();
    if cannot_refract || schlick_reflectance(cos_theta, refraction_index) > draw {
        return None;
    }

    let refracted_direction = ray.direction().refract(hit_record.normal(), refraction_index);
    Some(Ray::new(*hit_record.pos(), refracted_direction, ray.time()))
}

} // verus!
