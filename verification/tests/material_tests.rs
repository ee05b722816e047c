//! Materials: attenuation ranges, absorption rules, and straight-through
//! refraction at a ratio of one.

use neon::color::Color;
use neon::fixed::{FX_MAX, FX_ONE};
use neon::interval::Interval;
use neon::material::{Dielectric, DiffuseLight, Isotropic, Lambertian, MaterialType, Metal};
use neon::object::sphere::Sphere;
use neon::ray::Ray;
use neon::rng::Rng;
use neon::texture::{SolidColor, TextureType};
use neon::vector::Vec3;

fn v(x: i64, y: i64, z: i64) -> Vec3 {
    Vec3 { x: x * FX_ONE, y: y * FX_ONE, z: z * FX_ONE }
}

fn gray_texture() -> TextureType {
    TextureType::from(SolidColor::new(Color { r: FX_ONE / 2, g: FX_ONE / 2, b: FX_ONE / 2 }))
}

/// A head-on hit on the unit sphere, used by all the scatter tests.
fn head_on_hit() -> (Ray, neon::object::hittable_object::HitRecord) {
    let sphere = Sphere::new(v(0, 0, 0), FX_ONE, 0);
    let ray = Ray::new(v(0, 0, 5), v(0, 0, -1), 0);
    let hit = sphere.hit(&ray, &Interval::new(0, FX_MAX)).expect("head-on hit");
    (ray, hit)
}

#[test]
fn lambertian_attenuation_is_the_texture_color() {
    let material = MaterialType::Lambertian(Lambertian::new(gray_texture()));
    let (ray, hit) = head_on_hit();
    let mut rng = Rng::new(5);
    for _ in 0..20 {
        let ms = material.scatter(&ray, &hit, &mut rng).expect("lambertian always scatters");
        let a = *ms.attenuation();
        assert_eq!(a, Color { r: FX_ONE / 2, g: FX_ONE / 2, b: FX_ONE / 2 });
        assert!(0 <= a.r && a.r <= FX_ONE);
        assert_eq!(*ms.scattered_ray(), *ms.scattered_ray());
    }
}

#[test]
fn metal_with_zero_fuzz_reflects_exactly() {
    let material = MaterialType::Metal(Metal::new(
        Color { r: FX_ONE, g: FX_ONE / 2, b: FX_ONE / 4 },
        0,
    ));
    let (ray, hit) = head_on_hit();
    let mut rng = Rng::new(5);
    let ms = material.scatter(&ray, &hit, &mut rng).expect("a head-on reflection leaves the surface");
    // Head-on against the +z normal, the reflection goes straight back.
    assert_eq!(ms.scattered_ray().direction(), v(0, 0, 1));
    assert_eq!(*ms.attenuation(), Color { r: FX_ONE, g: FX_ONE / 2, b: FX_ONE / 4 });
    // Attenuation components stay within [0, 1].
    let a = *ms.attenuation();
    assert!(0 <= a.r && a.r <= FX_ONE && 0 <= a.g && a.g <= FX_ONE && 0 <= a.b && a.b <= FX_ONE);
}

#[test]
fn fuzzy_metal_scatters_head_on_reflections() {
    // Head-on, the reflection's alignment is one; a small fuzz radius can
    // never drag it under the surface, so scattering is guaranteed.
    let material = MaterialType::Metal(Metal::new(
        Color { r: FX_ONE / 2, g: FX_ONE / 2, b: FX_ONE / 2 },
        FX_ONE / 4,
    ));
    let (ray, hit) = head_on_hit();
    let mut rng = Rng::new(31);
    for _ in 0..50 {
        let ms = material.scatter(&ray, &hit, &mut rng).expect("the bound guarantees scattering");
        assert_eq!(*ms.attenuation(), Color { r: FX_ONE / 2, g: FX_ONE / 2, b: FX_ONE / 2 });
    }
}

#[test]
fn fuzzed_ray_with_zero_radius_is_the_ray() {
    let ray = Ray::new(v(1, 2, 3), v(0, 0, -1), 7);
    let mut rng = Rng::new(4);
    let same = neon::ray_generator::fuzzed_ray(&ray, 0, &mut rng);
    assert_eq!(same, ray);
    assert_eq!(same.time(), 7);
}

#[test]
fn dielectric_transmits_all_wavelengths() {
    let material = MaterialType::Dielectric(Dielectric::new(3 * FX_ONE / 2));
    let (ray, hit) = head_on_hit();
    let mut rng = Rng::new(5);
    for _ in 0..20 {
        let ms = material.scatter(&ray, &hit, &mut rng).expect("glass always scatters");
        assert_eq!(*ms.attenuation(), Color { r: FX_ONE, g: FX_ONE, b: FX_ONE });
    }
}

#[test]
fn dielectric_with_ratio_one_does_not_bend_head_on_rays() {
    // Equal indices inside and out: the ratio is one, and at normal
    // incidence the Schlick reflectance is zero, so the ray goes straight.
    let material = MaterialType::Dielectric(Dielectric::new(FX_ONE));
    let (ray, hit) = head_on_hit();
    let mut rng = Rng::new(5);
    for _ in 0..20 {
        let ms = material.scatter(&ray, &hit, &mut rng).expect("glass always scatters");
        assert_eq!(ms.scattered_ray().direction(), v(0, 0, -1));
    }
}

#[test]
fn diffuse_light_never_scatters_and_emits_its_texture() {
    let material = MaterialType::DiffuseLight(DiffuseLight::new(gray_texture()));
    let (ray, hit) = head_on_hit();
    let mut rng = Rng::new(5);
    assert!(material.scatter(&ray, &hit, &mut rng).is_none());
    let emitted = material.emitted(0, 0, &v(0, 0, 1));
    assert_eq!(emitted, Color { r: FX_ONE / 2, g: FX_ONE / 2, b: FX_ONE / 2 });
}

#[test]
fn non_lights_emit_black() {
    let material = MaterialType::Lambertian(Lambertian::new(gray_texture()));
    let emitted = material.emitted(0, 0, &v(0, 0, 1));
    assert_eq!(emitted, Color { r: 0, g: 0, b: 0 });
}

#[test]
fn isotropic_scatters_with_the_texture_color() {
    let material = MaterialType::Isotropic(Isotropic::new(gray_texture()));
    let (ray, hit) = head_on_hit();
    let mut rng = Rng::new(5);
    let ms = material.scatter(&ray, &hit, &mut rng).expect("a volume always scatters");
    assert_eq!(*ms.attenuation(), Color { r: FX_ONE / 2, g: FX_ONE / 2, b: FX_ONE / 2 });
}
