//! The hittable objects: sphere and quad geometry on hand-checked rays,
//! groups, decorators, and the volumetric medium.

use neon::fixed::{FX_MAX, FX_ONE};
use neon::interval::Interval;
use neon::object::constant_density_medium::ConstantDensityMedium;
use neon::object::hittable_objects_list::HittableObjectsList;
use neon::object::moving_sphere::MovingSphere;
use neon::object::quad::Quad;
use neon::object::sphere::Sphere;
use neon::object::translate_decorator::TranslateDecorator;
use neon::object::HittableObjectType;
use neon::ray::Ray;
use neon::rng::Rng;
use neon::vector::Vec3;

fn v(x: i64, y: i64, z: i64) -> Vec3 {
    Vec3 { x: x * FX_ONE, y: y * FX_ONE, z: z * FX_ONE }
}

fn forward_range() -> Interval {
    Interval::new(0, FX_MAX)
}

#[test]
fn sphere_hit_lands_at_distance_minus_radius() {
    let sphere = Sphere::new(v(0, 0, 0), FX_ONE, 0);
    let ray = Ray::new(v(0, 0, 5), v(0, 0, -1), 0);
    let hit = sphere.hit(&ray, &forward_range()).expect("the ray aims at the center");
    assert_eq!(hit.t(), 4 * FX_ONE);
    assert!(hit.front_face());
    // The normal points back toward the ray's origin.
    assert_eq!(*hit.normal(), v(0, 0, 1));
    assert_eq!(*hit.pos(), v(0, 0, 1));
    assert_eq!(hit.material_id(), 0);
}

#[test]
fn sphere_misses_when_offset_exceeds_radius() {
    let sphere = Sphere::new(v(0, 0, 0), FX_ONE, 0);
    let ray = Ray::new(v(0, 2, 5), v(0, 0, -1), 0);
    assert!(sphere.hit(&ray, &forward_range()).is_none());
}

#[test]
fn sphere_boundary_roots_are_rejected() {
    let sphere = Sphere::new(v(0, 0, 0), FX_ONE, 0);
    let ray = Ray::new(v(0, 0, 5), v(0, 0, -1), 0);
    // The nearest root sits exactly at the range's far end: strict rejection,
    // and the farther root at six is outside too.
    let range = Interval::new(0, 4 * FX_ONE);
    assert!(sphere.hit(&ray, &range).is_none());
    // From inside the range the same root is accepted.
    let wider = Interval::new(0, 4 * FX_ONE + 1);
    assert!(sphere.hit(&ray, &wider).is_some());
}

#[test]
fn sphere_inside_hit_flips_the_normal() {
    let sphere = Sphere::new(v(0, 0, 0), 2 * FX_ONE, 7);
    let ray = Ray::new(v(0, 0, 0), v(0, 0, -1), 0);
    let hit = sphere.hit(&ray, &forward_range()).expect("a ray from the center exits");
    assert_eq!(hit.t(), 2 * FX_ONE);
    assert!(!hit.front_face());
    // The outward normal at the exit points along -z; flipped, it faces back.
    assert_eq!(*hit.normal(), v(0, 0, 1));
    assert_eq!(hit.material_id(), 7);
}

#[test]
fn moving_sphere_follows_the_ray_time() {
    let sphere = MovingSphere::new(v(0, 0, 0), v(4, 0, 0), FX_ONE, 1);
    // At time zero the sphere is at the origin.
    let early = Ray::new(v(0, 0, 5), v(0, 0, -1), 0);
    assert!(sphere.hit(&early, &forward_range()).is_some());
    // At time one it has moved four units along x.
    let late_miss = Ray::new(v(0, 0, 5), v(0, 0, -1), FX_ONE);
    assert!(sphere.hit(&late_miss, &forward_range()).is_none());
    let late_hit = Ray::new(v(4, 0, 5), v(0, 0, -1), FX_ONE);
    let hit = sphere.hit(&late_hit, &forward_range()).expect("the moved center is under the ray");
    assert_eq!(hit.t(), 4 * FX_ONE);
}

#[test]
fn quad_uv_is_zero_at_start_and_one_at_far_corner() {
    let quad = Quad::new(v(0, 0, 0), v(2, 0, 0), v(0, 2, 0), 3);
    // Straight down onto the starting corner.
    let at_start = Ray::new(v(0, 0, 5), v(0, 0, -1), 0);
    let hit = quad.hit(&at_start, &forward_range()).expect("the corner is on the quad");
    assert_eq!(hit.u(), 0);
    assert_eq!(hit.v(), 0);
    assert_eq!(hit.t(), 5 * FX_ONE);
    // Straight down onto start + u + v.
    let at_far = Ray::new(v(2, 2, 5), v(0, 0, -1), 0);
    let hit = quad.hit(&at_far, &forward_range()).expect("the far corner is on the quad");
    assert_eq!(hit.u(), FX_ONE);
    assert_eq!(hit.v(), FX_ONE);
    // The middle lands at one half on both coordinates.
    let at_mid = Ray::new(v(1, 1, 5), v(0, 0, -1), 0);
    let hit = quad.hit(&at_mid, &forward_range()).expect("the middle is on the quad");
    assert_eq!(hit.u(), FX_ONE / 2);
    assert_eq!(hit.v(), FX_ONE / 2);
}

#[test]
fn quad_rejects_outside_and_parallel_rays() {
    let quad = Quad::new(v(0, 0, 0), v(2, 0, 0), v(0, 2, 0), 3);
    let outside = Ray::new(v(3, 1, 5), v(0, 0, -1), 0);
    assert!(quad.hit(&outside, &forward_range()).is_none());
    let parallel = Ray::new(v(0, 0, 5), v(1, 0, 0), 0);
    assert!(quad.hit(&parallel, &forward_range()).is_none());
}

#[test]
fn cuboid_has_six_faces_and_answers_from_every_side() {
    let faces = Quad::cuboid(v(-1, -1, -1), v(1, 1, 1), 2);
    assert_eq!(faces.items().len(), 6);
    let mut rng = Rng::new(11);
    for (origin, direction) in [
        (v(0, 0, 5), v(0, 0, -1)),
        (v(0, 0, -5), v(0, 0, 1)),
        (v(5, 0, 0), v(-1, 0, 0)),
        (v(-5, 0, 0), v(1, 0, 0)),
        (v(0, 5, 0), v(0, -1, 0)),
        (v(0, -5, 0), v(0, 1, 0)),
    ] {
        let ray = Ray::new(origin, direction, 0);
        let hit = faces.hit(&ray, &forward_range(), &mut rng).expect("every side faces a ray");
        assert_eq!(hit.t(), 4 * FX_ONE);
        assert_eq!(hit.material_id(), 2);
    }
}

#[test]
fn list_returns_the_closest_of_two_spheres() {
    let mut list = HittableObjectsList::new();
    list.add(HittableObjectType::Sphere(Sphere::new(v(0, 0, -4), FX_ONE, 0)));
    list.add(HittableObjectType::Sphere(Sphere::new(v(0, 0, 0), FX_ONE, 1)));
    let ray = Ray::new(v(0, 0, 5), v(0, 0, -1), 0);
    let mut rng = Rng::new(1);
    let hit = list.hit(&ray, &forward_range(), &mut rng).expect("both spheres sit on the ray");
    assert_eq!(hit.t(), 4 * FX_ONE);
    assert_eq!(hit.material_id(), 1);
}

#[test]
fn flatten_splices_nested_groups() {
    let mut inner = HittableObjectsList::new();
    inner.add(HittableObjectType::Sphere(Sphere::new(v(0, 0, 0), FX_ONE, 0)));
    inner.add(HittableObjectType::Sphere(Sphere::new(v(2, 0, 0), FX_ONE, 1)));
    let mut outer = HittableObjectsList::new();
    outer.add(HittableObjectType::Sphere(Sphere::new(v(4, 0, 0), FX_ONE, 2)));
    outer.add(HittableObjectType::HittableObjectList(inner));
    let flat = outer.items_flat();
    assert_eq!(flat.len(), 3);
}

#[test]
fn translate_shifts_hits_back_to_world_space() {
    let sphere = HittableObjectType::Sphere(Sphere::new(v(0, 0, 0), FX_ONE, 0));
    let moved = TranslateDecorator::new(sphere, v(3, 0, 0));
    let ray = Ray::new(v(3, 0, 5), v(0, 0, -1), 0);
    let mut rng = Rng::new(1);
    let hit = moved.hit(&ray, &forward_range(), &mut rng).expect("the moved sphere is under the ray");
    assert_eq!(hit.t(), 4 * FX_ONE);
    assert_eq!(*hit.pos(), v(3, 0, 1));
}

#[test]
fn medium_scatters_inside_the_boundary_or_not_at_all() {
    let boundary = HittableObjectType::Sphere(Sphere::new(v(0, 0, 0), 2 * FX_ONE, 0));
    // A thick medium: scattering is almost certain within two units.
    let medium = ConstantDensityMedium::new(Box::new(boundary), 20 * FX_ONE, 5);
    let ray = Ray::new(v(0, 0, 10), v(0, 0, -1), 0);
    let mut rng = Rng::new(99);
    let mut scattered = 0;
    for _ in 0..50 {
        if let Some(hit) = medium.hit(&ray, &forward_range(), &mut rng) {
            assert_eq!(hit.material_id(), 5);
            // Entry at eight, exit at twelve: any event lies between.
            assert!(hit.t() >= 8 * FX_ONE);
            assert!(hit.t() <= 12 * FX_ONE);
            scattered += 1;
        }
    }
    assert!(scattered > 0);
}
