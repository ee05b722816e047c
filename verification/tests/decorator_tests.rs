//! Rotation about the y axis on exactly representable angles, sphere
//! texture coordinates at the poles, and the generator's ranges.

use neon::fixed::{FX_MAX, FX_ONE};
use neon::interval::Interval;
use neon::object::rotate_y_decorator::RotateYDecorator;
use neon::object::sphere::Sphere;
use neon::object::HittableObjectType;
use neon::ray::Ray;
use neon::rng::Rng;
use neon::vector::Vec3;

fn v(x: i64, y: i64, z: i64) -> Vec3 {
    Vec3 { x: x * FX_ONE, y: y * FX_ONE, z: z * FX_ONE }
}

#[test]
fn quarter_turn_moves_a_sphere_into_the_camera_axis() {
    // A quarter turn: sine one, cosine zero, both exact.
    let inner = HittableObjectType::Sphere(Sphere::new(v(2, 0, 0), FX_ONE, 0));
    let rotated = RotateYDecorator::new(inner, FX_ONE, 0);
    let ray = Ray::new(v(0, 0, 5), v(0, 0, -1), 0);
    let mut rng = Rng::new(3);
    let hit = rotated.hit(&ray, &Interval::new(0, FX_MAX), &mut rng).expect(
        "the turned sphere stands in front of the camera",
    );
    assert_eq!(hit.t(), 6 * FX_ONE);
    assert_eq!(*hit.pos(), v(0, 0, -1));
    assert_eq!(*hit.normal(), v(0, 0, 1));
}

#[test]
fn quarter_turn_box_covers_the_turned_sphere() {
    let inner = HittableObjectType::Sphere(Sphere::new(v(2, 0, 0), FX_ONE, 0));
    let rotated = RotateYDecorator::new(inner, FX_ONE, 0);
    let b = rotated.bounding_box();
    // The sphere now sits around (0, 0, -2).
    assert!(b.interval_x.start <= -FX_ONE && FX_ONE <= b.interval_x.end);
    assert!(b.interval_z.start <= -3 * FX_ONE && -FX_ONE <= b.interval_z.end);
}

#[test]
fn sphere_uv_hits_the_poles_and_the_equator() {
    // South pole: v is zero. North pole: v is one.
    let (_, v_south) = Sphere::uv_coords(&Vec3 { x: 0, y: -FX_ONE, z: 0 });
    assert_eq!(v_south, 0);
    let (_, v_north) = Sphere::uv_coords(&Vec3 { x: 0, y: FX_ONE, z: 0 });
    assert_eq!(v_north, FX_ONE);
    // On the positive x axis the turn fraction is one half.
    let (u_front, v_front) = Sphere::uv_coords(&Vec3 { x: FX_ONE, y: 0, z: 0 });
    assert_eq!(u_front, FX_ONE / 2);
    assert_eq!(v_front, FX_ONE / 2);
    // Texture coordinates always land in the unit square.
    let mut rng = Rng::new(123);
    for _ in 0..100 {
        let p = rng.random_unit_vector3_in_sphere();
        let (u, w) = Sphere::uv_coords(&p);
        assert!(0 <= u && u <= FX_ONE);
        assert!(0 <= w && w <= FX_ONE);
    }
}

#[test]
fn generator_draws_stay_in_their_ranges() {
    let mut rng = Rng::new(9);
    for _ in 0..200 {
        let x = rng.next_range(-3 * FX_ONE, 5 * FX_ONE);
        assert!(-3 * FX_ONE <= x && x <= 5 * FX_ONE);
        let u = rng.next_unit();
        assert!(0 <= u && u < FX_ONE);
        let p = rng.next_unit_positive();
        assert!(0 < p && p <= FX_ONE);
    }
}

#[test]
fn generator_is_reproducible_from_its_seed() {
    let mut a = Rng::new(77);
    let mut b = Rng::new(77);
    for _ in 0..50 {
        assert_eq!(a.next_u64(), b.next_u64());
    }
    let mut c = Rng::new(78);
    let first: Vec<u64> = (0..8).map(|_| Rng::new(77).next_u64()).collect();
    let other = c.next_u64();
    assert!(first.iter().any(|w| *w != other));
}
