//! The bounding-volume hierarchy: it must answer every ray exactly as the
//! plain linear scan over the same objects does.

use neon::bvh::BvhTree;
use neon::fixed::{FX_MAX, FX_ONE};
use neon::interval::Interval;
use neon::object::hittable_objects_list::HittableObjectsList;
use neon::object::quad::Quad;
use neon::object::sphere::Sphere;
use neon::object::HittableObjectType;
use neon::ray::Ray;
use neon::rng::Rng;
use neon::vector::Vec3;

fn v(x: i64, y: i64, z: i64) -> Vec3 {
    Vec3 { x: x * FX_ONE, y: y * FX_ONE, z: z * FX_ONE }
}

fn demo_objects() -> Vec<HittableObjectType> {
    let mut objects: Vec<HittableObjectType> = Vec::new();
    for i in 0..5i64 {
        for j in 0..5i64 {
            objects.push(HittableObjectType::Sphere(Sphere::new(
                v(2 * i - 4, 2 * j - 4, -3 * (i + j) - 2),
                FX_ONE / 2,
                (i * 5 + j) as usize,
            )));
        }
    }
    objects.push(HittableObjectType::Quad(Quad::new(
        v(-6, -6, -20),
        v(12, 0, 0),
        v(0, 12, 0),
        25,
    )));
    objects
}

#[test]
fn tree_hits_agree_with_the_linear_scan() {
    let objects = demo_objects();
    let list = HittableObjectsList::from(objects);
    let tree = BvhTree::from(list.items().clone());

    let mut rng = Rng::new(2024);
    let mut probe = Rng::new(77);
    let range = Interval::new(66, FX_MAX);
    let mut hits = 0;
    for _ in 0..400 {
        let origin = Vec3 {
            x: probe.next_range(-8 * FX_ONE, 8 * FX_ONE),
            y: probe.next_range(-8 * FX_ONE, 8 * FX_ONE),
            z: 10 * FX_ONE,
        };
        let target = Vec3 {
            x: probe.next_range(-6 * FX_ONE, 6 * FX_ONE),
            y: probe.next_range(-6 * FX_ONE, 6 * FX_ONE),
            z: probe.next_range(-20 * FX_ONE, 0),
        };
        let ray = Ray::new(origin, target.sub(&origin), 0);
        let from_tree = tree.hit(&ray, &range, &mut rng);
        let from_scan = list.hit(&ray, &range, &mut rng);
        match (from_tree, from_scan) {
            (Some(a), Some(b)) => {
                assert_eq!(a.t(), b.t());
                assert_eq!(a.material_id(), b.material_id());
                assert_eq!(*a.pos(), *b.pos());
                hits += 1;
            },
            (None, None) => {},
            _ => panic!("the tree and the scan disagree on whether the ray hits"),
        }
    }
    // The battery must actually exercise hits, not only misses.
    assert!(hits > 50);
}

#[test]
fn tree_over_one_object_answers_like_the_object() {
    let sphere = Sphere::new(v(0, 0, 0), FX_ONE, 3);
    let tree = BvhTree::from(vec![HittableObjectType::Sphere(sphere.clone())]);
    let ray = Ray::new(v(0, 0, 5), v(0, 0, -1), 0);
    let range = Interval::new(0, FX_MAX);
    let mut rng = Rng::new(1);
    let from_tree = tree.hit(&ray, &range, &mut rng).expect("the sphere is under the ray");
    let direct = sphere.hit(&ray, &range).expect("the sphere is under the ray");
    assert_eq!(from_tree.t(), direct.t());
    assert_eq!(from_tree.material_id(), 3);
}

#[test]
fn tree_over_two_objects_returns_the_closer() {
    let near = HittableObjectType::Sphere(Sphere::new(v(0, 0, 2), FX_ONE, 0));
    let far = HittableObjectType::Sphere(Sphere::new(v(0, 0, -4), FX_ONE, 1));
    let tree = BvhTree::from(vec![far, near]);
    let ray = Ray::new(v(0, 0, 8), v(0, 0, -1), 0);
    let mut rng = Rng::new(1);
    let hit = tree.hit(&ray, &Interval::new(0, FX_MAX), &mut rng).expect("both spheres lie ahead");
    assert_eq!(hit.t(), 5 * FX_ONE);
    assert_eq!(hit.material_id(), 0);
}

#[test]
fn shrunk_ranges_cut_off_far_hits() {
    let objects = vec![
        HittableObjectType::Sphere(Sphere::new(v(0, 0, 0), FX_ONE, 0)),
        HittableObjectType::Sphere(Sphere::new(v(0, 0, -6), FX_ONE, 1)),
    ];
    let tree = BvhTree::from(objects);
    let ray = Ray::new(v(0, 0, 5), v(0, 0, -1), 0);
    let mut rng = Rng::new(1);
    // Only the near sphere fits in a range that ends at five.
    let hit = tree.hit(&ray, &Interval::new(0, 5 * FX_ONE), &mut rng).expect("the near sphere fits");
    assert_eq!(hit.material_id(), 0);
    // A range past both finds the near one first all the same.
    let hit = tree.hit(&ray, &Interval::new(0, FX_MAX), &mut rng).expect("both fit");
    assert_eq!(hit.material_id(), 0);
    // A range that starts beyond the near sphere finds the far one.
    let hit = tree.hit(&ray, &Interval::new(7 * FX_ONE, FX_MAX), &mut rng).expect("the far one fits");
    assert_eq!(hit.material_id(), 1);
}
