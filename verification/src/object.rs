//! The closed set of hittable objects, with one dispatch function per
//! operation, and the mathematical account of what a hit query returns.

pub mod constant_density_medium;
pub mod hittable_object;
pub mod hittable_objects_list;
pub mod moving_sphere;
pub mod quad;
pub mod rotate_y_decorator;
pub mod sphere;
pub mod translate_decorator;

use crate::aabb::{AxisAlignedBoundingBox, Bb};
use crate::interval::Interval;
use crate::ray::{Ray, R3};
use crate::rng::Rng;
use crate::vector::V3;
use constant_density_medium::ConstantDensityMedium;
use hittable_object::{opt_hr_t_in, HitRecord, Hr};
use hittable_objects_list::HittableObjectsList;
use moving_sphere::{MovingSphere, MovingSphereV};
use quad::{Quad, QuadV};
use rotate_y_decorator::RotateYDecorator;
use sphere::{Sphere, SphereV};
use translate_decorator::TranslateDecorator;
use vstd::prelude::*;

verus! {

/// The closed set of things a ray can hit.
pub enum HittableObjectType {
    Sphere(Sphere),
    MovingSphere(MovingSphere),
    Quad(Quad),
    HittableObjectList(HittableObjectsList),
    TranslateDecorator(TranslateDecorator),
    RotateYDecorator(RotateYDecorator),
    ConstantDensityMedium(ConstantDensityMedium),
}

/// Mathematical value of a hittable object, mirroring the variant set.
pub ghost enum ObjV {
    Sphere(SphereV),
    MovingSphere(MovingSphereV),
    Quad(QuadV),
    List(ListV),
    Translate(TranslateV),
    RotateY(RotateV),
    Medium(MediumV),
}

/// Mathematical value of an object group.
pub ghost struct ListV {
    pub items: Seq<ObjV>,
    pub bounding_box: Bb,
}

/// Mathematical value of a translate decorator.
pub ghost struct TranslateV {
    pub bbox: Bb,
    pub offset: V3,
    pub inner: Box<ObjV>,
}

/// Mathematical value of a rotate decorator.
pub ghost struct RotateV {
    pub bbox: Bb,
    pub inner: Box<ObjV>,
    pub sin_theta: int,
    pub cos_theta: int,
}

/// Mathematical value of a constant-density medium.
pub ghost struct MediumV {
    pub phase_function_id: int,
    pub boundary: Box<ObjV>,
    pub negative_inverse_density: int,
}

/// The mathematical value of an object, down through every wrapper.
pub open spec fn obj_view(o: HittableObjectType) -> ObjV
    decreases o,
{
    match o {
        HittableObjectType::Sphere(s) => ObjV::Sphere(s@),
        HittableObjectType::MovingSphere(m) => ObjV::MovingSphere(m@),
        HittableObjectType::Quad(q) => ObjV::Quad(q@),
        HittableObjectType::HittableObjectList(l) => ObjV::List(
            ListV { items: seq_view(l.items@), bounding_box: l.bounding_box@ },
        ),
        HittableObjectType::TranslateDecorator(t) => ObjV::Translate(
            TranslateV { bbox: t.bbox@, offset: t.offset@, inner: Box::new(obj_view(*t.inner)) },
        ),
        HittableObjectType::RotateYDecorator(r) => ObjV::RotateY(
            RotateV {
                bbox: r.bbox@,
                inner: Box::new(obj_view(*r.inner)),
                sin_theta: r.sin_theta as int,
                cos_theta: r.cos_theta as int,
            },
        ),
        HittableObjectType::ConstantDensityMedium(m) => ObjV::Medium(
            MediumV {
                phase_function_id: m.phase_function_id as int,
                boundary: Box::new(obj_view(*m.boundary)),
                negative_inverse_density: m.negative_inverse_density as int,
            },
        ),
    }
}

/// The mathematical values of a sequence of objects, in order.
pub open spec fn seq_view(items: Seq<HittableObjectType>) -> Seq<ObjV>
    decreases items,
{
    if items.len() == 0 {
        Seq::empty()
    } else {
        seq_view(items.drop_last()).push(obj_view(items.last()))
    }
}

impl View for HittableObjectType {
    type V = ObjV;

    open spec fn view(&self) -> ObjV {
        obj_view(*self)
    }
}

/// A view sequence is as long as the sequence it views.
pub proof fn lemma_seq_view_len(items: Seq<HittableObjectType>)
    ensures
        seq_view(items).len() == items.len(),
    decreases items,
{
    if items.len() > 0 {
        lemma_seq_view_len(items.drop_last());
    }
}

/// A view sequence views each object in place.
pub proof fn lemma_seq_view_index(items: Seq<HittableObjectType>, i: int)
    requires
        0 <= i < items.len(),
    ensures
        seq_view(items)[i] == obj_view(items[i]),
    decreases items,
{
    lemma_seq_view_len(items.drop_last());
    if i < items.len() - 1 {
        lemma_seq_view_index(items.drop_last(), i);
        assert(items.drop_last()[i] == items[i]);
    }
}

/// Appending an object appends its view.
pub proof fn lemma_seq_view_push(items: Seq<HittableObjectType>, o: HittableObjectType)
    ensures
        seq_view(items.push(o)) == seq_view(items).push(obj_view(o)),
{
    assert(items.push(o).drop_last() =~= items);
    assert(items.push(o).last() == o);
}

/// Whether the object draws randomness when hit: true exactly where a
/// constant-density medium sits somewhere inside it.
pub open spec fn has_medium(o: ObjV) -> bool
    decreases o,
{
    match o {
        ObjV::Sphere(_) => false,
        ObjV::MovingSphere(_) => false,
        ObjV::Quad(_) => false,
        ObjV::List(l) => seq_has_medium(l.items),
        ObjV::Translate(t) => has_medium(*t.inner),
        ObjV::RotateY(r) => has_medium(*r.inner),
        ObjV::Medium(_) => true,
    }
}

/// Whether any object of the sequence holds a medium.
pub open spec fn seq_has_medium(items: Seq<ObjV>) -> bool
    decreases items,
{
    if items.len() == 0 {
        false
    } else {
        has_medium(items[0]) || seq_has_medium(items.drop_first())
    }
}

/// What a hit query on an object without media returns: the dispatch over
/// the closed variant set, at the mathematical level.
pub open spec fn obj_hit_s(o: ObjV, ray: R3, t0: int, t1: int) -> Option<Hr>
    decreases o,
{
    match o {
        ObjV::Sphere(s) => sphere::sphere_hit_s(s, ray, t0, t1),
        ObjV::MovingSphere(m) => moving_sphere::moving_sphere_hit_s(m, ray, t0, t1),
        ObjV::Quad(q) => quad::quad_hit_s(q, ray, t0, t1),
        ObjV::List(l) => scan_hit_s(l.items, ray, t0, t1, None),
        ObjV::Translate(t) => translate_decorator::translate_hit_s(
            obj_hit_s(*t.inner, translate_decorator::moved_ray_s(ray, t.offset), t0, t1),
            t.offset,
        ),
        ObjV::RotateY(r) => rotate_y_decorator::rotate_back_hit_s(
            obj_hit_s(
                *r.inner,
                rotate_y_decorator::rotated_ray_s(ray, r.sin_theta, r.cos_theta),
                t0,
                t1,
            ),
            r.sin_theta,
            r.cos_theta,
        ),
        ObjV::Medium(_) => None,
    }
}

/// The linear scan a group performs: each object is queried with the range
/// shrunk at the far end to the best hit found so far, and a new hit
/// replaces the best.
pub open spec fn scan_hit_s(items: Seq<ObjV>, ray: R3, t0: int, t1: int, best: Option<Hr>) -> Option<
    Hr,
>
    decreases items,
{
    if items.len() == 0 {
        best
    } else {
        let bound = match best {
            Some(h) => h.t,
            None => t1,
        };
        let first = obj_hit_s(items[0], ray, t0, bound);
        let next_best = match first {
            Some(h) => Some(h),
            None => best,
        };
        scan_hit_s(items.drop_first(), ray, t0, t1, next_best)
    }
}

/// Whether a hit on the object could carry this material index: the
/// indices the object and everything inside it mention.
pub open spec fn obj_has_mat(o: ObjV, id: int) -> bool
    decreases o,
{
    match o {
        ObjV::Sphere(s) => id == s.material_id,
        ObjV::MovingSphere(m) => id == m.material_id,
        ObjV::Quad(q) => id == q.material_id,
        ObjV::List(l) => seq_has_mat(l.items, id),
        ObjV::Translate(t) => obj_has_mat(*t.inner, id),
        ObjV::RotateY(r) => obj_has_mat(*r.inner, id),
        ObjV::Medium(m) => id == m.phase_function_id,
    }
}

/// Whether any object of the sequence mentions this material index.
pub open spec fn seq_has_mat(items: Seq<ObjV>, id: int) -> bool
    decreases items,
{
    if items.len() == 0 {
        false
    } else {
        obj_has_mat(items[0], id) || seq_has_mat(items.drop_first(), id)
    }
}

/// Whether every material index the object mentions lies below `n`.
pub open spec fn obj_mats_ok(o: ObjV, n: int) -> bool
    decreases o,
{
    match o {
        ObjV::Sphere(s) => 0 <= s.material_id < n,
        ObjV::MovingSphere(m) => 0 <= m.material_id < n,
        ObjV::Quad(q) => 0 <= q.material_id < n,
        ObjV::List(l) => seq_mats_ok(l.items, n),
        ObjV::Translate(t) => obj_mats_ok(*t.inner, n),
        ObjV::RotateY(r) => obj_mats_ok(*r.inner, n),
        ObjV::Medium(m) => 0 <= m.phase_function_id < n,
    }
}

/// Whether every object of the sequence keeps its indices below `n`.
pub open spec fn seq_mats_ok(items: Seq<ObjV>, n: int) -> bool
    decreases items,
{
    if items.len() == 0 {
        true
    } else {
        obj_mats_ok(items[0], n) && seq_mats_ok(items.drop_first(), n)
    }
}

/// A mentioned index of an object whose indices stay below `n` stays below
/// `n`.
pub proof fn lemma_mats_ok_bound(o: ObjV, id: int, n: int)
    requires
        obj_mats_ok(o, n),
        obj_has_mat(o, id),
    ensures
        0 <= id < n,
    decreases o,
{
    match o {
        ObjV::List(l) => {
            lemma_seq_mats_ok_bound(l.items, id, n);
        },
        ObjV::Translate(t) => {
            lemma_mats_ok_bound(*t.inner, id, n);
        },
        ObjV::RotateY(r) => {
            lemma_mats_ok_bound(*r.inner, id, n);
        },
        _ => {},
    }
}

/// The sequence version of the index bound.
pub proof fn lemma_seq_mats_ok_bound(items: Seq<ObjV>, id: int, n: int)
    requires
        seq_mats_ok(items, n),
        seq_has_mat(items, id),
    ensures
        0 <= id < n,
    decreases items,
{
    if items.len() > 0 {
        if obj_has_mat(items[0], id) {
            lemma_mats_ok_bound(items[0], id, n);
        } else {
            lemma_seq_mats_ok_bound(items.drop_first(), id, n);
        }
    }
}

/// A mentioned index of one object is mentioned by the sequence.
pub proof fn lemma_seq_has_mat_at(items: Seq<ObjV>, i: int, id: int)
    requires
        0 <= i < items.len(),
        obj_has_mat(items[i], id),
    ensures
        seq_has_mat(items, id),
    decreases items,
{
    if i > 0 {
        lemma_seq_has_mat_at(items.drop_first(), i - 1, id);
    }
}

/// Any hit an object answers lies inside the queried range: the spec-level
/// face of the guarantee every executable `hit` carries.
pub proof fn lemma_obj_hit_t_in(o: ObjV, ray: R3, t0: int, t1: int)
    ensures
        obj_hit_s(o, ray, t0, t1) matches Some(h) ==> t0 <= h.t <= t1,
    decreases o,
{
    match o {
        ObjV::List(l) => {
            lemma_scan_hit_t_in(l.items, ray, t0, t1, None);
        },
        ObjV::Translate(t) => {
            lemma_obj_hit_t_in(*t.inner, translate_decorator::moved_ray_s(ray, t.offset), t0, t1);
        },
        ObjV::RotateY(r) => {
            lemma_obj_hit_t_in(
                *r.inner,
                rotate_y_decorator::rotated_ray_s(ray, r.sin_theta, r.cos_theta),
                t0,
                t1,
            );
        },
        _ => {},
    }
}

/// The scan keeps every answer inside the range, provided what it starts
/// from lies inside too.
pub proof fn lemma_scan_hit_t_in(items: Seq<ObjV>, ray: R3, t0: int, t1: int, best: Option<Hr>)
    requires
        best matches Some(h) ==> t0 <= h.t <= t1,
    ensures
        scan_hit_s(items, ray, t0, t1, best) matches Some(h) ==> t0 <= h.t <= t1,
    decreases items,
{
    if items.len() > 0 {
        let bound = match best {
            Some(h) => h.t,
            None => t1,
        };
        lemma_obj_hit_t_in(items[0], ray, t0, bound);
        let first = obj_hit_s(items[0], ray, t0, bound);
        let next_best = match first {
            Some(h) => Some(h),
            None => best,
        };
        lemma_scan_hit_t_in(items.drop_first(), ray, t0, t1, next_best);
    }
}

/// The scan never invents intersections: its answer is what it started
/// from, or what one of the scanned objects answers with the far end of
/// the range possibly pulled in.
pub proof fn lemma_scan_hit_is_an_item_hit(
    items: Seq<ObjV>,
    ray: R3,
    t0: int,
    t1: int,
    best: Option<Hr>,
)
    ensures
        scan_hit_s(items, ray, t0, t1, best) == best || exists|i: int, bound: int|
            {
                &&& 0 <= i < items.len()
                &&& #[trigger] obj_hit_s(items[i], ray, t0, bound) == scan_hit_s(
                    items,
                    ray,
                    t0,
                    t1,
                    best,
                )
            },
    decreases items,
{
    if items.len() > 0 {
        let bound0 = match best {
            Some(h) => h.t,
            None => t1,
        };
        let first = obj_hit_s(items[0], ray, t0, bound0);
        let next_best = match first {
            Some(h) => Some(h),
            None => best,
        };
        let result = scan_hit_s(items, ray, t0, t1, best);
        lemma_scan_hit_is_an_item_hit(items.drop_first(), ray, t0, t1, next_best);
        if result == next_best {
            if first is Some {
                assert(obj_hit_s(items[0], ray, t0, bound0) == result);
            }
        } else {
            let (i, b) = choose|i: int, b: int|
                0 <= i < items.drop_first().len() && #[trigger] obj_hit_s(
                    items.drop_first()[i],
                    ray,
                    t0,
                    b,
                ) == result;
            assert(items.drop_first()[i] == items[i + 1]);
            assert(obj_hit_s(items[i + 1], ray, t0, b) == result);
        }
    }
}

/// The stored bounding box of an object, at the mathematical level.
pub open spec fn obj_bb(o: ObjV) -> Bb
    decreases o,
{
    match o {
        ObjV::Sphere(s) => s.bounding_box,
        ObjV::MovingSphere(m) => m.bounding_box,
        ObjV::Quad(q) => q.bounding_box,
        ObjV::List(l) => l.bounding_box,
        ObjV::Translate(t) => t.bbox,
        ObjV::RotateY(r) => r.bbox,
        ObjV::Medium(m) => obj_bb(*m.boundary),
    }
}

impl HittableObjectType {
    /// The nearest intersection of the ray with this object at a parameter
    /// inside `t_range`, if any. Objects without media answer exactly as
    /// `obj_hit_s` says; a medium draws its free flight from `rng`, and
    /// every outcome stays inside the range.
    pub fn hit(&self, ray: &Ray, t_range: &Interval, rng: &mut Rng) -> (r: Option<HitRecord>)
        ensures
            !has_medium(self@) ==> hittable_object::opt_hr(r) == obj_hit_s(
                self@,
                ray@,
                t_range@.start,
                t_range@.end,
            ),
            opt_hr_t_in(r, t_range@.start, t_range@.end),
            r matches Some(h) ==> obj_has_mat(self@, h@.material_id),
        decreases *self,
    {
        match self {
            HittableObjectType::Sphere(sphere) => sphere.hit(ray, t_range),
            HittableObjectType::MovingSphere(moving_sphere) => moving_sphere.hit(ray, t_range),
            HittableObjectType::Quad(quad) => quad.hit(ray, t_range),
            HittableObjectType::HittableObjectList(hittable_objects_list) => {
                hittable_objects_list.hit(ray, t_range, rng)
            },
            HittableObjectType::TranslateDecorator(translate_decorator) => {
                translate_decorator.hit(ray, t_range, rng)
            },
            HittableObjectType::RotateYDecorator(rotate_y_decorator) => {
                rotate_y_decorator.hit(ray, t_range, rng)
            },
            HittableObjectType::ConstantDensityMedium(medium) => medium.hit(ray, t_range, rng),
        }
    }

    /// The object's precomputed bounding box.
    pub fn bounding_box(&self) -> (r: &AxisAlignedBoundingBox)
        ensures
            r@ == obj_bb(self@),
        decreases *self,
    {
        match self {
            HittableObjectType::Sphere(sphere) => sphere.bounding_box(),
            HittableObjectType::MovingSphere(moving_sphere) => moving_sphere.bounding_box(),
            HittableObjectType::Quad(quad) => quad.bounding_box(),
            HittableObjectType::HittableObjectList(hittable_objects_list) => {
                hittable_objects_list.bounding_box()
            },
            HittableObjectType::TranslateDecorator(translate_decorator) => {
                translate_decorator.bounding_box()
            },
            HittableObjectType::RotateYDecorator(rotate_y_decorator) => {
                rotate_y_decorator.bounding_box()
            },
            HittableObjectType::ConstantDensityMedium(medium) => medium.bounding_box(),
        }
    }
}

impl Clone for HittableObjectType {
    /// An object with the same mathematical value, copied whole.
    fn clone(&self) -> (r: Self)
        ensures
            r@ == self@,
        decreases *self,
    {
        match self {
            HittableObjectType::Sphere(s) => HittableObjectType::Sphere(s.clone()),
            HittableObjectType::MovingSphere(m) => HittableObjectType::MovingSphere(m.clone()),
            HittableObjectType::Quad(q) => HittableObjectType::Quad(q.clone()),
            HittableObjectType::HittableObjectList(l) => HittableObjectType::HittableObjectList(
                l.clone(),
            ),
            HittableObjectType::TranslateDecorator(t) => HittableObjectType::TranslateDecorator(
                t.clone(),
            ),
            HittableObjectType::RotateYDecorator(rot) => HittableObjectType::RotateYDecorator(
                rot.clone(),
            ),
            HittableObjectType::ConstantDensityMedium(m) => {
                HittableObjectType::ConstantDensityMedium(m.clone())
            },
        }
    }
}

impl From<Sphere> for HittableObjectType {
    fn from(value: Sphere) -> (r: HittableObjectType) {
        HittableObjectType::Sphere(value)
    }
}

impl vstd::std_specs::convert::FromSpecImpl<Sphere> for HittableObjectType {
    open spec fn obeys_from_spec() -> bool {
        true
    }

    open spec fn from_spec(value: Sphere) -> HittableObjectType {
        HittableObjectType::Sphere(value)
    }
}

impl From<MovingSphere> for HittableObjectType {
    fn from(value: MovingSphere) -> (r: HittableObjectType) {
        HittableObjectType::MovingSphere(value)
    }
}

impl vstd::std_specs::convert::FromSpecImpl<MovingSphere> for HittableObjectType {
    open spec fn obeys_from_spec() -> bool {
        true
    }

    open spec fn from_spec(value: MovingSphere) -> HittableObjectType {
        HittableObjectType::MovingSphere(value)
    }
}

impl From<Quad> for HittableObjectType {
    fn from(value: Quad) -> (r: HittableObjectType) {
        HittableObjectType::Quad(value)
    }
}

impl vstd::std_specs::convert::FromSpecImpl<Quad> for HittableObjectType {
    open spec fn obeys_from_spec() -> bool {
        true
    }

    open spec fn from_spec(value: Quad) -> HittableObjectType {
        HittableObjectType::Quad(value)
    }
}

impl From<HittableObjectsList> for HittableObjectType {
    fn from(value: HittableObjectsList) -> (r: HittableObjectType) {
        HittableObjectType::HittableObjectList(value)
    }
}

impl vstd::std_specs::convert::FromSpecImpl<HittableObjectsList> for HittableObjectType {
    open spec fn obeys_from_spec() -> bool {
        true
    }

    open spec fn from_spec(value: HittableObjectsList) -> HittableObjectType {
        HittableObjectType::HittableObjectList(value)
    }
}

impl From<TranslateDecorator> for HittableObjectType {
    fn from(value: TranslateDecorator) -> (r: HittableObjectType) {
        HittableObjectType::TranslateDecorator(value)
    }
}

impl vstd::std_specs::convert::FromSpecImpl<TranslateDecorator> for HittableObjectType {
    open spec fn obeys_from_spec() -> bool {
        true
    }

    open spec fn from_spec(value: TranslateDecorator) -> HittableObjectType {
        HittableObjectType::TranslateDecorator(value)
    }
}

impl From<RotateYDecorator> for HittableObjectType {
    fn from(value: RotateYDecorator) -> (r: HittableObjectType) {
        HittableObjectType::RotateYDecorator(value)
    }
}

impl vstd::std_specs::convert::FromSpecImpl<RotateYDecorator> for HittableObjectType {
    open spec fn obeys_from_spec() -> bool {
        true
    }

    open spec fn from_spec(value: RotateYDecorator) -> HittableObjectType {
        HittableObjectType::RotateYDecorator(value)
    }
}

impl From<ConstantDensityMedium> for HittableObjectType {
    fn from(value: ConstantDensityMedium) -> (r: HittableObjectType) {
        HittableObjectType::ConstantDensityMedium(value)
    }
}

impl vstd::std_specs::convert::FromSpecImpl<ConstantDensityMedium> for HittableObjectType {
    open spec fn obeys_from_spec() -> bool {
        true
    }

    open spec fn from_spec(value: ConstantDensityMedium) -> HittableObjectType {
        HittableObjectType::ConstantDensityMedium(value)
    }
}

} // verus!
