//! An ordered group of hittable objects, itself hittable: a ray query scans
//! the group linearly, always keeping the closest hit found so far.

use crate::aabb::{empty_bb, merge_bb, AxisAlignedBoundingBox, Bb};
use crate::interval::Interval;
use crate::object::hittable_object::{opt_hr, opt_hr_t_in, HitRecord};
use crate::object::{
    has_medium, lemma_seq_has_mat_at, lemma_seq_view_index, lemma_seq_view_len, lemma_seq_view_push,
    obj_bb, obj_view, scan_hit_s, seq_has_mat, seq_has_medium, seq_view, HittableObjectType, ListV,
    ObjV,
};
use crate::ray::Ray;
use crate::rng::Rng;
use vstd::prelude::*;

verus! {

/// A flat ordered collection of objects with their merged bounding box.
pub struct HittableObjectsList {
    pub items: Vec<HittableObjectType>,
    pub bounding_box: AxisAlignedBoundingBox,
}

impl View for HittableObjectsList {
    type V = ListV;

    open spec fn view(&self) -> ListV {
        ListV { items: seq_view(self.items@), bounding_box: self.bounding_box@ }
    }
}

/// The objects of a sequence with every nested group spliced in flat.
pub open spec fn flatten_s(items: Seq<ObjV>) -> Seq<ObjV>
    decreases items,
{
    if items.len() == 0 {
        Seq::empty()
    } else {
        flatten_obj_s(items[0]) + flatten_s(items.drop_first())
    }
}

/// One object flattened: a group spreads into its flattened items, anything
/// else stands alone.
pub open spec fn flatten_obj_s(o: ObjV) -> Seq<ObjV>
    decreases o,
{
    match o {
        ObjV::List(l) => flatten_s(l.items),
        _ => seq![o],
    }
}

/// No object of a sequence holds a medium anywhere inside.
pub proof fn lemma_no_medium_at(items: Seq<ObjV>, i: int)
    requires
        !seq_has_medium(items),
        0 <= i < items.len(),
    ensures
        !has_medium(items[i]),
    decreases items,
{
    if i > 0 {
        lemma_no_medium_at(items.drop_first(), i - 1);
    }
}

/// Viewing a concatenation concatenates the views.
pub proof fn lemma_seq_view_concat(a: Seq<HittableObjectType>, b: Seq<HittableObjectType>)
    ensures
        seq_view(a + b) == seq_view(a) + seq_view(b),
    decreases b,
{
    if b.len() == 0 {
        assert(a + b =~= a);
        assert(seq_view(a) + seq_view(b) =~= seq_view(a));
    } else {
        lemma_seq_view_concat(a, b.drop_last());
        assert((a + b).drop_last() =~= a + b.drop_last());
        assert((a + b).last() == b.last());
        lemma_seq_view_len(a);
        lemma_seq_view_len(b);
        lemma_seq_view_len(b.drop_last());
        assert(seq_view(a + b) == (seq_view(a) + seq_view(b.drop_last())).push(
            obj_view(b.last()),
        ));
        assert(seq_view(b) == seq_view(b.drop_last()).push(obj_view(b.last())));
        assert((seq_view(a) + seq_view(b.drop_last())).push(obj_view(b.last())) =~= seq_view(a)
            + seq_view(b.drop_last()).push(obj_view(b.last())));
    }
}

impl Clone for HittableObjectsList {
    /// A group with the same mathematical value, copied object by object.
    fn clone(&self) -> (r: Self)
        ensures
            r@ == self@,
        decreases *self,
    {
        let mut items: Vec<HittableObjectType> = Vec::new();
        let mut i: usize = 0;
        while i < self.items.len()
            invariant
                i <= self.items@.len(),
                seq_view(items@) == seq_view(self.items@.take(i as int)),
            decreases self.items@.len() - i,
        {
            let c = self.items[i].clone();
            proof {
                lemma_seq_view_push(items@, c);
                lemma_seq_view_push(self.items@.take(i as int), self.items@[i as int]);
                assert(self.items@.take(i as int + 1) =~= self.items@.take(i as int).push(
                    self.items@[i as int],
                ));
            }
            items.push(c);
            i = i + 1;
        }
        proof {
            assert(self.items@.take(self.items@.len() as int) =~= self.items@);
        }
        HittableObjectsList { items, bounding_box: self.bounding_box }
    }
}

impl HittableObjectsList {
    /// An empty group with the degenerate empty box.
    pub fn new() -> (r: HittableObjectsList)
        ensures
            r.items@.len() == 0,
            r@.items.len() == 0,
            r.bounding_box@ == empty_bb(),
    {
        HittableObjectsList { items: Vec::new(), bounding_box: AxisAlignedBoundingBox::empty() }
    }

    /// Append an object, growing the group's box to cover it.
    pub fn add(&mut self, item: HittableObjectType)
        ensures
            final(self).items@ == old(self).items@.push(item),
            final(self)@.items == old(self)@.items.push(item@),
            final(self).bounding_box@ == merge_bb(old(self).bounding_box@, obj_bb(item@)),
    {
        proof {
            lemma_seq_view_push(self.items@, item);
        }
        self.bounding_box = AxisAlignedBoundingBox::merge(&self.bounding_box, item.bounding_box());
        self.items.push(item);
    }

    /// The objects of the group, in order.
    pub fn items(&self) -> (r: &Vec<HittableObjectType>)
        ensures
            r@ == self.items@,
    {
        &self.items
    }

    /// Every object of the group, with nested groups spliced in flat.
    pub fn items_flat(&self) -> (r: Vec<HittableObjectType>)
        ensures
            seq_view(r@) == flatten_s(self@.items),
    {
        Self::flatten_hittable_objects_list(&self.items)
    }

    /// Every object of the sequence, with nested groups spliced in flat.
    pub fn flatten_hittable_objects_list(objs: &Vec<HittableObjectType>) -> (r: Vec<
        HittableObjectType,
    >)
        ensures
            seq_view(r@) == flatten_s(seq_view(objs@)),
        decreases objs@,
    {
        let ghost vs = seq_view(objs@);
        proof {
            lemma_seq_view_len(objs@);
        }
        let mut out: Vec<HittableObjectType> = Vec::new();
        let mut i: usize = 0;
        while i < objs.len()
            invariant
                i <= objs@.len(),
                vs == seq_view(objs@),
                vs.len() == objs@.len(),
                seq_view(out@) == flatten_prefix_s(vs, i as int),
            decreases objs@.len() - i,
        {
            proof {
                lemma_seq_view_index(objs@, i as int);
            }
            let item = &objs[i];
            match item {
                HittableObjectType::HittableObjectList(list) => {
                    let mut inner = Self::flatten_hittable_objects_list(&list.items);
                    proof {
                        lemma_flatten_prefix_step(vs, i as int);
                        lemma_seq_view_concat(out@, inner@);
                    }
                    out.append(&mut inner);
                },
                _ => {
                    let c = item.clone();
                    proof {
                        lemma_flatten_prefix_step(vs, i as int);
                        lemma_seq_view_push(out@, c);
                        assert(seq_view(out@).push(c@) =~= seq_view(out@) + seq![c@]);
                    }
                    out.push(c);
                },
            }
            i = i + 1;
        }
        proof {
            lemma_flatten_prefix_full(vs);
        }
        out
    }

    /// The closest hit over the group: each object is queried with the far
    /// end of the range pulled in to the best hit so far, exactly the scan
    /// `scan_hit_s` describes when the group holds no media.
    pub fn hit(&self, ray: &Ray, t_range: &Interval, rng: &mut Rng) -> (r: Option<HitRecord>)
        ensures
            !seq_has_medium(self@.items) ==> opt_hr(r) == scan_hit_s(
                self@.items,
                ray@,
                t_range@.start,
                t_range@.end,
                None,
            ),
            opt_hr_t_in(r, t_range@.start, t_range@.end),
            r matches Some(h) ==> seq_has_mat(self@.items, h@.material_id),
        decreases self,
    {
        let ghost t0 = t_range@.start;
        let ghost t1 = t_range@.end;
        let ghost vs = seq_view(self.items@);
        proof {
            lemma_seq_view_len(self.items@);
            assert(vs.skip(0) =~= vs);
        }
        let mut closest_hit: Option<HitRecord> = None;
        let mut closest_t = t_range.end;
        let mut i: usize = 0;
        while i < self.items.len()
            invariant
                i <= self.items@.len(),
                vs == seq_view(self.items@),
                vs.len() == self.items@.len(),
                closest_t as int == (match closest_hit {
                    Some(h) => h@.t,
                    None => t1,
                }),
                opt_hr_t_in(closest_hit, t0, t1),
                closest_hit matches Some(h) ==> seq_has_mat(vs, h@.material_id),
                t0 == t_range@.start,
                t1 == t_range@.end,
                !seq_has_medium(vs) ==> scan_hit_s(vs, ray@, t0, t1, None) == scan_hit_s(
                    vs.skip(i as int),
                    ray@,
                    t0,
                    t1,
                    opt_hr(closest_hit),
                ),
            decreases self.items@.len() - i,
        {
            let range = Interval::new(t_range.start, closest_t);
            let obj_hit = self.items[i].hit(ray, &range, rng);
            proof {
                lemma_seq_view_index(self.items@, i as int);
                if !seq_has_medium(vs) {
                    lemma_no_medium_at(vs, i as int);
                    assert(vs.skip(i as int).drop_first() =~= vs.skip(i as int + 1));
                    assert(vs.skip(i as int)[0] == vs[i as int]);
                }
            }
            if let Some(hit_record) = obj_hit {
                proof {
                    lemma_seq_has_mat_at(vs, i as int, hit_record@.material_id);
                }
                closest_t = hit_record.t();
                closest_hit = Some(hit_record);
            }
            i = i + 1;
        }
        proof {
            if !seq_has_medium(vs) {
                assert(vs.skip(vs.len() as int) =~= Seq::<ObjV>::empty());
            }
        }
        closest_hit
    }

    /// The group's merged bounding box.
    pub fn bounding_box(&self) -> (r: &AxisAlignedBoundingBox)
        ensures
            r@ == self@.bounding_box,
    {
        &self.bounding_box
    }
}

/// The flattening of the first `i` objects of a sequence.
pub open spec fn flatten_prefix_s(items: Seq<ObjV>, i: int) -> Seq<ObjV>
    decreases i,
{
    if i <= 0 {
        Seq::empty()
    } else {
        flatten_prefix_s(items, i - 1) + flatten_obj_s(items[i - 1])
    }
}

/// Extending a flattened prefix by one object appends that object's
/// flattening.
proof fn lemma_flatten_prefix_step(items: Seq<ObjV>, i: int)
    requires
        0 <= i < items.len(),
    ensures
        flatten_prefix_s(items, i + 1) == flatten_prefix_s(items, i) + flatten_obj_s(items[i]),
{
}

/// The whole flattened prefix is the flattening of the sequence.
proof fn lemma_flatten_prefix_full(items: Seq<ObjV>)
    ensures
        flatten_prefix_s(items, items.len() as int) == flatten_s(items),
{
    lemma_flatten_prefix_from(items, 0);
    assert(items.skip(0) =~= items);
    assert(flatten_prefix_s(items, 0) + flatten_s(items) =~= flatten_s(items));
}

/// The flattening of a sequence splits at any position into the flattened
/// prefix and the flattening of the rest.
proof fn lemma_flatten_prefix_from(items: Seq<ObjV>, i: int)
    requires
        0 <= i <= items.len(),
    ensures
        flatten_prefix_s(items, items.len() as int) == flatten_prefix_s(items, i) + flatten_s(
            items.skip(i),
        ),
    decreases items.len() - i,
{
    if i == items.len() {
        assert(items.skip(i) =~= Seq::<ObjV>::empty());
        assert(flatten_prefix_s(items, i) + Seq::<ObjV>::empty() =~= flatten_prefix_s(items, i));
    } else {
        lemma_flatten_prefix_from(items, i + 1);
        lemma_flatten_prefix_step(items, i);
        assert(items.skip(i)[0] == items[i]);
        assert(items.skip(i).drop_first() =~= items.skip(i + 1));
        assert((flatten_prefix_s(items, i) + flatten_obj_s(items[i])) + flatten_s(items.skip(i + 1))
            =~= flatten_prefix_s(items, i) + (flatten_obj_s(items[i]) + flatten_s(
            items.skip(i + 1),
        )));
    }
}

impl From<Vec<HittableObjectType>> for HittableObjectsList {
    /// A group over the given objects, with their merged box computed by a
    /// fold from the empty box.
    fn from(value: Vec<HittableObjectType>) -> (r: HittableObjectsList) {
        let ghost vs = seq_view(value@);
        proof {
            lemma_seq_view_len(value@);
        }
        let mut bounding_box = AxisAlignedBoundingBox::empty();
        let mut i: usize = 0;
        while i < value.len()
            invariant
                i <= value@.len(),
                vs == seq_view(value@),
                vs.len() == value@.len(),
                bounding_box@ == fold_bb_s(vs, i as int),
            decreases value@.len() - i,
        {
            proof {
                lemma_seq_view_index(value@, i as int);
            }
            bounding_box = AxisAlignedBoundingBox::merge(&bounding_box, value[i].bounding_box());
            i = i + 1;
        }
        HittableObjectsList { items: value, bounding_box }
    }
}

impl vstd::std_specs::convert::FromSpecImpl<Vec<HittableObjectType>> for HittableObjectsList {
    open spec fn obeys_from_spec() -> bool {
        true
    }

    open spec fn from_spec(value: Vec<HittableObjectType>) -> HittableObjectsList {
        HittableObjectsList {
            items: value,
            bounding_box: bb_exec_of(fold_bb_s(seq_view(value@), value@.len() as int)),
        }
    }
}

/// The merged box of the first `i` objects, folded from the empty box.
pub open spec fn fold_bb_s(items: Seq<ObjV>, i: int) -> Bb
    decreases i,
{
    if i <= 0 {
        empty_bb()
    } else {
        merge_bb(fold_bb_s(items, i - 1), obj_bb(items[i - 1]))
    }
}

/// The boxed value whose view is the given mathematical box; meaningful for
/// boxes whose bounds are representable, which every fold of stored boxes is.
pub open spec fn bb_exec_of(b: Bb) -> AxisAlignedBoundingBox {
    AxisAlignedBoundingBox {
        interval_x: Interval { start: b.x.start as i64, end: b.x.end as i64 },
        interval_y: Interval { start: b.y.start as i64, end: b.y.end as i64 },
        interval_z: Interval { start: b.z.start as i64, end: b.z.end as i64 },
    }
}

} // verus!
