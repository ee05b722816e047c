//! A bounding-volume hierarchy: a binary tree over objects, stored in one
//! flat array with the root at index zero, built by recursive splitting on
//! the longest axis and queried by recursive descent with box pruning.

use crate::aabb::{contains_bb, lemma_merge_contains_both, lemma_slab_monotone, slab_s, wf_bb, Axis, AxisAlignedBoundingBox, Bb};
use crate::interval::{Interval, Iv};
use crate::object::hittable_object::{opt_hr, opt_hr_t_in, HitRecord, Hr};
use crate::object::{has_medium, lemma_obj_hit_t_in, obj_bb, obj_has_mat, obj_hit_s, HittableObjectType};
use crate::ray::{Ray, R3};
use crate::rng::Rng;
use vstd::pervasive::VecAdditionalExecFns;
use vstd::multiset::Multiset;
use vstd::prelude::*;

verus! {

/// One slot of the flat tree: an internal node or a leaf.
pub enum BvhValue {
    Node(BvhNode),
    Leaf(BvhLeaf),
}

/// An internal node: indices of its two children, which always lie further
/// along the array, and the merged box of its subtree.
pub struct BvhNode {
    pub left_id: usize,
    pub right_id: usize,
    pub bounding_box: AxisAlignedBoundingBox,
}

/// A leaf owning one object.
pub struct BvhLeaf {
    pub object: HittableObjectType,
}

/// Every node of `[from, to)` points its children into `(i, to)`: indices
/// are valid and strictly increase, so descent terminates.
pub open spec fn wf_range(nodes: Seq<BvhValue>, from: int, to: int) -> bool {
    forall|i: int|
        from <= i < to ==> match #[trigger] nodes[i] {
            BvhValue::Node(n) => i < n.left_id < to && i < n.right_id < to,
            BvhValue::Leaf(_) => true,
        }
}

/// Every internal node of `[from, to)` stands for exactly the merge of its
/// children's boxes — so in particular it contains them, which is what
/// makes pruning by a node's box safe.
pub open spec fn box_wf_range(nodes: Seq<BvhValue>, from: int, to: int) -> bool {
    forall|j: int|
        from <= j < to ==> match #[trigger] nodes[j] {
            BvhValue::Node(n) => n.bounding_box@ == crate::aabb::merge_bb(
                node_box(nodes[n.left_id as int]),
                node_box(nodes[n.right_id as int]),
            ),
            BvhValue::Leaf(_) => true,
        }
}

/// Whether slot `i` lies in the subtree rooted at slot `id`.
pub open spec fn in_subtree(nodes: Seq<BvhValue>, id: int, i: int) -> bool
    decreases nodes.len() - id,
    when 0 <= id < nodes.len() && wf_range(nodes, 0, nodes.len() as int)
{
    id == i || match nodes[id] {
        BvhValue::Node(n) => in_subtree(nodes, n.left_id as int, i) || in_subtree(
            nodes,
            n.right_id as int,
            i,
        ),
        BvhValue::Leaf(_) => false,
    }
}

/// The box a slot stands for.
pub open spec fn node_box(v: BvhValue) -> Bb {
    match v {
        BvhValue::Node(n) => n.bounding_box@,
        BvhValue::Leaf(l) => obj_bb(l.object@),
    }
}

/// No leaf of the tree holds a medium.
pub open spec fn bvh_no_medium(nodes: Seq<BvhValue>) -> bool {
    forall|i: int|
        0 <= i < nodes.len() ==> match #[trigger] nodes[i] {
            BvhValue::Leaf(l) => !has_medium(l.object@),
            BvhValue::Node(_) => true,
        }
}

/// Whether some leaf of the tree mentions this material index.
pub open spec fn bvh_has_mat(nodes: Seq<BvhValue>, id: int) -> bool {
    exists|i: int|
        0 <= i < nodes.len() && match #[trigger] nodes[i] {
            BvhValue::Leaf(l) => obj_has_mat(l.object@, id),
            BvhValue::Node(_) => false,
        }
}

/// The objects of the tree's leaves, as a multiset: what a query can hit.
pub open spec fn leaf_ms(nodes: Seq<BvhValue>) -> Multiset<HittableObjectType>
    decreases nodes,
{
    if nodes.len() == 0 {
        Multiset::empty()
    } else {
        let rest = leaf_ms(nodes.drop_first());
        match nodes[0] {
            BvhValue::Leaf(l) => rest.insert(l.object),
            BvhValue::Node(_) => rest,
        }
    }
}

/// The leaves of a concatenation are the leaves of both parts.
pub proof fn lemma_leaf_ms_concat(a: Seq<BvhValue>, b: Seq<BvhValue>)
    ensures
        leaf_ms(a + b) == leaf_ms(a).add(leaf_ms(b)),
    decreases a,
{
    if a.len() == 0 {
        assert(a + b =~= b);
        assert(leaf_ms(a).add(leaf_ms(b)) =~= leaf_ms(b));
    } else {
        lemma_leaf_ms_concat(a.drop_first(), b);
        assert((a + b).drop_first() =~= a.drop_first() + b);
        assert((a + b)[0] == a[0]);
        match a[0] {
            BvhValue::Leaf(l) => {
                assert(leaf_ms(a.drop_first()).add(leaf_ms(b)).insert(l.object) =~= leaf_ms(
                    a.drop_first(),
                ).insert(l.object).add(leaf_ms(b)));
            },
            BvhValue::Node(_) => {},
        }
    }
}

/// Replacing one internal node by another leaves the leaf objects alone.
pub proof fn lemma_leaf_ms_update_node(nodes: Seq<BvhValue>, i: int, n: BvhNode)
    requires
        0 <= i < nodes.len(),
        nodes[i] is Node,
    ensures
        leaf_ms(nodes.update(i, BvhValue::Node(n))) == leaf_ms(nodes),
    decreases nodes,
{
    if i == 0 {
        assert(nodes.update(0, BvhValue::Node(n)).drop_first() =~= nodes.drop_first());
    } else {
        lemma_leaf_ms_update_node(nodes.drop_first(), i - 1, n);
        assert(nodes.update(i, BvhValue::Node(n)).drop_first() =~= nodes.drop_first().update(
            i - 1,
            BvhValue::Node(n),
        ));
        assert(nodes.update(i, BvhValue::Node(n))[0] == nodes[0]);
    }
}

/// What a query of the subtree at `id` returns: nothing if the node's box
/// turns the ray away; otherwise the left answer, its parameter used to
/// shrink the range searched on the right, and the right answer preferred
/// when both subtrees hit.
pub open spec fn bvh_hit_s(nodes: Seq<BvhValue>, id: int, ray: R3, t0: int, t1: int) -> Option<Hr>
    decreases nodes.len() - id,
    when 0 <= id < nodes.len() && wf_range(nodes, 0, nodes.len() as int)
{
    match nodes[id] {
        BvhValue::Node(n) => {
            if !slab_s(n.bounding_box@, ray.origin, ray.direction, Iv { start: t0, end: t1 }) {
                None
            } else {
                let left = bvh_hit_s(nodes, n.left_id as int, ray, t0, t1);
                let bound = match left {
                    Some(h) => h.t,
                    None => t1,
                };
                let right = bvh_hit_s(nodes, n.right_id as int, ray, t0, bound);
                match right {
                    Some(h) => Some(h),
                    None => left,
                }
            }
        },
        BvhValue::Leaf(l) => obj_hit_s(l.object@, ray, t0, t1),
    }
}

/// The flat tree. The root is at index zero; every tree holds at least one
/// leaf, and no slot points outside the array.
pub struct BvhTree {
    pub nodes: Vec<BvhValue>,
}

impl BvhLeaf {
    /// A leaf answers for its object.
    pub fn hit(&self, ray: &Ray, t_range: &Interval, rng: &mut Rng) -> (r: Option<HitRecord>)
        ensures
            !has_medium(self.object@) ==> opt_hr(r) == obj_hit_s(
                self.object@,
                ray@,
                t_range@.start,
                t_range@.end,
            ),
            opt_hr_t_in(r, t_range@.start, t_range@.end),
            r matches Some(h) ==> obj_has_mat(self.object@, h@.material_id),
    {
        self.object.hit(ray, t_range, rng)
    }

    /// A leaf's box is its object's.
    pub fn bounding_box(&self) -> (r: &AxisAlignedBoundingBox)
        ensures
            r@ == obj_bb(self.object@),
    {
        self.object.bounding_box()
    }
}

impl BvhTree {
    /// Index validity and nonemptiness: what every query relies on.
    pub open spec fn wf(&self) -> bool {
        self.nodes@.len() > 0 && wf_range(self.nodes@, 0, self.nodes@.len() as int)
    }

    /// A tree over the given objects, built by recursive median splitting
    /// along the longest axis of the merged bounding box. The tree's leaves
    /// hold exactly the given objects, every node's box is the merge of its
    /// children's, and the root's box covers every leaf's — so the whole
    /// tree's box contains every input object's.
    pub fn from(value: Vec<HittableObjectType>) -> (r: BvhTree)
        requires
            value@.len() >= 1,
        ensures
            r.wf(),
            box_wf_range(r.nodes@, 0, r.nodes@.len() as int),
            leaf_ms(r.nodes@) == value@.to_multiset(),
            forall|k: int|
                0 <= k < r.nodes@.len() ==> match #[trigger] r.nodes@[k] {
                    BvhValue::Leaf(l) => contains_bb(node_box(r.nodes@[0]), obj_bb(l.object@)),
                    BvhValue::Node(_) => true,
                },
    {
        let mut nodes: Vec<BvhValue> = Vec::new();
        let _root = Self::build(&mut nodes, value);
        proof {
            assert(nodes@.subrange(0, nodes@.len() as int) =~= nodes@);
        }
        BvhTree { nodes }
    }

    /// Build the subtree over `objects` at the end of `nodes`, returning its
    /// root index, which is the first slot appended. Children always sit at
    /// larger indices, and the appended slots' leaves hold the objects.
    #[verifier::rlimit(60)]
    fn build(nodes: &mut Vec<BvhValue>, objects: Vec<HittableObjectType>) -> (id: usize)
        requires
            objects@.len() >= 1,
        ensures
            id == old(nodes)@.len(),
            final(nodes)@.len() > old(nodes)@.len(),
            final(nodes)@.subrange(0, old(nodes)@.len() as int) == old(nodes)@,
            wf_range(final(nodes)@, old(nodes)@.len() as int, final(nodes)@.len() as int),
            box_wf_range(final(nodes)@, old(nodes)@.len() as int, final(nodes)@.len() as int),
            forall|k: int|
                old(nodes)@.len() <= k < final(nodes)@.len() ==> match #[trigger] final(nodes)@[k] {
                    BvhValue::Leaf(l) => contains_bb(
                        node_box(final(nodes)@[old(nodes)@.len() as int]),
                        obj_bb(l.object@),
                    ),
                    BvhValue::Node(_) => true,
                },
            leaf_ms(final(nodes)@.skip(old(nodes)@.len() as int)) == objects@.to_multiset(),
        decreases objects@.len(),
    {
        broadcast use vstd::seq_lib::group_to_multiset_ensures;
        broadcast use vstd::multiset::group_multiset_axioms;

        let ghost old_nodes = nodes@;
        let id = nodes.len();
        let mut objects = objects;

        if objects.len() == 1 {
            let ghost objs0 = objects@;
            let obj = objects.remove(0);
            nodes.push(BvhValue::Leaf(BvhLeaf { object: obj }));
            proof {
                let seg = nodes@.skip(old_nodes.len() as int);
                assert(seg =~= seq![BvhValue::Leaf(BvhLeaf { object: obj })]);
                assert(seg.drop_first() =~= Seq::<BvhValue>::empty());
                assert(leaf_ms(Seq::<BvhValue>::empty()) =~= Multiset::<
                    HittableObjectType,
                >::empty());
                assert(leaf_ms(seg.drop_first()) =~= Multiset::<HittableObjectType>::empty());
                assert(leaf_ms(seg) =~= Multiset::empty().insert(obj));
                assert(objs0 =~= Seq::<HittableObjectType>::empty().push(obj));
                assert(Seq::<HittableObjectType>::empty().to_multiset() =~= Multiset::<
                    HittableObjectType,
                >::empty());
                assert(objs0.to_multiset() =~= Multiset::empty().insert(obj));
                assert(nodes@.subrange(0, old_nodes.len() as int) =~= old_nodes);
            }
            return id;
        }

        // Merge the boxes of the whole range to find the longest axis.
        let mut merged = AxisAlignedBoundingBox::empty();
        let mut i: usize = 0;
        while i < objects.len()
            invariant
                i <= objects@.len(),
            decreases objects@.len() - i,
        {
            merged = AxisAlignedBoundingBox::merge(&merged, objects[i].bounding_box());
            i = i + 1;
        }
        let axis = merged.longest_axis();

        let ghost before_sort = objects@;
        let mut objects = sort_by_box_axis(objects, axis);
        let ghost sorted = objects@;

        // Split at the middle; each side keeps at least one object.
        let mid = objects.len() / 2;
        let right_objects = objects.split_off(mid);
        let left_objects = objects;

        // Reserve this node's slot, then lay out both subtrees after it.
        nodes.push(BvhValue::Node(BvhNode { left_id: id, right_id: id, bounding_box: merged }));
        let ghost with_placeholder = nodes@;

        let left_id = Self::build(nodes, left_objects);
        let ghost after_left = nodes@;
        let right_id = Self::build(nodes, right_objects);
        let ghost after_right = nodes@;

        let bb_left = Self::slot_box(nodes, left_id);
        let bb_right = Self::slot_box(nodes, right_id);
        let bounding_box = AxisAlignedBoundingBox::merge(&bb_left, &bb_right);
        nodes.set(id, BvhValue::Node(BvhNode { left_id, right_id, bounding_box }));

        proof {
            let from = old_nodes.len() as int;
            let to = nodes@.len() as int;
            assert(nodes@ =~= after_right.update(id as int, nodes@[id as int]));
            assert forall|k: int| 0 <= k < after_left.len() implies after_right[k] == after_left[k] by {
                assert(after_right.subrange(0, after_left.len() as int)[k] == after_right[k]);
            }
            assert forall|k: int| 0 <= k < with_placeholder.len() implies after_left[k]
                == with_placeholder[k] by {
                assert(after_left.subrange(0, with_placeholder.len() as int)[k] == after_left[k]);
            }
            assert(nodes@.subrange(0, from) =~= old_nodes);

            // Index validity of the appended range.
            assert forall|j: int| from <= j < to implies match #[trigger] nodes@[j] {
                BvhValue::Node(n) => j < n.left_id < to && j < n.right_id < to,
                BvhValue::Leaf(_) => true,
            } by {
                if j == id as int {
                } else if j < after_left.len() {
                    assert(nodes@[j] == after_left[j]);
                } else {
                    assert(nodes@[j] == after_right[j]);
                }
            }

            // Each appended node's box contains its children's boxes.
            assert forall|j: int| from <= j < to implies match #[trigger] nodes@[j] {
                BvhValue::Node(n) => contains_bb(
                    n.bounding_box@,
                    node_box(nodes@[n.left_id as int]),
                ) && contains_bb(n.bounding_box@, node_box(nodes@[n.right_id as int])),
                BvhValue::Leaf(_) => true,
            } by {
                if j == id as int {
                    lemma_merge_contains_both(bb_left@, bb_right@);
                    assert(nodes@[left_id as int] == after_right[left_id as int]);
                    assert(nodes@[right_id as int] == after_right[right_id as int]);
                } else if j < after_left.len() {
                    assert(nodes@[j] == after_left[j]);
                    match after_left[j] {
                        BvhValue::Node(n) => {
                            assert(nodes@[n.left_id as int] == after_left[n.left_id as int]);
                            assert(nodes@[n.right_id as int] == after_left[n.right_id as int]);
                        },
                        BvhValue::Leaf(_) => {},
                    }
                } else {
                    assert(nodes@[j] == after_right[j]);
                    match after_right[j] {
                        BvhValue::Node(n) => {
                            assert(nodes@[n.left_id as int] == after_right[n.left_id as int]);
                            assert(nodes@[n.right_id as int] == after_right[n.right_id as int]);
                        },
                        BvhValue::Leaf(_) => {},
                    }
                }
            }

            // The appended leaves hold exactly the given objects.
            lemma_leaf_ms_update_node(after_right.skip(from), id as int - from, BvhNode { left_id, right_id, bounding_box });
            assert(nodes@.skip(from) =~= after_right.skip(from).update(
                id as int - from,
                nodes@[id as int],
            ));
            let seg_left = after_left.skip(with_placeholder.len() as int);
            let seg_right = after_right.skip(after_left.len() as int);
            assert(after_right.skip(from) =~= (seq![
                with_placeholder[id as int],
            ] + seg_left) + seg_right);
            lemma_leaf_ms_concat(seq![with_placeholder[id as int]] + seg_left, seg_right);
            lemma_leaf_ms_concat(seq![with_placeholder[id as int]], seg_left);
            assert(seq![with_placeholder[id as int]].drop_first() =~= Seq::<BvhValue>::empty());
            assert(leaf_ms(Seq::<BvhValue>::empty()) =~= Multiset::<HittableObjectType>::empty());
            assert(leaf_ms(seq![with_placeholder[id as int]].drop_first()) =~= Multiset::<
                HittableObjectType,
            >::empty());
            assert(with_placeholder[id as int] is Node);
            assert(leaf_ms(seq![with_placeholder[id as int]]) =~= Multiset::<
                HittableObjectType,
            >::empty());
            assert(Multiset::<HittableObjectType>::empty().add(leaf_ms(seg_left)) =~= leaf_ms(
                seg_left,
            ));
            assert(leaf_ms(nodes@.skip(from)) =~= leaf_ms(seg_left).add(leaf_ms(seg_right)));
            let a = sorted.subrange(0, mid as int);
            let b = sorted.subrange(mid as int, sorted.len() as int);
            assert(sorted =~= a + b);
            vstd::seq_lib::lemma_multiset_commutative(a, b);
            assert(leaf_ms(nodes@.skip(from)) =~= before_sort.to_multiset());
        }
        id
    }

    /// The box a slot stands for, copied out.
    fn slot_box(nodes: &Vec<BvhValue>, id: usize) -> (r: AxisAlignedBoundingBox)
        requires
            id < nodes@.len(),
        ensures
            r@ == node_box(nodes@[id as int]),
    {
        match &nodes[id] {
            BvhValue::Node(n) => n.bounding_box,
            BvhValue::Leaf(l) => *l.object.bounding_box(),
        }
    }

    /// The root slot.
    fn root(&self) -> (r: &BvhValue)
        requires
            self.wf(),
        ensures
            r == &self.nodes@[0],
    {
        &self.nodes[0]
    }

    /// The query of the subtree at `node_id`, exactly as `bvh_hit_s` says
    /// for trees without media; every outcome stays inside the range.
    fn hit_node(&self, node_id: usize, ray: &Ray, t_range: &Interval, rng: &mut Rng) -> (r: Option<
        HitRecord,
    >)
        requires
            self.wf(),
            node_id < self.nodes@.len(),
        ensures
            bvh_no_medium(self.nodes@) ==> opt_hr(r) == bvh_hit_s(
                self.nodes@,
                node_id as int,
                ray@,
                t_range@.start,
                t_range@.end,
            ),
            opt_hr_t_in(r, t_range@.start, t_range@.end),
            r matches Some(h) ==> bvh_has_mat(self.nodes@, h@.material_id),
        decreases self.nodes@.len() - node_id,
    {
        let node = &self.nodes[node_id];
        match node {
            BvhValue::Node(inner) => {
                if !inner.bounding_box.intersects_ray(ray, t_range) {
                    return None;
                }

                let hit_left = self.hit_node(inner.left_id, ray, t_range, rng);

                let hit_right_max_t = if let Some(hr) = &hit_left {
                    hr.t()
                } else {
                    t_range.end
                };

                let hit_right_range = Interval::new(t_range.start, hit_right_max_t);
                let hit_right = self.hit_node(inner.right_id, ray, &hit_right_range, rng);
                if hit_right.is_some() {
                    return hit_right;
                }

                hit_left
            },
            BvhValue::Leaf(leaf) => {
                let r = leaf.object.hit(ray, t_range, rng);
                proof {
                    if r is Some {
                        assert(bvh_has_mat(self.nodes@, r.unwrap()@.material_id)) by {
                            assert(match self.nodes@[node_id as int] {
                                BvhValue::Leaf(l) => obj_has_mat(
                                    l.object@,
                                    r.unwrap()@.material_id,
                                ),
                                BvhValue::Node(_) => false,
                            });
                        }
                    }
                }
                r
            },
        }
    }

    /// The nearest hit over the whole tree: the query of the root.
    pub fn hit(&self, ray: &Ray, t_range: &Interval, rng: &mut Rng) -> (r: Option<HitRecord>)
        requires
            self.wf(),
        ensures
            bvh_no_medium(self.nodes@) ==> opt_hr(r) == bvh_hit_s(
                self.nodes@,
                0,
                ray@,
                t_range@.start,
                t_range@.end,
            ),
            opt_hr_t_in(r, t_range@.start, t_range@.end),
            r matches Some(h) ==> bvh_has_mat(self.nodes@, h@.material_id),
    {
        self.hit_node(0, ray, t_range, rng)
    }

    /// The box of the whole tree: the root's.
    pub fn bounding_box(&self) -> (r: &AxisAlignedBoundingBox)
        requires
            self.wf(),
        ensures
            r@ == node_box(self.nodes@[0]),
    {
        match self.root() {
            BvhValue::Node(bvh_node) => &bvh_node.bounding_box,
            BvhValue::Leaf(bvh_leaf) => bvh_leaf.object.bounding_box(),
        }
    }
}

/// A leaf's object lies in the tree's leaf multiset.
pub proof fn lemma_leaf_in_ms(nodes: Seq<BvhValue>, j: int)
    requires
        0 <= j < nodes.len(),
        nodes[j] is Leaf,
    ensures
        leaf_ms(nodes).count(nodes[j]->Leaf_0.object) >= 1,
    decreases nodes,
{
    broadcast use vstd::multiset::group_multiset_axioms;

    if j == 0 {
    } else {
        lemma_leaf_in_ms(nodes.drop_first(), j - 1);
        assert(nodes.drop_first()[j - 1] == nodes[j]);
    }
}

/// Any hit a well-formed tree answers lies inside the queried range.
pub proof fn lemma_bvh_hit_t_in(nodes: Seq<BvhValue>, id: int, ray: R3, t0: int, t1: int)
    requires
        wf_range(nodes, 0, nodes.len() as int),
        0 <= id < nodes.len(),
    ensures
        bvh_hit_s(nodes, id, ray, t0, t1) matches Some(h) ==> t0 <= h.t <= t1,
    decreases nodes.len() - id,
{
    match nodes[id] {
        BvhValue::Node(n) => {
            if slab_s(n.bounding_box@, ray.origin, ray.direction, Iv { start: t0, end: t1 }) {
                lemma_bvh_hit_t_in(nodes, n.left_id as int, ray, t0, t1);
                let left = bvh_hit_s(nodes, n.left_id as int, ray, t0, t1);
                let bound = match left {
                    Some(h) => h.t,
                    None => t1,
                };
                lemma_bvh_hit_t_in(nodes, n.right_id as int, ray, t0, bound);
            }
        },
        BvhValue::Leaf(l) => {
            lemma_obj_hit_t_in(l.object@, ray, t0, t1);
        },
    }
}

/// A tree never invents intersections: whatever a query of a well-formed
/// tree answers is exactly what one of its leaf objects answers for the
/// same ray, with the far end of the range possibly pulled in — the same
/// shrinking discipline the plain linear scan uses. Together with the leaf
/// multiset that `from` guarantees, this ties every tree answer to a hit of
/// one of the objects the tree was built over.
pub proof fn lemma_bvh_hit_is_a_leaf_hit(nodes: Seq<BvhValue>, id: int, ray: R3, t0: int, t1: int)
    requires
        wf_range(nodes, 0, nodes.len() as int),
        0 <= id < nodes.len(),
        bvh_hit_s(nodes, id, ray, t0, t1) is Some,
    ensures
        exists|i: int, bound: int|
            {
                &&& 0 <= i < nodes.len()
                &&& #[trigger] leaf_answers(nodes, i, ray, t0, bound) == bvh_hit_s(
                    nodes,
                    id,
                    ray,
                    t0,
                    t1,
                )
            },
    decreases nodes.len() - id,
{
    match nodes[id] {
        BvhValue::Node(n) => {
            let left = bvh_hit_s(nodes, n.left_id as int, ray, t0, t1);
            let bound = match left {
                Some(h) => h.t,
                None => t1,
            };
            let right = bvh_hit_s(nodes, n.right_id as int, ray, t0, bound);
            if right is Some {
                lemma_bvh_hit_is_a_leaf_hit(nodes, n.right_id as int, ray, t0, bound);
                let (i, b) = choose|i: int, b: int|
                    0 <= i < nodes.len() && #[trigger] leaf_answers(nodes, i, ray, t0, b) == right;
                assert(leaf_answers(nodes, i, ray, t0, b) == bvh_hit_s(nodes, id, ray, t0, t1));
            } else {
                lemma_bvh_hit_is_a_leaf_hit(nodes, n.left_id as int, ray, t0, t1);
                let (i, b) = choose|i: int, b: int|
                    0 <= i < nodes.len() && #[trigger] leaf_answers(nodes, i, ray, t0, b) == left;
                assert(leaf_answers(nodes, i, ray, t0, b) == bvh_hit_s(nodes, id, ray, t0, t1));
            }
        },
        BvhValue::Leaf(_) => {
            assert(leaf_answers(nodes, id, ray, t0, t1) == bvh_hit_s(nodes, id, ray, t0, t1));
        },
    }
}

/// Pruning loses nothing: when a leaf of the tree answers a hit for the
/// queried range, and that leaf's own box admits the ray over the range,
/// the query of every subtree holding the leaf answers a hit too. The
/// leaf-box admission is the one assumption left open: at this resolution
/// a computed hit can in principle land exactly on its box's boundary,
/// which the strict slab test excludes. Together with
/// `lemma_bvh_hit_is_a_leaf_hit` this pins the tree to the leaves: a query
/// answers a hit exactly when some leaf it holds does.
pub proof fn lemma_bvh_hit_completeness(
    nodes: Seq<BvhValue>,
    id: int,
    i: int,
    ray: R3,
    t0: int,
    t1: int,
)
    requires
        wf_range(nodes, 0, nodes.len() as int),
        box_wf_range(nodes, 0, nodes.len() as int),
        forall|j: int| 0 <= j < nodes.len() ==> wf_bb(node_box(#[trigger] nodes[j])),
        0 <= id < nodes.len(),
        in_subtree(nodes, id, i),
        nodes[i] is Leaf,
        obj_hit_s(nodes[i]->Leaf_0.object@, ray, t0, t1) is Some,
        slab_s(
            obj_bb(nodes[i]->Leaf_0.object@),
            ray.origin,
            ray.direction,
            Iv { start: t0, end: t1 },
        ),
    ensures
        bvh_hit_s(nodes, id, ray, t0, t1) is Some,
        slab_s(node_box(nodes[id]), ray.origin, ray.direction, Iv { start: t0, end: t1 }),
    decreases nodes.len() - id,
{
    if id == i {
    } else {
        match nodes[id] {
            BvhValue::Node(n) => {
                if in_subtree(nodes, n.left_id as int, i) {
                    lemma_bvh_hit_completeness(nodes, n.left_id as int, i, ray, t0, t1);
                    lemma_slab_monotone(
                        node_box(nodes[n.left_id as int]),
                        n.bounding_box@,
                        ray.origin,
                        ray.direction,
                        Iv { start: t0, end: t1 },
                    );
                } else {
                    // When the left subtree already answers, the whole node
                    // does; when it does not, the right subtree is searched
                    // over the full range and answers by induction.
                    lemma_bvh_hit_completeness(nodes, n.right_id as int, i, ray, t0, t1);
                    lemma_slab_monotone(
                        node_box(nodes[n.right_id as int]),
                        n.bounding_box@,
                        ray.origin,
                        ray.direction,
                        Iv { start: t0, end: t1 },
                    );
                }
            },
            BvhValue::Leaf(_) => {},
        }
    }
}

/// What the leaf at slot `i` answers, when slot `i` is a leaf.
pub open spec fn leaf_answers(nodes: Seq<BvhValue>, i: int, ray: R3, t0: int, t1: int) -> Option<
    Hr,
> {
    match nodes[i] {
        BvhValue::Leaf(l) => obj_hit_s(l.object@, ray, t0, t1),
        BvhValue::Node(_) => None,
    }
}

/// The objects reordered by bounding-box start along the chosen axis,
/// selecting the least remaining each round. The contract keeps only the
/// multiset: the ordering shapes the tree, never its answers.
fn sort_by_box_axis(objects: Vec<HittableObjectType>, axis: Axis) -> (r: Vec<HittableObjectType>)
    ensures
        r@.to_multiset() == objects@.to_multiset(),
        r@.len() == objects@.len(),
{
    broadcast use vstd::seq_lib::group_to_multiset_ensures;
    broadcast use vstd::multiset::group_multiset_axioms;

    let ghost all = objects@;
    let mut src = objects;
    let mut out: Vec<HittableObjectType> = Vec::new();
    while src.len() > 0
        invariant
            out@.to_multiset().add(src@.to_multiset()) == all.to_multiset(),
            out@.len() + src@.len() == all.len(),
        decreases src@.len(),
    {
        let mut least: usize = 0;
        let mut j: usize = 1;
        while j < src.len()
            invariant
                least < src@.len(),
                1 <= j,
                src@.len() > 0,
            decreases src@.len() - j,
        {
            if AxisAlignedBoundingBox::compare_by_axis(
                src[j].bounding_box(),
                src[least].bounding_box(),
                axis,
            ) {
                least = j;
            }
            j = j + 1;
        }
        let ghost src_before = src@;
        let picked = src.remove(least);
        proof {
            out@.to_multiset_ensures();
            src_before.to_multiset_ensures();
            assert(src_before.contains(picked));
            assert(out@.push(picked).to_multiset() =~= out@.to_multiset().insert(picked));
            assert(src_before.to_multiset().count(picked) > 0);
            assert(out@.to_multiset().insert(picked).add(src@.to_multiset()) =~= out@.to_multiset().add(
                src_before.to_multiset(),
            ));
        }
        out.push(picked);
    }
    out
}

} // verus!
