//! The scene: the material table, the accelerated world, the rendering
//! options, and the camera that ties them together.

use crate::bvh::{leaf_ms, BvhTree, BvhValue};
use crate::camera::Camera;
use crate::color::{unit_c, Color, C3};
use crate::material::{mat_wf, MaterialType};
use crate::object::{obj_mats_ok, HittableObjectType};
use crate::rendered_image::RenderedImage;
use crate::rng::Rng;
use vstd::multiset::Multiset;
use vstd::prelude::*;

verus! {

/// The world's content: the material table, indexed by the ids hit records
/// carry, and the tree of objects.
pub struct SceneContent {
    pub materials: Vec<MaterialType>,
    pub bvh: BvhTree,
}

impl SceneContent {
    /// Everything rendering relies on: a sound tree, usable materials, and
    /// every material index mentioned by a leaf pointing into the table.
    pub open spec fn wf(&self) -> bool {
        &&& self.bvh.wf()
        &&& forall|i: int|
            0 <= i < self.materials@.len() ==> mat_wf(#[trigger] self.materials@[i]@)
        &&& forall|j: int|
            0 <= j < self.bvh.nodes@.len() ==> match #[trigger] self.bvh.nodes@[j] {
                BvhValue::Leaf(l) => obj_mats_ok(l.object@, self.materials@.len() as int),
                BvhValue::Node(_) => true,
            }
    }

    /// A scene over the given table and tree.
    pub fn new(materials: Vec<MaterialType>, bvh: BvhTree) -> (r: SceneContent)
        ensures
            r.materials@ == materials@,
            r.bvh == bvh,
    {
        SceneContent { materials, bvh }
    }

    /// The tree of objects.
    pub fn bvh(&self) -> (r: &BvhTree)
        ensures
            r == &self.bvh,
    {
        &self.bvh
    }

    /// The material at an index of the table, exactly when the index is in
    /// range.
    pub fn material_by_id(&self, id: usize) -> (r: Option<&MaterialType>)
        ensures
            r is Some <==> (id as int) < self.materials@.len(),
            r matches Some(m) ==> m == &self.materials@[id as int],
    {
        if id >= self.materials.len() {
            return None;
        }
        Some(&self.materials[id])
    }
}

/// Every material index mentioned by any leaf of a tree built from objects
/// whose indices are in range is in range: what a scene construction shows
/// to establish `SceneContent::wf`.
pub proof fn lemma_scene_mats_ok(tree: &BvhTree, objs: Seq<HittableObjectType>, n: int)
    requires
        leaf_ms(tree.nodes@) == objs.to_multiset(),
        forall|i: int| 0 <= i < objs.len() ==> obj_mats_ok(#[trigger] objs[i]@, n),
    ensures
        forall|j: int|
            0 <= j < tree.nodes@.len() ==> match #[trigger] tree.nodes@[j] {
                BvhValue::Leaf(l) => obj_mats_ok(l.object@, n),
                BvhValue::Node(_) => true,
            },
{
    broadcast use vstd::seq_lib::group_to_multiset_ensures;
    broadcast use vstd::multiset::group_multiset_axioms;

    assert forall|j: int| 0 <= j < tree.nodes@.len() implies match #[trigger] tree.nodes@[j] {
        BvhValue::Leaf(l) => obj_mats_ok(l.object@, n),
        BvhValue::Node(_) => true,
    } by {
        match tree.nodes@[j] {
            BvhValue::Leaf(l) => {
                crate::bvh::lemma_leaf_in_ms(tree.nodes@, j);
                assert(objs.to_multiset().count(l.object) >= 1);
                assert(objs.contains(l.object));
                let i = choose|i: int| 0 <= i < objs.len() && objs[i] == l.object;
                assert(obj_mats_ok(objs[i]@, n));
            },
            BvhValue::Node(_) => {},
        }
    }
}

/// Options of a render: the background color returned for rays that leave
/// the scene.
pub struct SceneOptions {
    pub background: Color,
}

/// A background is usable when its channels are within `[0, 1]`.
pub open spec fn options_wf(o: &SceneOptions) -> bool {
    unit_c(o.background@)
}

impl SceneOptions {
    /// Options with the given background.
    pub fn new(background: Color) -> (r: SceneOptions)
        ensures
            r.background == background,
    {
        SceneOptions { background }
    }

    /// The background color.
    pub fn background(&self) -> (r: &Color)
        ensures
            r == &self.background,
    {
        &self.background
    }
}

impl Default for SceneOptions {
    /// The preset sky-like background.
    fn default() -> (r: SceneOptions)
        ensures
            r.background@ == (C3 { r: 45875, g: 52428, b: 65536 }),
    {
        SceneOptions { background: Color { r: 45875, g: 52428, b: 65536 } }
    }
}

/// A complete scene: content, camera, and options.
pub struct Scene {
    pub camera: Camera,
    pub content: SceneContent,
    pub options: SceneOptions,
}

impl Scene {
    /// A scene of the given parts.
    pub fn new(content: SceneContent, camera: Camera, options: SceneOptions) -> (r: Scene)
        ensures
            r.content == content,
            r.camera == camera,
            r.options == options,
    {
        Scene { content, camera, options }
    }

    /// Render the scene with the given generator.
    pub fn render(&self, rng: &mut Rng) -> (r: RenderedImage)
        requires
            self.content.wf(),
            options_wf(&self.options),
            (self.camera.dimensions.width as int) * (self.camera.dimensions.height as int)
                < 0x1_0000_0000_0000_0000,
        ensures
            r.pixels@.len() == (self.camera.dimensions.width as int) * (
            self.camera.dimensions.height as int),
            r.dimensions == self.camera.dimensions,
            self.camera.max_bounce_depth == 0 ==> forall|k: int|
                0 <= k < r.pixels@.len() ==> r.pixels@[k] == (crate::color::Rgb8 {
                    r: 0,
                    g: 0,
                    b: 0,
                }),
    {
        self.camera.render(&self.content, &self.options, rng)
    }
}

} // verus!
