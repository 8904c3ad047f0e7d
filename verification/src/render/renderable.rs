//! What a stock renders into: shapes and materials by key, and instances
//! that name them.

use vstd::prelude::*;
use crate::render::id::{MaterialId, ShapeId};
use crate::render::instance::{
    all_refer_within, lemma_refers_prefix, placements_in, placements_of, Instance, Positioned,
};
use crate::render::material::Material;
use crate::render::shape::ShapeEnum;
use crate::render::table::Table;
use crate::render::transform::Transform;

verus! {

/// A scene: shape and material descriptions by key, and the trees of
/// instances that use them.
#[derive(Debug)]
pub struct Renderable {
    pub shapes: Table<ShapeEnum>,
    pub materials: Table<Material>,
    pub instances: Vec<Instance>,
}

fn refers_within(instance: &Instance, shapes: &Table<ShapeEnum>, materials: &Table<Material>) -> (r: bool)
    requires
        shapes.wf(),
        materials.wf(),
    ensures
        r == instance.refers_within(shapes@.dom(), materials@.dom()),
    decreases instance,
{
    if shapes.get(instance.shape.0.as_str()).is_none() {
        return false;
    }
    if materials.get(instance.material.0.as_str()).is_none() {
        return false;
    }
    let mut i: usize = 0;
    while i < instance.children.len()
        invariant
            i <= instance.children@.len(),
            shapes.wf(),
            materials.wf(),
            all_refer_within(instance.children@.take(i as int), shapes@.dom(), materials@.dom()),
        decreases instance.children@.len() - i,
    {
        proof {
            let next = instance.children@.take(i + 1);
            assert(next.drop_last() == instance.children@.take(i as int));
            assert(next.last() == instance.children@[i as int]);
        }
        if !refers_within(&instance.children[i], shapes, materials) {
            proof {
                if all_refer_within(instance.children@, shapes@.dom(), materials@.dom()) {
                    lemma_refers_prefix(instance.children@, i + 1, shapes@.dom(), materials@.dom());
                }
            }
            return false;
        }
        i = i + 1;
    }
    assert(instance.children@.take(i as int) == instance.children@);
    true
}

impl Renderable {
    /// No key is held twice.
    pub open spec fn wf(&self) -> bool {
        self.shapes.wf() && self.materials.wf()
    }

    /// Every instance names a shape and a material that the renderable
    /// holds.
    pub open spec fn complete(&self) -> bool {
        all_refer_within(self.instances@, self.shapes@.dom(), self.materials@.dom())
    }

    /// The renderable without shapes, materials and instances.
    pub fn new() -> (r: Renderable)
        ensures
            r.wf(),
            r.shapes@ == Map::<Seq<char>, ShapeEnum>::empty(),
            r.materials@ == Map::<Seq<char>, Material>::empty(),
            r.instances@.len() == 0,
    {
        Renderable { shapes: Table::new(), materials: Table::new(), instances: Vec::new() }
    }

    /// Holds `shape` under `key`, in place of what the key held before, and
    /// hands out the key.
    pub fn insert_shape(&mut self, key: &str, shape: ShapeEnum) -> (id: ShapeId)
        requires
            old(self).wf(),
        ensures
            final(self).wf(),
            id@ == key@,
            final(self).shapes@ == old(self).shapes@.insert(key@, shape),
            final(self).materials == old(self).materials,
            final(self).instances == old(self).instances,
    {
        let id = ShapeId::new(key);
        self.shapes.insert(key, shape);
        id
    }

    /// Holds `material` under `key`, in place of what the key held before,
    /// and hands out the key.
    pub fn insert_material(&mut self, key: &str, material: Material) -> (id: MaterialId)
        requires
            old(self).wf(),
        ensures
            final(self).wf(),
            id@ == key@,
            final(self).materials@ == old(self).materials@.insert(key@, material),
            final(self).shapes == old(self).shapes,
            final(self).instances == old(self).instances,
    {
        let id = MaterialId::new(key);
        self.materials.insert(key, material);
        id
    }

    /// Adds a tree of instances after those that are there.
    pub fn insert_instance(&mut self, instance: Instance)
        ensures
            final(self).instances@ == old(self).instances@.push(instance),
            final(self).shapes == old(self).shapes,
            final(self).materials == old(self).materials,
    {
        self.instances.push(instance);
    }

    /// The shape that `id` names, where the renderable holds one.
    pub fn shape(&self, id: &ShapeId) -> (r: Option<&ShapeEnum>)
        requires
            self.wf(),
        ensures
            match r {
                Some(s) => self.shapes@.dom().contains(id@) && *s == self.shapes@[id@],
                None => !self.shapes@.dom().contains(id@),
            },
    {
        self.shapes.get(id.0.as_str())
    }

    /// The material that `id` names, where the renderable holds one.
    pub fn material(&self, id: &MaterialId) -> (r: Option<&Material>)
        requires
            self.wf(),
        ensures
            match r {
                Some(m) => self.materials@.dom().contains(id@) && *m == self.materials@[id@],
                None => !self.materials@.dom().contains(id@),
            },
    {
        self.materials.get(id.0.as_str())
    }

    /// Whether every instance names a shape and a material that the
    /// renderable holds.
    pub fn is_complete(&self) -> (r: bool)
        requires
            self.wf(),
        ensures
            r == self.complete(),
    {
        let mut i: usize = 0;
        while i < self.instances.len()
            invariant
                i <= self.instances@.len(),
                self.wf(),
                all_refer_within(self.instances@.take(i as int), self.shapes@.dom(), self.materials@.dom()),
            decreases self.instances@.len() - i,
        {
            proof {
                let next = self.instances@.take(i + 1);
                assert(next.drop_last() == self.instances@.take(i as int));
                assert(next.last() == self.instances@[i as int]);
            }
            if !refers_within(&self.instances[i], &self.shapes, &self.materials) {
                proof {
                    if self.complete() {
                        lemma_refers_prefix(
                            self.instances@,
                            i + 1,
                            self.shapes@.dom(),
                            self.materials@.dom(),
                        );
                    }
                }
                return false;
            }
            i = i + 1;
        }
        assert(self.instances@.take(i as int) == self.instances@);
        true
    }

    /// Every instance of the renderable with its placement in space, where
    /// the renderable itself is placed by `parent`: each tree depth first,
    /// the trees in order.
    pub fn positions(&self, parent: &Transform) -> (r: Vec<Positioned>)
        ensures
            placements_in(r@) == placements_of(self.instances@, *parent),
    {
        let mut out: Vec<Positioned> = Vec::new();
        let mut i: usize = 0;
        assert(placements_in(out@) == Seq::<crate::render::instance::Placement>::empty());
        while i < self.instances.len()
            invariant
                i <= self.instances@.len(),
                placements_in(out@) == placements_of(self.instances@.take(i as int), *parent),
            decreases self.instances@.len() - i,
        {
            self.instances[i].collect(parent, &mut out);
            proof {
                let next = self.instances@.take(i + 1);
                assert(next.drop_last() == self.instances@.take(i as int));
                assert(next.last() == self.instances@[i as int]);
            }
            i = i + 1;
        }
        assert(self.instances@.take(i as int) == self.instances@);
        out
    }
}

impl Default for Renderable {
    fn default() -> (r: Renderable)
        ensures
            r.wf(),
            r.shapes@ == Map::<Seq<char>, ShapeEnum>::empty(),
            r.materials@ == Map::<Seq<char>, Material>::empty(),
            r.instances@.len() == 0,
    {
        Renderable::new()
    }
}

} // verus!
