//! Positioned occurrences of shapes.

use vstd::prelude::*;
use crate::render::id::{MaterialId, ShapeId};
use crate::render::transform::Transform;

verus! {

/// One occurrence of a shape with a material, placed within its parent, with
/// the occurrences that are placed within it.
#[derive(Debug)]
pub struct Instance {
    pub shape: ShapeId,
    pub material: MaterialId,
    pub transform: Transform,
    pub children: Vec<Instance>,
}

/// An occurrence of a shape with a material, placed in space.
#[derive(Debug, Clone)]
pub struct Positioned {
    pub shape: ShapeId,
    pub material: MaterialId,
    pub transform: Transform,
}

/// What a positioned occurrence says: the two keys and the placement.
pub struct Placement {
    pub shape: Seq<char>,
    pub material: Seq<char>,
    pub transform: Transform,
}

impl View for Positioned {
    type V = Placement;

    open spec fn view(&self) -> Placement {
        Placement { shape: self.shape@, material: self.material@, transform: self.transform }
    }
}

/// What a list of positioned occurrences says.
pub open spec fn placements_in(list: Seq<Positioned>) -> Seq<Placement> {
    list.map_values(|p: Positioned| p@)
}

/// The placements of a list of instances and of all below them, within
/// `parent`, in order.
pub open spec fn placements_of(list: Seq<Instance>, parent: Transform) -> Seq<Placement>
    decreases list,
{
    if list.len() == 0 {
        Seq::empty()
    } else {
        placements_of(list.drop_last(), parent) + list.last().placements(parent)
    }
}

/// Whether every instance of a list, and every one below it, names a shape
/// of `shapes` and a material of `materials`.
pub open spec fn all_refer_within(list: Seq<Instance>, shapes: Set<Seq<char>>, materials: Set<Seq<char>>) -> bool
    decreases list,
{
    if list.len() == 0 {
        true
    } else {
        all_refer_within(list.drop_last(), shapes, materials) && list.last().refers_within(
            shapes,
            materials,
        )
    }
}

/// Where all instances of a list refer within the keys, so do the first `n`.
pub proof fn lemma_refers_prefix(list: Seq<Instance>, n: int, shapes: Set<Seq<char>>, materials: Set<Seq<char>>)
    requires
        0 <= n <= list.len(),
        all_refer_within(list, shapes, materials),
    ensures
        all_refer_within(list.take(n), shapes, materials),
    decreases list.len(),
{
    if n < list.len() {
        lemma_refers_prefix(list.drop_last(), n, shapes, materials);
        assert(list.drop_last().take(n) == list.take(n));
    } else {
        assert(list.take(n) == list);
    }
}

impl Instance {
    /// The placements of the instance and of all below it, depth first: the
    /// instance itself with `parent ∘ transform`, then its children within
    /// that placement.
    pub open spec fn placements(self, parent: Transform) -> Seq<Placement>
        decreases self,
    {
        seq![
            Placement {
                shape: self.shape@,
                material: self.material@,
                transform: parent.composed(self.transform),
            },
        ] + placements_of(self.children@, parent.composed(self.transform))
    }

    /// Whether the instance and every one below it names a shape of
    /// `shapes` and a material of `materials`.
    pub open spec fn refers_within(self, shapes: Set<Seq<char>>, materials: Set<Seq<char>>) -> bool
        decreases self,
    {
        &&& shapes.contains(self.shape@)
        &&& materials.contains(self.material@)
        &&& all_refer_within(self.children@, shapes, materials)
    }

    /// An instance without children, placed without moving.
    pub fn new(shape: ShapeId, material: MaterialId) -> (r: Instance)
        ensures
            r.shape == shape,
            r.material == material,
            r.transform == Transform::identity_value(),
            r.children@.len() == 0,
    {
        Instance { shape, material, transform: Transform::identity(), children: Vec::new() }
    }

    /// The placement of the instance seen from outside its parent.
    pub fn absolute(&self, parent: &Transform) -> (r: Transform)
        ensures
            r == parent.composed(self.transform),
    {
        parent.compose(&self.transform)
    }

    /// Appends the placements of the instance and of all below it to `out`.
    pub fn collect(&self, parent: &Transform, out: &mut Vec<Positioned>)
        ensures
            placements_in(final(out)@) == placements_in(old(out)@) + self.placements(*parent),
        decreases self,
    {
        let ghost before = placements_in(out@);
        let placed = parent.compose(&self.transform);
        out.push(Positioned { shape: self.shape.duplicate(), material: self.material.duplicate(), transform: placed });
        let ghost head = seq![
            Placement { shape: self.shape@, material: self.material@, transform: placed },
        ];
        assert(placements_in(out@) == before + head);
        let mut i: usize = 0;
        while i < self.children.len()
            invariant
                i <= self.children@.len(),
                placements_in(out@) == before + head + placements_of(self.children@.take(i as int), placed),
            decreases self.children@.len() - i,
        {
            let ghost so_far = placements_in(out@);
            self.children[i].collect(&placed, out);
            proof {
                let next = self.children@.take(i + 1);
                assert(next.drop_last() == self.children@.take(i as int));
                assert(next.last() == self.children@[i as int]);
            }
            i = i + 1;
        }
        assert(self.children@.take(i as int) == self.children@);
        assert(before + head + placements_of(self.children@, placed) == before + (head + placements_of(
            self.children@,
            placed,
        )));
    }
}

} // verus!
