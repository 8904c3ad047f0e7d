//! From a renderable to handles: every shape and material is looked up in
//! the asset caches, or created there, and the instances are rewritten to
//! name the handles.

use vstd::prelude::*;
use crate::assets::{describes, AssetStore, Description, Handle};
use crate::render::id::ShapeId;
use crate::render::instance::{all_refer_within, lemma_refers_prefix, Instance};
use crate::render::material::Material;
use crate::render::renderable::Renderable;
use crate::render::shape::ShapeEnum;
use crate::render::table::Table;
use crate::render::transform::Transform;

verus! {

/// The handles of the shapes and materials of a renderable, by key.
pub struct Bindings {
    pub shapes: Table<Handle>,
    pub materials: Table<Handle>,
}

/// An instance that names its shape and material by handle.
pub struct Resolved {
    pub mesh: Handle,
    pub material: Handle,
    pub shape: ShapeId,
    pub transform: Transform,
    pub children: Vec<Resolved>,
}

/// Whether `handle` names an entry of `store` that was made for
/// `description` or for one that is the same.
pub open spec fn names<K: Description, V>(store: AssetStore<K, V>, handle: Handle, description: K) -> bool {
    &&& store.holds(handle)
    &&& {
        ||| store.slots()[handle.index as int].unwrap().key == description
        ||| describes(store.slots(), handle.index as int, description)
    }
}

/// Whether every key of `descriptions` is bound to a handle that names an
/// entry of `store` for its description, and no other key is bound.
pub open spec fn bound<K: Description, V>(
    handles: Map<Seq<char>, Handle>,
    descriptions: Map<Seq<char>, K>,
    store: AssetStore<K, V>,
) -> bool {
    &&& handles.dom() == descriptions.dom()
    &&& forall|key: Seq<char>| #[trigger]
        handles.dom().contains(key) ==> names(store, handles[key], descriptions[key])
}

/// Whether the trees of a list mirror the instances of another list, one by
/// one.
pub open spec fn all_mirror(
    trees: Seq<Resolved>,
    list: Seq<Instance>,
    shapes: Map<Seq<char>, Handle>,
    materials: Map<Seq<char>, Handle>,
) -> bool
    decreases list,
{
    &&& trees.len() == list.len()
    &&& if list.len() == 0 {
        true
    } else {
        &&& all_mirror(trees.drop_last(), list.drop_last(), shapes, materials)
        &&& trees.last().mirrors(list.last(), shapes, materials)
    }
}

impl Resolved {
    /// Whether the tree is the instance with handles in place of keys: the
    /// same placement and the same shape key, the handles that the keys are
    /// bound to, and children that mirror the children of the instance.
    pub open spec fn mirrors(
        self,
        instance: Instance,
        shapes: Map<Seq<char>, Handle>,
        materials: Map<Seq<char>, Handle>,
    ) -> bool
        decreases instance,
    {
        &&& shapes.dom().contains(instance.shape@)
        &&& materials.dom().contains(instance.material@)
        &&& self.mesh == shapes[instance.shape@]
        &&& self.material == materials[instance.material@]
        &&& self.shape@ == instance.shape@
        &&& self.transform == instance.transform
        &&& all_mirror(self.children@, instance.children@, shapes, materials)
    }
}

/// Where a list of trees mirrors a list of instances, every instance refers
/// within the bound keys.
proof fn lemma_mirrored_refer(
    trees: Seq<Resolved>,
    list: Seq<Instance>,
    shapes: Map<Seq<char>, Handle>,
    materials: Map<Seq<char>, Handle>,
)
    requires
        all_mirror(trees, list, shapes, materials),
    ensures
        all_refer_within(list, shapes.dom(), materials.dom()),
    decreases list,
{
    if list.len() > 0 {
        lemma_mirrored_refer(trees.drop_last(), list.drop_last(), shapes, materials);
        lemma_mirror_refers(trees.last(), list.last(), shapes, materials);
    }
}

/// Where a tree mirrors an instance, the instance refers within the bound
/// keys.
proof fn lemma_mirror_refers(
    tree: Resolved,
    instance: Instance,
    shapes: Map<Seq<char>, Handle>,
    materials: Map<Seq<char>, Handle>,
)
    requires
        tree.mirrors(instance, shapes, materials),
    ensures
        instance.refers_within(shapes.dom(), materials.dom()),
    decreases instance,
{
    lemma_mirrored_refer(tree.children@, instance.children@, shapes, materials);
}

/// The first `i + 1` members of a sequence are the first `i` and member `i`.
proof fn lemma_take_next<T>(keys: Seq<T>, i: int, k: T)
    requires
        0 <= i < keys.len(),
    ensures
        keys.take(i + 1).contains(k) <==> keys.take(i).contains(k) || keys[i] == k,
{
    let next = keys.take(i + 1);
    let prev = keys.take(i);
    if next.contains(k) {
        let j = choose|j: int| 0 <= j < next.len() && next[j] == k;
        if j < i {
            assert(prev[j] == k);
        }
    }
    if prev.contains(k) {
        let j = choose|j: int| 0 <= j < prev.len() && prev[j] == k;
        assert(next[j] == k);
    }
    if keys[i] == k {
        assert(next[i] == k);
    }
}

impl Bindings {
    /// No key is bound twice.
    pub open spec fn wf(&self) -> bool {
        self.shapes.wf() && self.materials.wf()
    }

    /// The instance with handles in place of keys; nothing where the
    /// instance, or one below it, names a key that is not bound.
    fn lookup(&self, instance: &Instance) -> (r: Option<Resolved>)
        requires
            self.wf(),
        ensures
            r.is_some() == instance.refers_within(self.shapes@.dom(), self.materials@.dom()),
            r matches Some(tree) ==> tree.mirrors(*instance, self.shapes@, self.materials@),
        decreases instance,
    {
        let mesh = match self.shapes.get(instance.shape.0.as_str()) {
            Some(handle) => *handle,
            None => {
                return None;
            },
        };
        let material = match self.materials.get(instance.material.0.as_str()) {
            Some(handle) => *handle,
            None => {
                return None;
            },
        };
        let mut children: Vec<Resolved> = Vec::new();
        let mut i: usize = 0;
        while i < instance.children.len()
            invariant
                i <= instance.children@.len(),
                self.wf(),
                all_mirror(children@, instance.children@.take(i as int), self.shapes@, self.materials@),
            decreases instance.children@.len() - i,
        {
            let ghost so_far = children@;
            proof {
                let next = instance.children@.take(i + 1);
                assert(next.drop_last() == instance.children@.take(i as int));
                assert(next.last() == instance.children@[i as int]);
            }
            match self.lookup(&instance.children[i]) {
                Some(tree) => {
                    children.push(tree);
                    assert(children@.drop_last() == so_far);
                },
                None => {
                    proof {
                        if all_refer_within(
                            instance.children@,
                            self.shapes@.dom(),
                            self.materials@.dom(),
                        ) {
                            lemma_refers_prefix(
                                instance.children@,
                                i + 1,
                                self.shapes@.dom(),
                                self.materials@.dom(),
                            );
                        }
                    }
                    return None;
                },
            }
            i = i + 1;
        }
        assert(instance.children@.take(i as int) == instance.children@);
        let tree = Resolved {
            mesh,
            material,
            shape: instance.shape.duplicate(),
            transform: instance.transform,
            children,
        };
        proof {
            lemma_mirror_refers(tree, *instance, self.shapes@, self.materials@);
        }
        Some(tree)
    }

    /// The instances of a list with handles in place of keys; nothing where
    /// one of them names a key that is not bound.
    fn lookup_all(&self, list: &Vec<Instance>) -> (r: Option<Vec<Resolved>>)
        requires
            self.wf(),
        ensures
            r.is_some() == all_refer_within(list@, self.shapes@.dom(), self.materials@.dom()),
            r matches Some(trees) ==> all_mirror(trees@, list@, self.shapes@, self.materials@),
    {
        let mut trees: Vec<Resolved> = Vec::new();
        let mut i: usize = 0;
        while i < list.len()
            invariant
                i <= list@.len(),
                self.wf(),
                all_mirror(trees@, list@.take(i as int), self.shapes@, self.materials@),
            decreases list@.len() - i,
        {
            let ghost so_far = trees@;
            proof {
                let next = list@.take(i + 1);
                assert(next.drop_last() == list@.take(i as int));
                assert(next.last() == list@[i as int]);
            }
            match self.lookup(&list[i]) {
                Some(tree) => {
                    trees.push(tree);
                    assert(trees@.drop_last() == so_far);
                },
                None => {
                    proof {
                        if all_refer_within(
                            list@,
                            self.shapes@.dom(),
                            self.materials@.dom(),
                        ) {
                            lemma_refers_prefix(list@, i + 1, self.shapes@.dom(), self.materials@.dom());
                        }
                    }
                    return None;
                },
            }
            i = i + 1;
        }
        assert(list@.take(i as int) == list@);
        proof {
            lemma_mirrored_refer(trees@, list@, self.shapes@, self.materials@);
        }
        Some(trees)
    }

    /// Whether every instance of the list, and every one below it, names a
    /// shape and a material that are bound: what a caller tests before it
    /// resolves.
    pub fn covers(&self, list: &Vec<Instance>) -> (r: bool)
        requires
            self.wf(),
        ensures
            r == all_refer_within(list@, self.shapes@.dom(), self.materials@.dom()),
    {
        self.lookup_all(list).is_some()
    }

    /// The instance with handles in place of keys.  Every key that the
    /// instance or one below it names must be bound: to resolve an instance
    /// with a dangling key is the caller's error.
    pub fn resolve(&self, instance: &Instance) -> (r: Resolved)
        requires
            self.wf(),
            instance.refers_within(self.shapes@.dom(), self.materials@.dom()),
        ensures
            r.mirrors(*instance, self.shapes@, self.materials@),
    {
        self.lookup(instance).unwrap()
    }

    /// The instances of a renderable with handles in place of keys, in their
    /// order.  Every key that they name must be bound.
    pub fn resolve_all(&self, list: &Vec<Instance>) -> (r: Vec<Resolved>)
        requires
            self.wf(),
            all_refer_within(list@, self.shapes@.dom(), self.materials@.dom()),
        ensures
            all_mirror(r@, list@, self.shapes@, self.materials@),
    {
        self.lookup_all(list).unwrap()
    }
}

/// Looks every shape and material of a renderable up in the caches, creates
/// the assets that are not there yet, and binds each key to its handle.
/// Every handle counts as one reference to its asset.
pub fn materialize<M, T, F: Fn(&ShapeEnum) -> M, G: Fn(&Material) -> T>(
    renderable: &Renderable,
    meshes: &mut AssetStore<ShapeEnum, M>,
    surfaces: &mut AssetStore<Material, T>,
    make_mesh: &F,
    make_surface: &G,
) -> (r: Bindings)
    requires
        renderable.wf(),
        old(meshes).wf(),
        old(surfaces).wf(),
        forall|k: &ShapeEnum| make_mesh.requires((k,)),
        forall|k: &Material| make_surface.requires((k,)),
    ensures
        r.wf(),
        final(meshes).wf(),
        final(surfaces).wf(),
        final(meshes).keeps(*old(meshes)),
        final(surfaces).keeps(*old(surfaces)),
        bound(r.shapes@, renderable.shapes@, *final(meshes)),
        bound(r.materials@, renderable.materials@, *final(surfaces)),
{
    let mut shapes: Table<Handle> = Table::new();
    let count = renderable.shapes.len();
    let mut i: usize = 0;
    while i < count
        invariant
            i <= count,
            count == renderable.shapes.keys().len(),
            renderable.wf(),
            shapes.wf(),
            meshes.wf(),
            meshes.keeps(*old(meshes)),
            renderable.shapes.keys().no_duplicates(),
            forall|k: Seq<char>| renderable.shapes@.dom().contains(k) <==> renderable.shapes.keys().contains(k),
            forall|k: Seq<char>| shapes@.dom().contains(k) <==> renderable.shapes.keys().take(i as int).contains(k),
            forall|k: Seq<char>| #[trigger]
                shapes@.dom().contains(k) ==> names(*meshes, shapes@[k], renderable.shapes@[k]),
            forall|k: &ShapeEnum| make_mesh.requires((k,)),
        decreases count - i,
    {
        let (key, shape) = renderable.shapes.entry(i);
        let ghost before = *meshes;
        let ghost bound_before = shapes@;
        let handle = meshes.get_or_create(*shape, make_mesh);
        shapes.insert(key, handle);
        proof {
            let keys = renderable.shapes.keys();
            assert forall|k: Seq<char>| shapes@.dom().contains(k) <==> keys.take(i + 1).contains(k) by {
                lemma_take_next(keys, i as int, k);
            }
            assert forall|k: Seq<char>| #[trigger] shapes@.dom().contains(k) implies names(
                *meshes,
                shapes@[k],
                renderable.shapes@[k],
            ) by {
                if k != key@ {
                    assert(bound_before.dom().contains(k));
                    assert(before.holds(bound_before[k]));
                }
            }
            assert(meshes.keeps(*old(meshes))) by {
                assert forall|h: Handle| #[trigger] old(meshes).holds(h) implies meshes.holds(h)
                    && meshes.slots()[h.index as int].unwrap().key == old(meshes).slots()[h.index
                    as int].unwrap().key && meshes.slots()[h.index as int].unwrap().asset == old(meshes).slots()[h.index as int].unwrap().asset by {
                    assert(before.holds(h));
                }
            }
        }
        i = i + 1;
    }
    assert(renderable.shapes.keys().take(i as int) == renderable.shapes.keys());
    assert(shapes@.dom() =~= renderable.shapes@.dom());

    let mut materials: Table<Handle> = Table::new();
    let count = renderable.materials.len();
    let mut i: usize = 0;
    while i < count
        invariant
            i <= count,
            count == renderable.materials.keys().len(),
            renderable.wf(),
            materials.wf(),
            surfaces.wf(),
            surfaces.keeps(*old(surfaces)),
            renderable.materials.keys().no_duplicates(),
            forall|k: Seq<char>|
                renderable.materials@.dom().contains(k) <==> renderable.materials.keys().contains(k),
            forall|k: Seq<char>|
                materials@.dom().contains(k) <==> renderable.materials.keys().take(i as int).contains(k),
            forall|k: Seq<char>| #[trigger]
                materials@.dom().contains(k) ==> names(*surfaces, materials@[k], renderable.materials@[k]),
            forall|k: &Material| make_surface.requires((k,)),
        decreases count - i,
    {
        let (key, material) = renderable.materials.entry(i);
        let ghost before = *surfaces;
        let ghost bound_before = materials@;
        let handle = surfaces.get_or_create(material.duplicate(), make_surface);
        materials.insert(key, handle);
        proof {
            let keys = renderable.materials.keys();
            assert forall|k: Seq<char>| materials@.dom().contains(k) <==> keys.take(i + 1).contains(k) by {
                lemma_take_next(keys, i as int, k);
            }
            assert forall|k: Seq<char>| #[trigger] materials@.dom().contains(k) implies names(
                *surfaces,
                materials@[k],
                renderable.materials@[k],
            ) by {
                if k != key@ {
                    assert(bound_before.dom().contains(k));
                    assert(before.holds(bound_before[k]));
                }
            }
            assert(surfaces.keeps(*old(surfaces))) by {
                assert forall|h: Handle| #[trigger] old(surfaces).holds(h) implies surfaces.holds(h)
                    && surfaces.slots()[h.index as int].unwrap().key == old(surfaces).slots()[h.index
                    as int].unwrap().key && surfaces.slots()[h.index as int].unwrap().asset == old(surfaces).slots()[h.index as int].unwrap().asset by {
                    assert(before.holds(h));
                }
            }
        }
        i = i + 1;
    }
    assert(renderable.materials.keys().take(i as int) == renderable.materials.keys());
    assert(materials@.dom() =~= renderable.materials@.dom());
    Bindings { shapes, materials }
}

} // verus!
