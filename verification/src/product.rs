//! The composition tree: stocks, assemblies and groups, each placed by a
//! transform, and the walk that flattens a tree into placed renderables.

use vstd::prelude::*;
use crate::math::affine3::{lengths, pivot};
use crate::math::quaternion::Quaternion;
use crate::math::vector3::Vector3;
use crate::number::Number;
use crate::render::renderable::Renderable;
use crate::render::transform::Transform;
use crate::unit::{Angle, Dimension, Length};

verus! {

/// A leaf of the tree: a part that renders itself.
pub trait Stock: Sized {
    /// What the part renders into.
    spec fn rendering(&self) -> Renderable;

    fn render(&self) -> (r: Renderable)
        ensures
            r == self.rendering(),
    ;

    /// The part as a product, placed without moving.
    fn place<A>(self) -> (r: Product<Self, A>)
        ensures
            r == Product::<Self, A>::placed(ProductKind::Stock(self)),
    {
        Product::new(ProductKind::Stock(self))
    }
}

/// A branch of the tree: a part made of products, each placed within it.
pub trait Assembly<S>: Sized {
    /// The products that the part is made of, in order.
    spec fn parts(&self) -> Vec<Product<S, Self>>;

    fn products(&self) -> (r: Vec<Product<S, Self>>)
        ensures
            r@ == self.parts()@,
    ;

    /// The part as a product, placed without moving.
    fn place(self) -> (r: Product<S, Self>)
        ensures
            r == Product::<S, Self>::placed(ProductKind::Assembly(self)),
    {
        Product::new(ProductKind::Assembly(self))
    }
}

/// A list of products that stands for no part of its own.
pub struct Group<S, A>(pub Vec<Product<S, A>>);

impl<S, A> Default for Group<S, A> {
    fn default() -> (r: Group<S, A>)
        ensures
            r.0@.len() == 0,
    {
        Group(Vec::new())
    }
}

/// What a product is.
pub enum ProductKind<S, A> {
    Stock(S),
    Assembly(A),
    Group(Group<S, A>),
    Empty,
}

/// A part with its placement within its parent.
pub struct Product<S, A> {
    pub kind: ProductKind<S, A>,
    pub transform: Transform,
}

/// A renderable with its placement in space.
pub struct Placed {
    pub transform: Transform,
    pub renderable: Renderable,
}

impl<S, A> ProductKind<S, A> {
    /// The kind itself, or the empty kind where there is none.
    pub open spec fn or_none(value: Option<ProductKind<S, A>>) -> ProductKind<S, A> {
        match value {
            Some(kind) => kind,
            None => ProductKind::Empty,
        }
    }

    pub fn from_option(value: Option<ProductKind<S, A>>) -> (r: ProductKind<S, A>)
        ensures
            r == ProductKind::or_none(value),
    {
        match value {
            Some(kind) => kind,
            None => ProductKind::Empty,
        }
    }
}

impl<S, A> vstd::std_specs::convert::FromSpecImpl<Option<ProductKind<S, A>>> for ProductKind<S, A> {
    open spec fn obeys_from_spec() -> bool {
        true
    }

    open spec fn from_spec(value: Option<ProductKind<S, A>>) -> ProductKind<S, A> {
        ProductKind::or_none(value)
    }
}

impl<S, A> From<Option<ProductKind<S, A>>> for ProductKind<S, A> {
    fn from(value: Option<ProductKind<S, A>>) -> (r: ProductKind<S, A>) {
        ProductKind::from_option(value)
    }
}

impl<S, A> Default for ProductKind<S, A> {
    fn default() -> (r: ProductKind<S, A>)
        ensures
            r == ProductKind::<S, A>::Empty,
    {
        ProductKind::Empty
    }
}

impl<S, A> Product<S, A> {
    /// The product of a kind, placed without moving.
    pub open spec fn placed(kind: ProductKind<S, A>) -> Product<S, A> {
        Product { kind, transform: Transform::identity_value() }
    }

    pub fn new(kind: ProductKind<S, A>) -> (r: Product<S, A>)
        ensures
            r == Product::placed(kind),
    {
        Product { kind, transform: Transform::identity() }
    }

    /// The same part, shifted by `(x, y, z)`.
    pub fn translate(self, x: Length, y: Length, z: Length) -> (r: Product<S, A>)
        ensures
            r.kind == self.kind,
            r.transform == self.transform.shifted(lengths(x, y, z)),
    {
        Product { kind: self.kind, transform: self.transform.translate(x, y, z) }
    }

    /// The same part, turned by `angle` about the line through `origin`
    /// along `axis`; the origin of space where none is given.
    pub fn rotate(self, axis: Vector3<Number>, angle: Angle, origin: Option<Vector3<Length>>) -> (r:
        Product<S, A>)
        ensures
            r.kind == self.kind,
            r.transform == self.transform.turned(
                Quaternion::axis_angle(axis, angle.canonical_spec()),
                pivot(origin),
            ),
    {
        Product { kind: self.kind, transform: self.transform.rotate(axis, angle, origin) }
    }
}

impl<S, A> Default for Product<S, A> {
    fn default() -> (r: Product<S, A>)
        ensures
            r == Product::<S, A>::placed(ProductKind::Empty),
    {
        Product::new(ProductKind::Empty)
    }
}

/// The two lists one after the other, where both are there.
pub open spec fn joined(a: Option<Seq<Placed>>, b: Option<Seq<Placed>>) -> Option<Seq<Placed>> {
    match (a, b) {
        (Some(x), Some(y)) => Some(x + y),
        _ => None,
    }
}

/// What a list of products flattens into within `parent`: what each product
/// flattens into, in order; nothing definite where one of them lies deeper
/// than `depth` allows.
pub open spec fn flattened_all<S: Stock, A: Assembly<S>>(
    list: Seq<Product<S, A>>,
    parent: Transform,
    depth: nat,
) -> Option<Seq<Placed>>
    decreases depth, 1nat, list.len(),
{
    if list.len() == 0 {
        Some(Seq::empty())
    } else {
        joined(flattened_all(list.drop_last(), parent, depth), list.last().flattened(parent, depth))
    }
}

impl<S: Stock, A: Assembly<S>> Product<S, A> {
    /// What the product flattens into where its parent is placed by
    /// `parent`, going at most `depth` levels below it.
    ///
    /// The product is placed by `parent ∘ transform`.  A stock gives its
    /// renderable with that placement; an assembly gives what its products
    /// flatten into within that placement, and a group what its members do;
    /// the empty kind gives nothing.  An assembly or a group at depth zero gives
    /// nothing definite.
    pub open spec fn flattened(self, parent: Transform, depth: nat) -> Option<Seq<Placed>>
        decreases depth, 0nat, 0nat,
    {
        let here = parent.composed(self.transform);
        match self.kind {
            ProductKind::Stock(stock) => Some(seq![Placed { transform: here, renderable: stock.rendering() }]),
            ProductKind::Assembly(assembly) => if depth == 0 {
                None
            } else {
                flattened_all(assembly.parts()@, here, (depth - 1) as nat)
            },
            ProductKind::Group(group) => if depth == 0 {
                None
            } else {
                flattened_all(group.0@, here, (depth - 1) as nat)
            },
            ProductKind::Empty => Some(Seq::empty()),
        }
    }

    /// Flattens the tree below the product into the renderables of its
    /// stocks, each with its placement in space, depth first.  Gives `None`
    /// where the tree has an assembly or a group more than `depth` levels
    /// below the product.
    pub fn flatten(&self, depth: usize) -> (r: Option<Vec<Placed>>)
        ensures
            match r {
                Some(list) => self.flattened(Transform::identity_value(), depth as nat) == Some(list@),
                None => self.flattened(Transform::identity_value(), depth as nat).is_none(),
            },
    {
        let mut out: Vec<Placed> = Vec::new();
        if self.flatten_into(&Transform::identity(), depth, &mut out) {
            Some(out)
        } else {
            None
        }
    }

    /// Appends what the product flattens into within `parent` to `out`, and
    /// says whether the tree was no deeper than `depth`.
    pub fn flatten_into(&self, parent: &Transform, depth: usize, out: &mut Vec<Placed>) -> (r: bool)
        ensures
            r == self.flattened(*parent, depth as nat).is_some(),
            r ==> final(out)@ == old(out)@ + self.flattened(*parent, depth as nat).unwrap(),
        decreases depth, 0nat, 0nat,
    {
        let here = parent.compose(&self.transform);
        match &self.kind {
            ProductKind::Stock(stock) => {
                out.push(Placed { transform: here, renderable: stock.render() });
                assert(out@ == old(out)@ + seq![Placed { transform: here, renderable: stock.rendering() }]);
                true
            },
            ProductKind::Assembly(assembly) => {
                if depth == 0 {
                    false
                } else {
                    let products = assembly.products();
                    flatten_list(&products, &here, depth - 1, out)
                }
            },
            ProductKind::Group(group) => {
                if depth == 0 {
                    false
                } else {
                    flatten_list(&group.0, &here, depth - 1, out)
                }
            },
            ProductKind::Empty => {
                assert(out@ == old(out)@ + Seq::<Placed>::empty());
                true
            },
        }
    }
}

/// Where a list flattens, so do its first `n` products.
proof fn lemma_flattened_prefix<S: Stock, A: Assembly<S>>(
    list: Seq<Product<S, A>>,
    n: int,
    parent: Transform,
    depth: nat,
)
    requires
        0 <= n <= list.len(),
        flattened_all(list, parent, depth).is_some(),
    ensures
        flattened_all(list.take(n), parent, depth).is_some(),
    decreases list.len(),
{
    if n < list.len() {
        lemma_flattened_prefix(list.drop_last(), n, parent, depth);
        assert(list.drop_last().take(n) == list.take(n));
    } else {
        assert(list.take(n) == list);
    }
}

fn flatten_list<S: Stock, A: Assembly<S>>(
    list: &Vec<Product<S, A>>,
    parent: &Transform,
    depth: usize,
    out: &mut Vec<Placed>,
) -> (r: bool)
    ensures
        r == flattened_all(list@, *parent, depth as nat).is_some(),
        r ==> final(out)@ == old(out)@ + flattened_all(list@, *parent, depth as nat).unwrap(),
    decreases depth, 1nat, list@.len(),
{
    let ghost before = out@;
    let mut i: usize = 0;
    assert(out@ == before + Seq::<Placed>::empty());
    while i < list.len()
        invariant
            i <= list@.len(),
            flattened_all(list@.take(i as int), *parent, depth as nat).is_some(),
            out@ == before + flattened_all(list@.take(i as int), *parent, depth as nat).unwrap(),
        decreases list@.len() - i,
    {
        let ghost so_far = flattened_all(list@.take(i as int), *parent, depth as nat).unwrap();
        proof {
            let next = list@.take(i + 1);
            assert(next.drop_last() == list@.take(i as int));
            assert(next.last() == list@[i as int]);
        }
        if !list[i].flatten_into(parent, depth, out) {
            proof {
                if flattened_all(list@, *parent, depth as nat).is_some() {
                    lemma_flattened_prefix(list@, i + 1, *parent, depth as nat);
                }
            }
            return false;
        }
        proof {
            let step = list@[i as int].flattened(*parent, depth as nat).unwrap();
            assert(before + so_far + step == before + (so_far + step));
        }
        i = i + 1;
    }
    assert(list@.take(i as int) == list@);
    true
}

} // verus!
