//! Keys of shapes, materials and images.

use vstd::prelude::*;

verus! {

/// The key of a shape within a renderable.
#[derive(Debug, Clone, PartialEq, Eq, PartialOrd, Ord, Hash)]
pub struct ShapeId(pub String);

/// The key of a solid shape within a renderable.
#[derive(Debug, Clone, PartialEq, Eq, PartialOrd, Ord, Hash)]
pub struct Shape3dId(pub String);

/// The key of a material within a renderable.
#[derive(Debug, Clone, PartialEq, Eq, PartialOrd, Ord, Hash)]
pub struct MaterialId(pub String);

/// The path of an image.
#[derive(Debug, Clone, Default, PartialEq, Eq, Hash)]
pub struct ImageId(pub String);

impl View for ShapeId {
    type V = Seq<char>;

    open spec fn view(&self) -> Seq<char> {
        self.0@
    }
}

impl View for Shape3dId {
    type V = Seq<char>;

    open spec fn view(&self) -> Seq<char> {
        self.0@
    }
}

impl View for MaterialId {
    type V = Seq<char>;

    open spec fn view(&self) -> Seq<char> {
        self.0@
    }
}

impl View for ImageId {
    type V = Seq<char>;

    open spec fn view(&self) -> Seq<char> {
        self.0@
    }
}

impl ShapeId {
    pub fn new(key: &str) -> (r: ShapeId)
        ensures
            r@ == key@,
    {
        ShapeId(key.to_owned())
    }

    /// Whether both keys are the same text.
    pub fn same(&self, other: &ShapeId) -> (r: bool)
        ensures
            r == (self@ == other@),
    {
        self.0 == other.0
    }

    /// A copy of the key.
    pub fn duplicate(&self) -> (r: ShapeId)
        ensures
            r@ == self@,
    {
        ShapeId(self.0.clone())
    }
}

impl Shape3dId {
    pub fn new(key: &str) -> (r: Shape3dId)
        ensures
            r@ == key@,
    {
        Shape3dId(key.to_owned())
    }

    /// Whether both keys are the same text.
    pub fn same(&self, other: &Shape3dId) -> (r: bool)
        ensures
            r == (self@ == other@),
    {
        self.0 == other.0
    }
}

impl MaterialId {
    pub fn new(key: &str) -> (r: MaterialId)
        ensures
            r@ == key@,
    {
        MaterialId(key.to_owned())
    }

    /// Whether both keys are the same text.
    pub fn same(&self, other: &MaterialId) -> (r: bool)
        ensures
            r == (self@ == other@),
    {
        self.0 == other.0
    }

    /// A copy of the key.
    pub fn duplicate(&self) -> (r: MaterialId)
        ensures
            r@ == self@,
    {
        MaterialId(self.0.clone())
    }
}

impl ImageId {
    pub fn new(path: &str) -> (r: ImageId)
        ensures
            r@ == path@,
    {
        ImageId(path.to_owned())
    }

    /// Whether both paths are the same text.
    pub fn same(&self, other: &ImageId) -> (r: bool)
        ensures
            r == (self@ == other@),
    {
        self.0 == other.0
    }

    /// The path.
    pub fn as_str(&self) -> (r: &str)
        ensures
            r@ == self@,
    {
        self.0.as_str()
    }
}

} // verus!
