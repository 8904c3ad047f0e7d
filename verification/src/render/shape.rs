//! Shape descriptions.

use vstd::prelude::*;
use vstd::std_specs::convert::FromSpecImpl;
use crate::number::Zero;
use crate::unit::{Dimension, Length};

verus! {

/// A flat disc.
#[derive(Debug, Clone, Copy)]
pub struct Circle {
    pub radius: Length,
}

/// A box with edges along the axes, centred on the origin.
#[derive(Debug, Clone, Copy)]
pub struct Cuboid {
    pub x_length: Length,
    pub y_length: Length,
    pub z_length: Length,
}

/// Any shape.
#[derive(Debug, Clone, Copy)]
pub enum ShapeEnum {
    Circle(Circle),
    Cuboid(Cuboid),
}

/// A shape that lies in a plane.
pub trait Shape2d {
    /// The shape as one of the crate's shapes.
    spec fn shape(&self) -> ShapeEnum;

    fn to_shape(&self) -> (r: ShapeEnum)
        ensures
            r == self.shape(),
    ;
}

impl Shape2d for Circle {
    open spec fn shape(&self) -> ShapeEnum {
        ShapeEnum::Circle(*self)
    }

    fn to_shape(&self) -> (r: ShapeEnum) {
        ShapeEnum::Circle(*self)
    }
}

impl Circle {
    /// Numerically equal radii.
    pub open spec fn same_value(self, other: Circle) -> bool {
        self.radius.raw().same_value(other.radius.raw())
    }

    pub fn equals(&self, other: &Circle) -> (r: bool)
        ensures
            r == self.same_value(*other),
    {
        self.radius.canonical().equals(&other.radius.canonical())
    }
}

impl Cuboid {
    /// Numerically equal edges.
    pub open spec fn same_value(self, other: Cuboid) -> bool {
        &&& self.x_length.raw().same_value(other.x_length.raw())
        &&& self.y_length.raw().same_value(other.y_length.raw())
        &&& self.z_length.raw().same_value(other.z_length.raw())
    }

    /// The texture coordinates of vertex `index` in world units, so that a
    /// texture repeats once per unit of length instead of once per face.
    ///
    /// The 24 vertices come in six faces of four: front and back span x and
    /// y, right and left span z and y, top and bottom span x and z.  The
    /// corners of a face are visited from the origin of the texture along its
    /// first axis, then along its second; back, left and top start at the far
    /// end of the first axis.
    pub open spec fn uv_spec(self, index: int) -> (Length, Length) {
        let o = Length::zero_spec();
        let (x, y, z) = (self.x_length, self.y_length, self.z_length);
        let face = index / 4;
        let corner = index % 4;
        let (u, v) = if face == 0 || face == 1 {
            (x, y)
        } else if face == 2 || face == 3 {
            (z, y)
        } else {
            (x, z)
        };
        let mirrored = face == 1 || face == 3 || face == 4;
        let far_u = if mirrored {
            corner == 0 || corner == 3
        } else {
            corner == 1 || corner == 2
        };
        let far_v = corner == 2 || corner == 3;
        (if far_u { u } else { o }, if far_v { v } else { o })
    }

    pub fn equals(&self, other: &Cuboid) -> (r: bool)
        ensures
            r == self.same_value(*other),
    {
        self.x_length.canonical().equals(&other.x_length.canonical())
            && self.y_length.canonical().equals(&other.y_length.canonical())
            && self.z_length.canonical().equals(&other.z_length.canonical())
    }

    /// The texture coordinates of one of the 24 vertices.
    pub fn uv(&self, index: usize) -> (r: (Length, Length))
        requires
            index < 24,
        ensures
            r == self.uv_spec(index as int),
    {
        let o = Length::zero();
        let x_length = self.x_length;
        let y_length = self.y_length;
        let z_length = self.z_length;
        match index {
            0 => (o, o),
            1 => (x_length, o),
            2 => (x_length, y_length),
            3 => (o, y_length),
            4 => (x_length, o),
            5 => (o, o),
            6 => (o, y_length),
            7 => (x_length, y_length),
            8 => (o, o),
            9 => (z_length, o),
            10 => (z_length, y_length),
            11 => (o, y_length),
            12 => (z_length, o),
            13 => (o, o),
            14 => (o, y_length),
            15 => (z_length, y_length),
            16 => (x_length, o),
            17 => (o, o),
            18 => (o, z_length),
            19 => (x_length, z_length),
            20 => (o, o),
            21 => (x_length, o),
            22 => (x_length, z_length),
            _ => (o, z_length),
        }
    }

    /// The texture coordinates of all 24 vertices, in order.
    pub fn uvs(&self) -> (r: Vec<(Length, Length)>)
        ensures
            r.len() == 24,
            forall|i: int| 0 <= i < 24 ==> r[i] == self.uv_spec(i),
    {
        let mut out: Vec<(Length, Length)> = Vec::new();
        let mut i: usize = 0;
        while i < 24
            invariant
                i <= 24,
                out.len() == i,
                forall|k: int| 0 <= k < i ==> out[k] == self.uv_spec(k),
            decreases 24 - i,
        {
            out.push(self.uv(i));
            i = i + 1;
        }
        out
    }
}

impl ShapeEnum {
    /// Same kind of shape with numerically equal measures.
    pub open spec fn same_value(self, other: ShapeEnum) -> bool {
        match (self, other) {
            (ShapeEnum::Circle(a), ShapeEnum::Circle(b)) => a.same_value(b),
            (ShapeEnum::Cuboid(a), ShapeEnum::Cuboid(b)) => a.same_value(b),
            _ => false,
        }
    }

    /// Whether both describe the same shape.
    pub fn equals(&self, other: &ShapeEnum) -> (r: bool)
        ensures
            r == self.same_value(*other),
    {
        match (self, other) {
            (ShapeEnum::Circle(a), ShapeEnum::Circle(b)) => a.equals(b),
            (ShapeEnum::Cuboid(a), ShapeEnum::Cuboid(b)) => a.equals(b),
            _ => false,
        }
    }
}

impl FromSpecImpl<Circle> for ShapeEnum {
    open spec fn obeys_from_spec() -> bool {
        true
    }

    open spec fn from_spec(value: Circle) -> ShapeEnum {
        ShapeEnum::Circle(value)
    }
}

impl From<Circle> for ShapeEnum {
    fn from(value: Circle) -> (r: ShapeEnum) {
        ShapeEnum::Circle(value)
    }
}

impl FromSpecImpl<Cuboid> for ShapeEnum {
    open spec fn obeys_from_spec() -> bool {
        true
    }

    open spec fn from_spec(value: Cuboid) -> ShapeEnum {
        ShapeEnum::Cuboid(value)
    }
}

impl From<Cuboid> for ShapeEnum {
    fn from(value: Cuboid) -> (r: ShapeEnum) {
        ShapeEnum::Cuboid(value)
    }
}

} // verus!
