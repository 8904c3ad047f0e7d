use villagekit::math::{z_axis, Vector3};
use villagekit::number::{Abs, Number};
use villagekit::product::{Assembly, Group, Product, ProductKind, Stock};
use villagekit::render::{Cuboid, Instance, Material, Renderable, ShapeEnum, Transform};
use villagekit::unit::{Angle, Length, Meters, Radians};

fn num(text: &str) -> Number {
    Number::parse(text).unwrap()
}

fn m(text: &str) -> Length {
    Length::from_scalar::<Meters>(num(text))
}

fn vm(x: &str, y: &str, z: &str) -> Vector3<Length> {
    Vector3::new(m(x), m(y), m(z))
}

struct Cube {
    edge: Length,
}

impl Stock for Cube {
    fn rendering(&self) -> Renderable {
        self.render()
    }

    fn render(&self) -> Renderable {
        let mut r = Renderable::default();
        let shape = r.insert_shape(
            "cube",
            ShapeEnum::from(Cuboid { x_length: self.edge, y_length: self.edge, z_length: self.edge }),
        );
        let material = r.insert_material("plain", Material::default());
        r.insert_instance(Instance::new(shape, material));
        r
    }
}

enum Part {
    Pair,
    Tower(usize),
    Bare,
}

impl Assembly<Cube> for Part {
    fn parts(&self) -> Vec<Product<Cube, Part>> {
        self.products()
    }

    fn products(&self) -> Vec<Product<Cube, Part>> {
        match self {
            Part::Pair => vec![
                Cube { edge: m("1") }.place().translate(m("1"), m("0"), m("0")),
                Cube { edge: m("1") }.place().translate(m("-1"), m("0"), m("0")),
            ],
            Part::Tower(0) => vec![Cube { edge: m("1") }.place()],
            Part::Tower(n) => vec![
                Cube { edge: m("1") }.place(),
                Part::Tower(n - 1).place().translate(m("0"), m("0"), m("1")),
            ],
            Part::Bare => vec![],
        }
    }
}

fn translations(product: &Product<Cube, Part>, depth: usize) -> Vec<Vector3<Length>> {
    let placed = product.flatten(depth).unwrap();
    let mut out = Vec::new();
    for p in placed.iter() {
        for position in p.renderable.positions(&p.transform) {
            out.push(position.transform.translation);
        }
    }
    out
}

#[test]
fn lib_it_works() {
    assert!(true);
}

#[test]
fn flattening_an_assembly_places_its_stocks() {
    let pair = Part::Pair.place();
    assert_eq!(translations(&pair, 1), vec![vm("1", "0", "0"), vm("-1", "0", "0")]);
    let moved = Part::Pair.place().translate(m("5"), m("0"), m("0"));
    assert_eq!(translations(&moved, 1), vec![vm("6", "0", "0"), vm("4", "0", "0")]);
}

#[test]
fn flattening_turns_the_children_with_the_parent() {
    let turned = Part::Pair
        .place()
        .rotate(z_axis(), Angle::from_scalar::<Radians>(Number::frac_pi_2()), None)
        .translate(m("5"), m("0"), m("0"));
    let found = translations(&turned, 1);
    assert_eq!(found.len(), 2);
    let small = m("0.000000000000000000000000000001");
    let near = |a: Vector3<Length>, b: Vector3<Length>| {
        let gap = a - b;
        gap.x.abs() < small && gap.y.abs() < small && gap.z.abs() < small
    };
    assert!(near(found[0], vm("5", "1", "0")));
    assert!(near(found[1], vm("5", "-1", "0")));
}

#[test]
fn flattening_walks_depth_first() {
    let stock: Product<Cube, Part> = Cube { edge: m("2") }.place().translate(m("0"), m("3"), m("0"));
    assert_eq!(translations(&stock, 0), vec![vm("0", "3", "0")]);

    let tower = Part::Tower(2).place();
    assert_eq!(translations(&tower, 3), vec![vm("0", "0", "0"), vm("0", "0", "1"), vm("0", "0", "2")]);
    assert_eq!(translations(&tower, 10).len(), 3);

    let group: Product<Cube, Part> = Product::new(ProductKind::Group(Group(vec![
        Part::Pair.place().translate(m("0"), m("10"), m("0")),
        Cube { edge: m("1") }.place(),
        Product::default(),
        Part::Bare.place(),
    ])))
    .translate(m("0"), m("0"), m("7"));
    assert_eq!(
        translations(&group, 2),
        vec![vm("1", "10", "7"), vm("-1", "10", "7"), vm("0", "0", "7")]
    );
}

#[test]
fn flattening_stops_at_the_depth_given() {
    let tower = Part::Tower(2).place();
    assert!(tower.flatten(2).is_none());
    assert!(tower.flatten(0).is_none());
    assert!(Part::Pair.place().flatten(0).is_none());
    let empty: Product<Cube, Part> = Product::default();
    assert_eq!(empty.flatten(0).unwrap().len(), 0);
    assert_eq!(Part::Bare.place().flatten(1).unwrap().len(), 0);
    let mut out = Vec::new();
    assert!(Part::Pair.place().flatten_into(&Transform::identity(), 1, &mut out));
    assert!(Part::Pair.place().flatten_into(&Transform::identity(), 1, &mut out));
    assert_eq!(out.len(), 4);
}

#[test]
fn kinds_from_options() {
    let none: ProductKind<Cube, Part> = ProductKind::from_option(None);
    assert!(matches!(none, ProductKind::Empty));
    let some: ProductKind<Cube, Part> = ProductKind::from_option(Some(ProductKind::Assembly(Part::Pair)));
    assert!(matches!(some, ProductKind::Assembly(Part::Pair)));
    assert!(matches!(ProductKind::<Cube, Part>::default(), ProductKind::Empty));
    let converted: ProductKind<Cube, Part> = ProductKind::from(Some(ProductKind::Assembly(Part::Bare)));
    assert!(matches!(converted, ProductKind::Assembly(Part::Bare)));
    let nothing: ProductKind<Cube, Part> = None.into();
    assert!(matches!(nothing, ProductKind::Empty));
    assert_eq!(Group::<Cube, Part>::default().0.len(), 0);
    let placed: Product<Cube, Part> = Product::new(ProductKind::Stock(Cube { edge: m("1") }));
    assert_eq!(placed.transform.translation, vm("0", "0", "0"));
}
