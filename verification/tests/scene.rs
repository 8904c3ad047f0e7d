use villagekit::assets::AssetStore;
use villagekit::math::Vector3;
use villagekit::number::Number;
use villagekit::render::{Cuboid, Instance, Material, MaterialId, Renderable, ShapeEnum, ShapeId, Transform};
use villagekit::scene::materialize;
use villagekit::unit::{Length, Meters};

fn num(text: &str) -> Number {
    Number::parse(text).unwrap()
}

fn m(text: &str) -> Length {
    Length::from_scalar::<Meters>(num(text))
}

fn cube(edge: &str) -> ShapeEnum {
    ShapeEnum::from(Cuboid { x_length: m(edge), y_length: m(edge), z_length: m(edge) })
}

fn rough(value: &str) -> Material {
    let mut material = Material::default();
    material.perceptual_roughness = num(value);
    material
}

fn beam(edge: &str, roughness: &str) -> Renderable {
    let mut r = Renderable::new();
    let shape = r.insert_shape("beam", cube(edge));
    let wood = r.insert_material("wood", rough(roughness));
    let mut root = Instance::new(shape.duplicate(), wood.duplicate());
    root.transform = Transform::identity().translate(m("1"), m("2"), m("3"));
    root.children.push(Instance::new(shape, wood));
    r.insert_instance(root);
    r
}

fn name_mesh(shape: &ShapeEnum) -> String {
    match shape {
        ShapeEnum::Cuboid(_) => "box".to_string(),
        ShapeEnum::Circle(_) => "disc".to_string(),
    }
}

fn name_surface(_: &Material) -> u32 {
    7
}

#[test]
fn renderables_with_equal_descriptions_share_assets() {
    let mut meshes: AssetStore<ShapeEnum, String> = AssetStore::new();
    let mut surfaces: AssetStore<Material, u32> = AssetStore::new();

    let first = materialize(&beam("1", "0.7"), &mut meshes, &mut surfaces, &name_mesh, &name_surface);
    let second = materialize(&beam("1.0", "0.70"), &mut meshes, &mut surfaces, &name_mesh, &name_surface);
    let third = materialize(&beam("2", "0.7"), &mut meshes, &mut surfaces, &name_mesh, &name_surface);

    let a = *first.shapes.get("beam").unwrap();
    let b = *second.shapes.get("beam").unwrap();
    let c = *third.shapes.get("beam").unwrap();
    assert_eq!(a, b);
    assert_ne!(a, c);
    assert_eq!(meshes.asset(a), Some(&"box".to_string()));
    assert_eq!(meshes.references(a), Some(2));
    assert_eq!(meshes.references(c), Some(1));

    let wood = *first.materials.get("wood").unwrap();
    assert_eq!(*second.materials.get("wood").unwrap(), wood);
    assert_eq!(*third.materials.get("wood").unwrap(), wood);
    assert_eq!(surfaces.asset(wood), Some(&7));
    assert_eq!(surfaces.references(wood), Some(3));
    assert_eq!(first.shapes.len(), 1);
    assert_eq!(first.materials.len(), 1);
}

#[test]
fn instances_are_resolved_to_handles() {
    let mut meshes: AssetStore<ShapeEnum, String> = AssetStore::new();
    let mut surfaces: AssetStore<Material, u32> = AssetStore::new();
    let renderable = beam("1", "0.7");
    let bindings = materialize(&renderable, &mut meshes, &mut surfaces, &name_mesh, &name_surface);

    assert!(bindings.covers(&renderable.instances));
    let trees = bindings.resolve_all(&renderable.instances);
    assert_eq!(trees.len(), 1);
    let root = &trees[0];
    assert_eq!(root.mesh, *bindings.shapes.get("beam").unwrap());
    assert_eq!(root.material, *bindings.materials.get("wood").unwrap());
    assert!(root.shape.same(&ShapeId::new("beam")));
    assert_eq!(root.transform.translation, Vector3::new(m("1"), m("2"), m("3")));
    assert_eq!(root.children.len(), 1);
    assert_eq!(root.children[0].mesh, root.mesh);
    assert_eq!(root.children[0].children.len(), 0);

    let single = bindings.resolve(&renderable.instances[0].children[0]);
    assert_eq!(single.material, root.material);
}

#[test]
fn instances_with_unknown_keys_are_not_covered() {
    let mut meshes: AssetStore<ShapeEnum, String> = AssetStore::new();
    let mut surfaces: AssetStore<Material, u32> = AssetStore::new();
    let mut renderable = beam("1", "0.7");
    let mut stray = Instance::new(ShapeId::new("beam"), MaterialId::new("wood"));
    stray.children.push(Instance::new(ShapeId::new("beam"), MaterialId::new("steel")));
    renderable.insert_instance(stray);
    assert!(!renderable.is_complete());

    let bindings = materialize(&renderable, &mut meshes, &mut surfaces, &name_mesh, &name_surface);
    assert!(!bindings.covers(&renderable.instances));
    let sound: Vec<Instance> = renderable.instances.drain(..1).collect();
    assert!(bindings.covers(&sound));
    assert_eq!(bindings.resolve_all(&sound).len(), 1);
    assert!(!bindings.covers(&renderable.instances));
    assert!(!bindings.covers(&vec![Instance::new(ShapeId::new("hole"), MaterialId::new("wood"))]));
}
