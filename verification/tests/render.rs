use villagekit::math::{z_axis, Quaternion, Vector3};
use villagekit::number::{ApproxEq, Number};
use villagekit::render::{
    AlphaMode, Circle, Color, Cuboid, Face, ImageId, Instance, Material, MaterialId, OpaqueRendererMethod,
    ParallaxMappingMethod, Renderable, Shape2d, Shape3dId, ShapeEnum, ShapeId, Table, Transform, UvChannel,
};
use villagekit::unit::{Angle, Length, Meters, Radians};

fn num(text: &str) -> Number {
    Number::parse(text).unwrap()
}

fn m(text: &str) -> Length {
    Length::from_scalar::<Meters>(num(text))
}

fn vm(x: &str, y: &str, z: &str) -> Vector3<Length> {
    Vector3::new(m(x), m(y), m(z))
}

fn cube(edge: &str) -> ShapeEnum {
    ShapeEnum::from(Cuboid { x_length: m(edge), y_length: m(edge), z_length: m(edge) })
}

#[test]
fn test_apply_translation() {
    let initial = Transform { translation: vm("1", "2", "3"), rotation: Quaternion::default() };
    let delta = vm("4", "-2", "0");
    let result = initial.apply_translation(delta);
    // Expected translation is (1+4, 2-2, 3+0) = (5, 0, 3)
    assert_eq!(result.translation, vm("5", "0", "3"));
    // Rotation remains unchanged (identity)
    assert!(result.rotation.equals(&Quaternion::default()));
}

#[test]
fn test_translate() {
    let initial = Transform::default();
    let result = initial.translate(m("1"), m("2"), m("3"));
    assert_eq!(result.translation, vm("1", "2", "3"));
}

#[test]
fn test_apply_rotation() {
    // Start with a non-default rotation: 45° around the y-axis.
    let initial = Transform {
        translation: vm("1", "0", "0"),
        rotation: Quaternion::from_axis_angle(Vector3::new(num("0"), num("1"), num("0")), Number::frac_pi_4()),
    };
    // Apply a rotation of 90° about the z-axis.
    let axis = Vector3::new(num("0"), num("0"), num("1"));
    let angle = Number::frac_pi_2();
    let applied_rotation = Quaternion::from_axis_angle(axis, angle);
    let result = initial.apply_rotation(applied_rotation);
    let expected_rotation = initial.rotation * applied_rotation;
    assert!(result.rotation.equals(&expected_rotation));
    // Ensure the translation remains unchanged.
    assert_eq!(result.translation, initial.translation);
}

#[test]
fn test_rotate_without_origin() {
    // Rotate a point at (1,0,0) 90° about the z-axis using default origin (0,0,0).
    let initial = Transform { translation: vm("1", "0", "0"), rotation: Quaternion::default() };
    let axis = Vector3::new(num("0"), num("0"), num("1"));
    let angle = Angle::from_scalar::<Radians>(Number::frac_pi_2());
    let result = initial.rotate(axis, angle, None);
    // (1,0,0) rotated about (0,0,0) by 90° should become (0,1,0)
    assert!(
        ApproxEq::approx_eq(&result.translation, &vm("0", "1", "0")),
        "left = {:?}, right = {:?}",
        &result.translation,
        &vm("0", "1", "0")
    );
}

#[test]
fn test_rotate_with_origin() {
    // Rotate a point at (2,0,0) 90° about the z-axis with pivot (1,0,0).
    let initial = Transform { translation: vm("2", "0", "0"), rotation: Quaternion::default() };
    let axis = Vector3::new(num("0"), num("0"), num("1"));
    let angle = Angle::from_scalar::<Radians>(Number::frac_pi_2());
    let origin = vm("1", "0", "0");
    let result = initial.rotate(axis, angle, Some(origin));
    // Calculation:
    // (2,0,0) - (1,0,0) = (1,0,0) rotated 90° gives (0,1,0), then add origin -> (1,1,0)
    assert!(
        ApproxEq::approx_eq(&result.translation, &vm("1", "1", "0")),
        "left = {:?}, right = {:?}",
        &result.translation,
        &vm("1", "1", "0")
    );
}

#[test]
fn transforms_compose_parent_then_child() {
    let parent = Transform::identity().translate(m("5"), m("0"), m("0"));
    let child = Transform::identity().translate(m("1"), m("0"), m("0"));
    assert_eq!(parent.compose(&child).translation, vm("6", "0", "0"));
    let turned = Transform::identity().rotate(z_axis(), Angle::from_scalar::<Radians>(Number::frac_pi_2()), None);
    let placed = turned.translate(m("5"), m("0"), m("0")).compose(&child);
    let gap = placed.translation - vm("5", "1", "0");
    let small = m("0.000000000000000000000000000001");
    assert!(gap.x < small && gap.y < small && gap.z < small);
}

#[test]
fn keys_compare_by_text() {
    assert!(ShapeId::new("beam").same(&ShapeId::new("beam")));
    assert!(!ShapeId::new("beam").same(&ShapeId::new("hole")));
    assert!(ShapeId::new("beam").duplicate().same(&ShapeId::new("beam")));
    assert!(Shape3dId::new("cube").same(&Shape3dId::new("cube")));
    assert!(MaterialId::new("wood").same(&MaterialId::new("wood")));
    assert!(!MaterialId::new("wood").same(&MaterialId::new("black")));
    assert!(ImageId::new("./textures/wood.jpg").same(&ImageId::new("./textures/wood.jpg")));
    assert_eq!(ImageId::new("./textures/wood.jpg").as_str(), "./textures/wood.jpg");
    assert_eq!(ShapeId::new("beam"), ShapeId::new("beam"));
    assert_ne!(MaterialId::new("wood"), MaterialId::new("black"));
    assert!(ShapeId::new("beam") < ShapeId::new("hole"));
    assert!(Shape3dId::new("b") > Shape3dId::new("a"));
    let mut ids = std::collections::BTreeSet::new();
    ids.insert(MaterialId::new("wood"));
    ids.insert(MaterialId::new("black"));
    ids.insert(MaterialId::new("wood"));
    assert_eq!(ids.len(), 2);
    let mut images = std::collections::HashSet::new();
    images.insert(ImageId::new("a.png"));
    images.insert(ImageId::new("a.png"));
    assert_eq!(images.len(), 1);
}

#[test]
fn default_material() {
    let material = Material::default();
    assert!(material.base_color.equals(&Color::white()));
    assert!(material.emissive.equals(&Color::black()));
    assert_eq!(material.perceptual_roughness, num("0.5"));
    assert_eq!(material.metallic, num("0"));
    assert_eq!(material.reflectance, num("0.5"));
    assert_eq!(material.ior, num("1.5"));
    assert!(material.attenuation_distance.is_infinite_number());
    assert_eq!(material.cull_mode, Some(Face::Back));
    assert!(material.fog_enabled);
    assert!(!material.unlit);
    assert!(material.alpha_mode.equals(&AlphaMode::Opaque));
    assert_eq!(material.parallax_depth_scale, num("0.1"));
    assert_eq!(material.max_parallax_layer_count, num("16"));
    assert_eq!(material.lightmap_exposure, num("1"));
    assert_eq!(material.parallax_mapping_method, ParallaxMappingMethod::Occlusion);
    assert_eq!(material.opaque_render_method, OpaqueRendererMethod::Forward);
    assert_eq!(material.base_color_channel, UvChannel::Uv0);
    assert_eq!(material.deferred_lighting_pass_id, 0);
    assert!(material.base_color_texture.is_none());
}

#[test]
fn materials_compare_field_by_field() {
    let plain = Material::default();
    assert!(plain.equals(&Material::default()));
    let mut wood = Material::default();
    wood.base_color_texture = Some(ImageId::new("./textures/wood.jpg"));
    wood.perceptual_roughness = num("0.70");
    assert!(!wood.equals(&plain));
    let mut same = Material::default();
    same.base_color_texture = Some(ImageId::new("./textures/wood.jpg"));
    same.perceptual_roughness = num("0.7");
    assert!(wood.equals(&same));
    same.alpha_mode = AlphaMode::Mask(num("0.5"));
    assert!(!wood.equals(&same));
    let mut masked = Material::default();
    masked.alpha_mode = AlphaMode::Mask(num("0.50"));
    let mut other = Material::default();
    other.alpha_mode = AlphaMode::Mask(num("0.5"));
    assert!(masked.equals(&other));
    other.alpha_mode = AlphaMode::Blend;
    assert!(!masked.equals(&other));
    let red = Color::Srgba { red: num("1"), green: num("0"), blue: num("0"), alpha: num("1") };
    let linear = Color::LinearRgba { red: num("1"), green: num("0"), blue: num("0"), alpha: num("1") };
    assert!(!red.equals(&linear));
    assert!(red.equals(&Color::Srgba { red: num("1.0"), green: num("0"), blue: num("0"), alpha: num("1") }));
}

#[test]
fn shapes_compare_by_measure() {
    assert!(cube("1").equals(&cube("1.0")));
    assert!(!cube("1").equals(&cube("2")));
    let disc = ShapeEnum::from(Circle { radius: m("1") });
    assert!(!disc.equals(&cube("1")));
    assert!(disc.equals(&Circle { radius: m("1.00") }.to_shape()));
}

#[test]
fn cuboid_texture_coordinates_are_in_world_units() {
    let shape = Cuboid { x_length: m("2"), y_length: m("3"), z_length: m("5") };
    let o = m("0");
    let (x, y, z) = (m("2"), m("3"), m("5"));
    let expected = [
        (o, o), (x, o), (x, y), (o, y),
        (x, o), (o, o), (o, y), (x, y),
        (o, o), (z, o), (z, y), (o, y),
        (z, o), (o, o), (o, y), (z, y),
        (x, o), (o, o), (o, z), (x, z),
        (o, o), (x, o), (x, z), (o, z),
    ];
    let all = shape.uvs();
    assert_eq!(all.len(), 24);
    for i in 0..24 {
        assert_eq!(shape.uv(i), expected[i], "vertex {}", i);
        assert_eq!(all[i], expected[i], "vertex {}", i);
    }
}

#[test]
fn tables_keep_one_value_per_key() {
    let mut table: Table<u32> = Table::new();
    assert_eq!(table.len(), 0);
    table.insert("a", 1);
    table.insert("b", 2);
    table.insert("a", 3);
    assert_eq!(table.len(), 2);
    assert_eq!(table.get("a"), Some(&3));
    assert_eq!(table.get("b"), Some(&2));
    assert_eq!(table.get("c"), None);
    assert_eq!(table.entry(0), ("a", &3));
    assert_eq!(table.entry(1), ("b", &2));
    table.insert("0", 4);
    table.insert("b", 5);
    assert_eq!(table.len(), 3);
    assert_eq!(table.entry(0), ("a", &3));
    assert_eq!(table.entry(1), ("b", &5));
    assert_eq!(table.entry(2), ("0", &4));
}

#[test]
fn renderables_hold_shapes_materials_and_instances() {
    let mut r = Renderable::default();
    let beam = r.insert_shape("beam", cube("1"));
    let wood = r.insert_material("wood", Material::default());
    assert!(beam.same(&ShapeId::new("beam")));
    assert!(wood.same(&MaterialId::new("wood")));
    assert!(r.shape(&beam).unwrap().equals(&cube("1")));
    assert!(r.material(&wood).unwrap().equals(&Material::default()));
    assert!(r.shape(&ShapeId::new("hole")).is_none());
    assert!(r.material(&MaterialId::new("black")).is_none());
    r.insert_shape("beam", cube("2"));
    assert!(r.shape(&beam).unwrap().equals(&cube("2")));
    assert_eq!(r.shapes.len(), 1);

    assert!(r.is_complete());
    let mut parent = Instance::new(beam.duplicate(), wood.duplicate());
    parent.transform = Transform::identity().translate(m("1"), m("0"), m("0"));
    let mut child = Instance::new(beam.duplicate(), wood.duplicate());
    child.transform = Transform::identity().translate(m("0"), m("2"), m("0"));
    parent.children.push(child);
    r.insert_instance(parent);
    r.insert_instance(Instance::new(beam.duplicate(), wood.duplicate()));
    assert_eq!(r.instances.len(), 2);
    assert!(r.is_complete());

    let positions = r.positions(&Transform::identity().translate(m("10"), m("0"), m("0")));
    assert_eq!(positions.len(), 3);
    assert_eq!(positions[0].transform.translation, vm("11", "0", "0"));
    assert_eq!(positions[1].transform.translation, vm("11", "2", "0"));
    assert_eq!(positions[2].transform.translation, vm("10", "0", "0"));
    assert!(positions[1].shape.same(&beam));
    assert!(positions[1].material.same(&wood));
    assert_eq!(r.instances[0].absolute(&Transform::identity()).translation, vm("1", "0", "0"));

    let mut stray = Instance::new(beam.duplicate(), wood.duplicate());
    stray.children.push(Instance::new(ShapeId::new("hole"), wood.duplicate()));
    r.insert_instance(stray);
    assert!(!r.is_complete());
    let mut other = Renderable::new();
    other.insert_shape("beam", cube("1"));
    other.insert_instance(Instance::new(beam.duplicate(), MaterialId::new("wood")));
    assert!(!other.is_complete());
}

#[test]
fn two_half_turns_can_leave_the_tolerance() {
    let start = Transform { translation: vm("2", "0.5", "-3"), rotation: Quaternion::default() };
    let half = Angle::from_scalar::<Radians>(Number::pi());
    let axis = Vector3::new(num("1"), num("2"), num("3"));
    let once = start.rotate(axis, half, Some(vm("1", "0", "0")));
    let twice = once.rotate(axis, half, Some(vm("1", "0", "0")));
    assert!(!ApproxEq::approx_eq(&twice.translation, &start.translation));
    let gap = (twice.translation.x - start.translation.x) / Length::from_scalar::<Meters>(num("1"));
    assert!(gap.absolute() < num("0.000000000000000000000000000001"));
    let about_z = Vector3::new(num("0"), num("0"), num("1"));
    let once = start.rotate(about_z, half, Some(vm("1", "0", "0")));
    let twice = once.rotate(about_z, half, Some(vm("1", "0", "0")));
    assert!(ApproxEq::approx_eq(&twice.translation, &start.translation));
}
