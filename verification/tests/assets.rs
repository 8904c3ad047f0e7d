use villagekit::assets::{AssetStore, Description, Handle};
use villagekit::number::Number;
use villagekit::render::{Circle, Cuboid, Material, ShapeEnum};
use villagekit::unit::{Length, Meters};

fn num(text: &str) -> Number {
    Number::parse(text).unwrap()
}

fn m(text: &str) -> Length {
    Length::from_scalar::<Meters>(num(text))
}

fn cube(edge: &str) -> ShapeEnum {
    ShapeEnum::from(Cuboid { x_length: m(edge), y_length: m(edge), z_length: m(edge) })
}

#[test]
fn equal_descriptions_share_a_handle() {
    let mut store: AssetStore<ShapeEnum, String> = AssetStore::new();
    let first = store.insert(cube("1"), "mesh of 1".to_string());
    let second = store.insert(cube("1.0"), "another mesh of 1".to_string());
    let third = store.insert(cube("2"), "mesh of 2".to_string());
    assert_eq!(first, second);
    assert_ne!(first, third);
    assert_eq!(store.asset(first), Some(&"mesh of 1".to_string()));
    assert_eq!(store.asset(third), Some(&"mesh of 2".to_string()));
    assert_eq!(store.references(first), Some(2));
    assert_eq!(store.references(third), Some(1));
    let disc = store.insert(ShapeEnum::from(Circle { radius: m("1") }), "disc".to_string());
    assert_ne!(disc, first);
    assert_ne!(disc, third);
}

#[test]
fn assets_are_created_once() {
    let made = std::cell::Cell::new(0);
    let create = |key: &ShapeEnum| {
        made.set(made.get() + 1);
        match key {
            ShapeEnum::Cuboid(_) => "box".to_string(),
            ShapeEnum::Circle(_) => "disc".to_string(),
        }
    };
    let mut store: AssetStore<ShapeEnum, String> = AssetStore::new();
    let a = store.get_or_create(cube("1"), &create);
    let b = store.get_or_create(cube("1"), &create);
    let c = store.get_or_create(ShapeEnum::from(Circle { radius: m("1") }), &create);
    assert_eq!(a, b);
    assert_ne!(a, c);
    assert_eq!(made.get(), 2);
    assert_eq!(store.asset(a), Some(&"box".to_string()));
    assert_eq!(store.asset(c), Some(&"disc".to_string()));
    assert_eq!(store.get(&cube("1.00")), Some(a));
    assert_eq!(store.get(&cube("3")), None);
    assert_eq!(store.references(a), Some(3));
}

#[test]
fn cleaning_evicts_what_nobody_refers_to() {
    let mut store: AssetStore<ShapeEnum, String> = AssetStore::new();
    let one = store.insert(cube("1"), "one".to_string());
    let again = store.insert(cube("1"), "dropped".to_string());
    let two = store.insert(cube("2"), "two".to_string());

    assert_eq!(store.clean_unused(), Vec::<String>::new());
    assert_eq!(store.asset(one), Some(&"one".to_string()));
    assert_eq!(store.asset(two), Some(&"two".to_string()));

    assert!(store.release(one));
    assert_eq!(store.clean_unused(), Vec::<String>::new());
    assert_eq!(store.asset(one), Some(&"one".to_string()));

    assert!(store.release(again));
    assert!(!store.release(again));
    assert_eq!(store.clean_unused(), vec!["one".to_string()]);
    assert_eq!(store.asset(one), None);
    assert_eq!(store.references(one), None);
    assert!(!store.release(one));
    assert_eq!(store.get(&cube("1")), None);
    assert_eq!(store.asset(two), Some(&"two".to_string()));
    assert_eq!(store.clean_unused(), Vec::<String>::new());

    let fresh = store.insert(cube("1"), "one again".to_string());
    assert_eq!(fresh.index, one.index);
    assert_ne!(fresh, one);
    assert_eq!(store.asset(fresh), Some(&"one again".to_string()));
    assert_eq!(store.asset(one), None);

    assert!(store.release(two));
    assert!(store.release(fresh));
    assert_eq!(store.clean_unused(), vec!["one again".to_string(), "two".to_string()]);
    assert_eq!(store.asset(Handle { index: 7, generation: 0 }), None);
}

#[test]
fn new_entries_take_the_first_free_slot() {
    let mut store: AssetStore<ShapeEnum, u32> = AssetStore::new();
    let one = store.insert(cube("1"), 1);
    let two = store.get_or_create(cube("2"), |_| 2);
    let three = store.insert(cube("3"), 3);
    assert_eq!((one.index, two.index, three.index), (0, 1, 2));
    assert_eq!(store.insert(cube("2"), 20), two);
    assert!(store.release(two));
    assert!(store.release(two));
    assert!(store.release(one));
    assert_eq!(store.clean_unused(), vec![1, 2]);
    let four = store.get_or_create(cube("4"), |_| 4);
    assert_eq!((four.index, four.generation), (0, 1));
    let five = store.insert(cube("5"), 5);
    assert_eq!((five.index, five.generation), (1, 1));
    let six = store.insert(cube("6"), 6);
    assert_eq!((six.index, six.generation), (3, 0));
    assert_eq!(store.asset(three), Some(&3));
}

#[test]
fn materials_are_cached_by_description() {
    let mut store: AssetStore<Material, u32> = AssetStore::new();
    let plain = store.insert(Material::default(), 1);
    let mut rough = Material::default();
    rough.perceptual_roughness = num("0.7");
    let other = store.insert(rough, 2);
    let same = store.insert(Material::default(), 3);
    assert_eq!(plain, same);
    assert_ne!(plain, other);
    assert_eq!(store.asset(same), Some(&1));
    assert!(Material::default().matches(&Material::default()));
    assert!(cube("1").matches(&cube("1")));
}
