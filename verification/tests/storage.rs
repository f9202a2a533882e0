use ecs_core::{
    Color, Component, ComponentRow, ComponentType, InputCmp, MovementCmp, ShapeCmp, Single,
    SpriteCmp, Stat, StatCmp, TransformCmp, Double,
};

fn single(value: f32) -> Single {
    Single::from_bits(value.to_bits())
}

fn transform(x: f32, y: f32) -> TransformCmp {
    TransformCmp {
        pos: (single(x), single(y)),
        rot: (single(0.0), single(0.0)),
        scale: (single(1.0), single(1.0)),
    }
}

fn stats(speed: u32) -> StatCmp {
    let row = [
        Stat::VITALITY(1),
        Stat::ENDURANCE(2),
        Stat::WISDOM(3),
        Stat::SPEED(speed),
        Stat::STRENGTH(5),
        Stat::TOUGHNESS(6),
        Stat::PERSEPTION(7),
        Stat::INTELLIGENCE(8),
    ];
    StatCmp {
        base: row,
        mult: [Stat::VITALITY(single(1.0)); 8],
        add: row,
        fin: row,
        max_status: [10, 20, 30],
        curr_status: [Double::from_bits(1.5f64.to_bits()); 3],
    }
}

#[test]
fn new_row_is_empty() {
    let row = ComponentRow::new();
    for kind in [
        ComponentType::Transform,
        ComponentType::Shape,
        ComponentType::Sprite,
        ComponentType::Movement,
        ComponentType::Stats,
        ComponentType::Input,
    ] {
        assert!(!row.contains_key(kind));
        assert_eq!(row.get(kind), None);
    }
    assert_eq!(row.transform(), None);
    assert_eq!(row.shape(), None);
    assert_eq!(row.sprite(), None);
    assert_eq!(row.movement(), None);
    assert_eq!(row.stats(), None);
    assert_eq!(row.input(), None);
}

#[test]
fn insert_files_under_the_kind() {
    let mut row = ComponentRow::new();
    let prior = row.insert(ComponentType::Transform, Component::Transform(transform(1.0, 2.0)));
    assert_eq!(prior, None);
    assert!(row.contains_key(ComponentType::Transform));
    assert!(!row.contains_key(ComponentType::Shape));
    assert_eq!(
        row.get(ComponentType::Transform),
        Some(&Component::Transform(transform(1.0, 2.0)))
    );
    assert_eq!(row.transform(), Some(transform(1.0, 2.0)));
}

#[test]
fn insert_returns_what_it_replaces() {
    let mut row = ComponentRow::new();
    row.insert(ComponentType::Input, Component::Input(InputCmp { mask: 1 }));
    let prior = row.insert(ComponentType::Input, Component::Input(InputCmp { mask: 6 }));
    assert_eq!(prior, Some(Component::Input(InputCmp { mask: 1 })));
    assert_eq!(row.input(), Some(InputCmp { mask: 6 }));
}

#[test]
fn each_kind_has_its_own_slot() {
    let white = Color::new(255, 255, 255, 255);
    let mut row = ComponentRow::new();
    row.insert(ComponentType::Transform, Component::Transform(transform(1.0, 2.0)));
    row.insert(ComponentType::Shape, Component::Shape(ShapeCmp::Circle(single(2.5), white)));
    row.insert(ComponentType::Sprite, Component::Sprite(SpriteCmp(9)));
    row.insert(
        ComponentType::Movement,
        Component::Movement(MovementCmp { dir: (single(1.0), single(-1.0)) }),
    );
    row.insert(ComponentType::Stats, Component::Stats(stats(5)));
    row.insert(ComponentType::Input, Component::Input(InputCmp { mask: 3 }));
    assert_eq!(row.transform(), Some(transform(1.0, 2.0)));
    assert_eq!(row.shape(), Some(ShapeCmp::Circle(single(2.5), white)));
    assert_eq!(row.sprite(), Some(SpriteCmp(9)));
    assert_eq!(row.movement(), Some(MovementCmp { dir: (single(1.0), single(-1.0)) }));
    assert_eq!(row.stats(), Some(stats(5)));
    assert_eq!(row.input(), Some(InputCmp { mask: 3 }));
}

#[test]
fn lookup_by_type_never_casts() {
    let mut row = ComponentRow::new();
    row.insert(ComponentType::Transform, Component::Input(InputCmp { mask: 1 }));
    assert!(row.contains_key(ComponentType::Transform));
    assert_eq!(
        row.get(ComponentType::Transform),
        Some(&Component::Input(InputCmp { mask: 1 }))
    );
    assert_eq!(row.transform(), None);
    assert_eq!(row.input(), None);
}

#[test]
fn kinds_and_indices() {
    let kinds = [
        ComponentType::Transform,
        ComponentType::Shape,
        ComponentType::Sprite,
        ComponentType::Movement,
        ComponentType::Stats,
        ComponentType::Input,
    ];
    for (place, kind) in kinds.iter().enumerate() {
        assert_eq!(kind.index() as usize, place);
    }
    assert_eq!(Component::Transform(transform(0.0, 0.0)).kind(), ComponentType::Transform);
    assert_eq!(
        Component::Shape(ShapeCmp::Square(1, Color::new(0, 0, 0, 0))).kind(),
        ComponentType::Shape
    );
    assert_eq!(Component::Sprite(SpriteCmp(1)).kind(), ComponentType::Sprite);
    assert_eq!(
        Component::Movement(MovementCmp { dir: (single(0.0), single(0.0)) }).kind(),
        ComponentType::Movement
    );
    assert_eq!(Component::Stats(stats(1)).kind(), ComponentType::Stats);
    assert_eq!(Component::Input(InputCmp { mask: 0 }).kind(), ComponentType::Input);
}
