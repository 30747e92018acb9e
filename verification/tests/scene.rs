use light2d::hit::Hit;
use light2d::scene::{Entity, Scene};

fn at(distance: u64) -> Option<Hit<u64>> {
    Some(Hit { distance, surface: distance })
}

#[test]
fn a_missed_shape_is_a_missed_entity() {
    let lamp = Entity { shape: "disc", material: 10u8 };
    let found = lamp.intersect(&|_: &&str| -> Option<Hit<char>> { None });
    assert_eq!(found, None);
}

#[test]
fn a_hit_carries_the_material() {
    let lamp = Entity { shape: 42u64, material: 10u8 };
    let found = lamp.intersect(&|shape: &u64| Some(Hit { distance: *shape, surface: 'p' }));
    assert_eq!(found, Some(Hit { distance: 42, surface: ('p', 10u8) }));
    assert_eq!(lamp.shape, 42);
}

#[test]
fn empty_scene_has_no_hit() {
    let scene: Scene<u64, char> = Scene { entities: Vec::new() };
    assert_eq!(scene.intersect(&|d: &u64| at(*d)), None);
}

#[test]
fn scene_of_misses_has_no_hit() {
    let scene = Scene {
        entities: vec![Entity { shape: 3u64, material: 'a' }, Entity { shape: 5, material: 'b' }],
    };
    assert_eq!(scene.intersect(&|_: &u64| -> Option<Hit<u64>> { None }), None);
}

#[test]
fn nearest_entity_gives_its_material() {
    let scene = Scene {
        entities: vec![
            Entity { shape: 30u64, material: 'a' },
            Entity { shape: 10, material: 'b' },
            Entity { shape: 20, material: 'c' },
        ],
    };
    let found = scene.intersect(&|d: &u64| at(*d));
    assert_eq!(found, Some(Hit { distance: 10, surface: (10, 'b') }));
    let found = scene.intersect(&|d: &u64| if *d == 10 { None } else { at(*d) });
    assert_eq!(found, Some(Hit { distance: 20, surface: (20, 'c') }));
}

#[test]
fn entity_order_keeps_the_nearest() {
    let build = |order: [usize; 3]| {
        let entities = [(30u64, 'a'), (10, 'b'), (20, 'c')];
        Scene {
            entities: order
                .iter()
                .map(|&k| Entity { shape: entities[k].0, material: entities[k].1 })
                .collect(),
        }
    };
    let expected = Some(Hit { distance: 10, surface: (10, 'b') });
    for order in [[0, 1, 2], [0, 2, 1], [1, 0, 2], [1, 2, 0], [2, 0, 1], [2, 1, 0]] {
        assert_eq!(build(order).intersect(&|d: &u64| at(*d)), expected);
    }
}

#[test]
fn earliest_entity_wins_a_tie() {
    let one = Scene {
        entities: vec![Entity { shape: 7u64, material: 'a' }, Entity { shape: 7, material: 'b' }],
    };
    let other = Scene {
        entities: vec![Entity { shape: 7u64, material: 'b' }, Entity { shape: 7, material: 'a' }],
    };
    assert_eq!(one.intersect(&|d: &u64| at(*d)).unwrap().surface.1, 'a');
    assert_eq!(other.intersect(&|d: &u64| at(*d)).unwrap().surface.1, 'b');
}
