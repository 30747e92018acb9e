use light2d::hit::Hit;
use light2d::polygon::{Polygon, PolygonError, MIN_POINTS};

#[test]
fn no_vertex_is_too_few() {
    let outline: Result<Polygon<(i32, i32)>, PolygonError> = Polygon::new(Vec::new());
    assert_eq!(outline.err(), Some(PolygonError::TooFewPoints));
}

#[test]
fn one_vertex_is_too_few() {
    let outline = Polygon::new(vec![(1, 1)]);
    assert_eq!(outline.err(), Some(PolygonError::TooFewPoints));
}

#[test]
fn two_vertices_are_enough() {
    let outline = Polygon::new(vec![(0, 0), (4, 0)]).ok().unwrap();
    assert_eq!(MIN_POINTS, 2);
    assert_eq!(outline.len(), 2);
    assert_eq!(outline.edge(0), (&(0, 0), &(4, 0)));
    assert_eq!(outline.edge(1), (&(4, 0), &(0, 0)));
}

#[test]
fn edges_walk_the_ring_in_order() {
    let corners = vec!['a', 'b', 'c', 'd'];
    let outline = Polygon::new(corners.clone()).ok().unwrap();
    assert_eq!(outline.len(), 4);
    assert_eq!(outline.edge(0), (&'a', &'b'));
    assert_eq!(outline.edge(1), (&'b', &'c'));
    assert_eq!(outline.edge(2), (&'c', &'d'));
    assert_eq!(outline.edge(3), (&'d', &'a'));
}

#[test]
fn every_vertex_starts_and_ends_one_edge() {
    let outline = Polygon::new(vec![10u8, 20, 30, 40, 50]).ok().unwrap();
    let mut starts = Vec::new();
    let mut ends = Vec::new();
    for i in 0..outline.len() {
        let (from, to) = outline.edge(i);
        starts.push(*from);
        ends.push(*to);
    }
    assert_eq!(starts, vec![10, 20, 30, 40, 50]);
    assert_eq!(ends, vec![20, 30, 40, 50, 10]);
}

#[test]
fn float_vertices_are_kept_as_given() {
    let outline = Polygon::new(vec![(0.5f64, -0.25f64), (1.5, 0.0), (0.0, 2.0)]).ok().unwrap();
    assert_eq!(outline.edge(2), (&(0.0, 2.0), &(0.5, -0.25)));
}

#[test]
fn inside_needs_every_edge() {
    let outline = Polygon::new(vec![1u8, 2, 3, 4]).ok().unwrap();
    assert!(outline.is_inside(&|_: &u8, _: &u8| true));
    assert!(!outline.is_inside(&|_: &u8, _: &u8| false));
    for failing in 1..=4u8 {
        assert!(!outline.is_inside(&|from: &u8, _: &u8| *from != failing));
    }
    assert!(!outline.is_inside(&|from: &u8, to: &u8| !(*from == 4 && *to == 1)));
    assert!(outline.is_inside(&|from: &u8, to: &u8| *to == *from % 4 + 1));
}

#[test]
fn nearest_crossing_is_the_hit() {
    let outline = Polygon::new(vec![30u64, 10, 20, 40]).ok().unwrap();
    let cross = |from: &u64, to: &u64| Some(Hit { distance: *from, surface: (*from, *to) });
    assert_eq!(outline.intersect(&cross), Some(Hit { distance: 10, surface: (10, 20) }));
    let none = outline.intersect(&|_: &u64, _: &u64| -> Option<Hit<u8>> { None });
    assert_eq!(none, None);
    let last = outline.intersect(&|from: &u64, to: &u64| {
        if *to == 30 {
            Some(Hit { distance: 5, surface: *from })
        } else {
            None
        }
    });
    assert_eq!(last, Some(Hit { distance: 5, surface: 40 }));
}

#[test]
fn earliest_edge_wins_a_tie() {
    let outline = Polygon::new(vec!['a', 'b', 'c']).ok().unwrap();
    let found = outline.intersect(&|from: &char, _: &char| Some(Hit { distance: 9, surface: *from }));
    assert_eq!(found, Some(Hit { distance: 9, surface: 'a' }));
    let found = outline.intersect(&|from: &char, _: &char| {
        if *from == 'a' {
            None
        } else {
            Some(Hit { distance: 9, surface: *from })
        }
    });
    assert_eq!(found, Some(Hit { distance: 9, surface: 'b' }));
}
