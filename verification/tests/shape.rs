use light2d::hit::Hit;
use light2d::shape::Shape;

/// A primitive of these tests: the numbers from `lo` up to, not including,
/// `hi`. A ray walks up the number line from a point.
#[derive(Clone, Copy)]
struct Span {
    lo: u64,
    hi: u64,
}

fn span(lo: u64, hi: u64) -> Box<Shape<Span>> {
    Box::new(Shape::Primitive(Span { lo, hi }))
}

fn holds(span: &Span, at: &u64) -> bool {
    span.lo < *at && *at < span.hi
}

/// The first end of the span that lies ahead of `from`.
fn cast(span: &Span, from: u64) -> Option<Hit<u64>> {
    if from < span.lo {
        Some(Hit { distance: span.lo - from, surface: span.lo })
    } else if from < span.hi {
        Some(Hit { distance: span.hi - from, surface: span.hi })
    } else {
        None
    }
}

fn inside(shape: &Shape<Span>, at: u64) -> bool {
    shape.is_inside(&at, &holds)
}

fn hit(shape: &Shape<Span>, from: u64) -> Option<u64> {
    shape.intersect(&|s: &Span| cast(s, from), &holds).map(|h| h.surface)
}

#[test]
fn primitive_answers_for_itself() {
    let shape = Shape::Primitive(Span { lo: 10, hi: 20 });
    assert!(inside(&shape, 15));
    assert!(!inside(&shape, 10));
    assert!(!inside(&shape, 25));
    assert_eq!(hit(&shape, 0), Some(10));
    assert_eq!(hit(&shape, 12), Some(20));
    assert_eq!(hit(&shape, 30), None);
}

#[test]
fn union_holds_what_either_child_holds() {
    let shape = Shape::Union(span(10, 20), span(40, 50));
    for at in 0..60 {
        let expected = (10 < at && at < 20) || (40 < at && at < 50);
        assert_eq!(inside(&shape, at), expected);
    }
}

#[test]
fn intersect_holds_what_both_children_hold() {
    let shape = Shape::Intersect(span(10, 30), span(20, 50));
    for at in 0..60 {
        let expected = 20 < at && at < 30;
        assert_eq!(inside(&shape, at), expected);
    }
}

#[test]
fn nested_shapes_hold_by_their_structure() {
    let shape = Shape::Intersect(
        Box::new(Shape::Union(span(0, 10), span(20, 30))),
        Box::new(Shape::Union(span(5, 25), span(40, 50))),
    );
    for at in 0..60 {
        let in_left = (0 < at && at < 10) || (20 < at && at < 30);
        let in_right = (5 < at && at < 25) || (40 < at && at < 50);
        assert_eq!(inside(&shape, at), in_left && in_right);
    }
}

#[test]
fn union_is_hit_at_the_closer_child() {
    let shape = Shape::Union(span(10, 20), span(40, 50));
    assert_eq!(hit(&shape, 0), Some(10));
    assert_eq!(hit(&shape, 15), Some(20));
    assert_eq!(hit(&shape, 25), Some(40));
    assert_eq!(hit(&shape, 45), Some(50));
    assert_eq!(hit(&shape, 55), None);
    let swapped = Shape::Union(span(40, 50), span(10, 20));
    for from in 0..60 {
        assert_eq!(hit(&swapped, from), hit(&shape, from));
    }
}

#[test]
fn union_tie_is_the_second_child() {
    let shape = Shape::Union(span(10, 20), span(10, 30));
    let found = shape.intersect(
        &|s: &Span| cast(s, 0).map(|h| Hit { distance: h.distance, surface: s.hi }),
        &|_: &Span, _: &u64| true,
    );
    assert_eq!(found, Some(Hit { distance: 10, surface: 30 }));
}

#[test]
fn intersect_is_hit_where_the_other_child_holds() {
    let shape = Shape::Intersect(span(10, 30), span(20, 50));
    assert_eq!(hit(&shape, 0), Some(20));
    assert_eq!(hit(&shape, 15), Some(20));
    assert_eq!(hit(&shape, 25), Some(30));
    assert_eq!(hit(&shape, 35), None);
    assert_eq!(hit(&shape, 55), None);
}

#[test]
fn disjoint_children_have_no_common_surface() {
    let shape = Shape::Intersect(span(10, 20), span(30, 40));
    for from in 0..50 {
        assert_eq!(hit(&shape, from), None);
        assert!(!inside(&shape, from));
    }
}

#[test]
fn missed_children_are_not_asked_about_a_hit() {
    let shape = Shape::Intersect(span(10, 20), span(12, 18));
    let found = shape.intersect(&|_: &Span| -> Option<Hit<u64>> { None }, &|_: &Span, _: &u64| {
        panic!("no hit to ask about")
    });
    assert_eq!(found, None);
}
