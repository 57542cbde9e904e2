use widget_core::geometry::{Point, Rect, Thickness};
use widget_core::selector::Selector;

#[test]
fn contains_includes_origin_edge_excludes_far_edge() {
    let r = Rect::new(10, 20, 30, 40);
    assert!(r.contains(Point::new(10, 20)));
    assert!(r.contains(Point::new(39, 59)));
    assert!(!r.contains(Point::new(40, 20)));
    assert!(!r.contains(Point::new(10, 60)));
    assert!(!r.contains(Point::new(9, 20)));
    assert!(!r.contains(Point::new(10, 19)));
}

#[test]
fn empty_rect_contains_nothing() {
    let r = Rect::new(5, 5, 0, 0);
    assert!(!r.contains(Point::new(5, 5)));
}

#[test]
fn contains_handles_extreme_coordinates() {
    let r = Rect::new(i32::MAX - 10, i32::MAX - 10, u32::MAX, u32::MAX);
    assert!(r.contains(Point::new(i32::MAX, i32::MAX)));
    assert!(!r.contains(Point::new(0, 0)));
    let r = Rect::new(i32::MIN, i32::MIN, u32::MAX, u32::MAX);
    assert!(r.contains(Point::new(0, 0)));
    assert!(!r.contains(Point::new(i32::MAX, 0)));
}

#[test]
fn geometry_defaults_are_zero() {
    assert_eq!(Point::default(), Point::new(0, 0));
    assert_eq!(Rect::default(), Rect::new(0, 0, 0, 0));
    assert_eq!(Thickness::default(), Thickness::new(0, 0, 0, 0));
}

#[test]
fn with_pseudo_class_replaces_the_slot() {
    let s = Selector::new("combo-box");
    assert_eq!(s.class, "combo-box");
    assert_eq!(s.pseudo_class, None);
    let s = s.with_pseudo_class("active");
    assert_eq!(s.pseudo_class.as_deref(), Some("active"));
    let s = s.with_pseudo_class("focus");
    assert_eq!(s.class, "combo-box");
    assert_eq!(s.pseudo_class.as_deref(), Some("focus"));
}

#[test]
fn duplicate_preserves_the_selector() {
    let s = Selector::new("combo-box").with_pseudo_class("hover");
    let d = s.duplicate();
    assert_eq!(d, s);
}
