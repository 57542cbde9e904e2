use widget_core::geometry::{HorizontalPlacement, Point, Rect, Thickness, VerticalPlacement};
use widget_core::layout::{place_children, ChildLayout};

fn absolute(x: i32, y: i32, width: u32, height: u32) -> ChildLayout {
    ChildLayout {
        horizontal_placement: HorizontalPlacement::Absolute,
        vertical_placement: VerticalPlacement::Absolute,
        margin: Thickness::new(0, 0, 0, 0),
        local_position: Point::new(x, y),
        width,
        height,
    }
}

fn flow(margin: Thickness, width: u32, height: u32) -> ChildLayout {
    ChildLayout {
        horizontal_placement: HorizontalPlacement::Relative,
        vertical_placement: VerticalPlacement::Relative,
        margin,
        local_position: Point::new(0, 0),
        width,
        height,
    }
}

#[test]
fn absolute_children_sit_at_their_local_position() {
    let parent = Rect::new(100, 200, 500, 500);
    let children = vec![absolute(1, 28, 330, 28), absolute(1, 56, 330, 28)];
    let rects = place_children(parent, &children);
    assert_eq!(rects, vec![Rect::new(101, 228, 330, 28), Rect::new(101, 256, 330, 28)]);
}

#[test]
fn flow_children_stack_with_margins() {
    let parent = Rect::new(10, 10, 300, 300);
    let m = Thickness::new(5, 2, 0, 3);
    let children = vec![flow(m, 100, 20), flow(m, 100, 30), flow(m, 100, 40)];
    let rects = place_children(parent, &children);
    assert_eq!(rects[0], Rect::new(15, 12, 100, 20));
    // 20 + 2 + 3 = 25 of flow consumed by the first child
    assert_eq!(rects[1], Rect::new(15, 37, 100, 30));
    // another 30 + 2 + 3 = 35 consumed by the second
    assert_eq!(rects[2], Rect::new(15, 72, 100, 40));
}

#[test]
fn absolute_children_do_not_consume_flow() {
    let parent = Rect::new(0, 0, 300, 300);
    let m = Thickness::new(0, 0, 0, 0);
    let children = vec![flow(m, 50, 20), absolute(200, 200, 10, 10), flow(m, 50, 20)];
    let rects = place_children(parent, &children);
    assert_eq!(rects[0], Rect::new(0, 0, 50, 20));
    assert_eq!(rects[1], Rect::new(200, 200, 10, 10));
    assert_eq!(rects[2], Rect::new(0, 20, 50, 20));
}

#[test]
fn later_sibling_change_leaves_earlier_rects_alone() {
    let parent = Rect::new(0, 0, 300, 300);
    let m = Thickness::new(0, 0, 0, 0);
    let mut children = vec![flow(m, 50, 20), flow(m, 50, 20), flow(m, 50, 20)];
    let before = place_children(parent, &children);
    children[2].height = 99;
    children[2].width = 7;
    let after = place_children(parent, &children);
    assert_eq!(before[0], after[0]);
    assert_eq!(before[1], after[1]);
    assert_eq!(after[2], Rect::new(0, 40, 7, 99));
}
