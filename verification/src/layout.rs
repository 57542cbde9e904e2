//! Placement resolution for a composite's children.
//!
//! Each child's rect is a pure function of the composite's own rect, the
//! child's placement mode, margin and size, and the flow position among
//! the already-placed preceding siblings. A single forward pass computes
//! all rects, so layout is linear in the child count and a later
//! sibling's size change never requires recomputing earlier siblings.
//!
//! Absolutely placed children sit at their own local position inside the
//! parent; flow-relative children stack vertically, each taking its
//! margin and height out of the running flow offset.

use vstd::prelude::*;
use crate::geometry::{HorizontalPlacement, Point, Rect, Thickness, VerticalPlacement};

verus! {

/// What placement needs to know of one child: placement modes, margin,
/// the owner-assigned local position, and the child's size.
#[derive(Clone, Copy, Debug, PartialEq, Eq, Structural)]
pub struct ChildLayout {
    pub horizontal_placement: HorizontalPlacement,
    pub vertical_placement: VerticalPlacement,
    pub margin: Thickness,
    pub local_position: Point,
    pub width: u32,
    pub height: u32,
}

/// The vertical room a flow-relative child takes out of the flow.
pub open spec fn flow_extent(c: ChildLayout) -> int {
    c.margin.top + c.height + c.margin.bottom
}

/// The flow position of child `i`: the vertical extent of the
/// flow-relative children before it. It depends only on the prefix
/// `children[..i]`.
pub open spec fn flow_offset(children: Seq<ChildLayout>, i: int) -> int
    decreases i,
{
    if i <= 0 {
        0
    } else {
        flow_offset(children, i - 1) + (if children[i - 1].vertical_placement
            is Relative {
            flow_extent(children[i - 1])
        } else {
            0
        })
    }
}

/// The x coordinate a child is placed at.
pub open spec fn child_x(parent: Rect, c: ChildLayout) -> int {
    match c.horizontal_placement {
        HorizontalPlacement::Absolute => parent.x + c.local_position.x,
        HorizontalPlacement::Relative => parent.x + c.margin.left,
    }
}

/// The y coordinate a child is placed at, given its flow position.
pub open spec fn child_y(parent: Rect, c: ChildLayout, flow: int) -> int {
    match c.vertical_placement {
        VerticalPlacement::Absolute => parent.y + c.local_position.y,
        VerticalPlacement::Relative => parent.y + flow + c.margin.top,
    }
}

/// A child's rect: a pure function of the parent's rect, the child's own
/// layout inputs, and its flow position.
pub open spec fn child_rect(parent: Rect, c: ChildLayout, flow: int) -> Rect {
    Rect {
        x: child_x(parent, c) as i32,
        y: child_y(parent, c, flow) as i32,
        width: c.width,
        height: c.height,
    }
}

/// The geometric precondition of placement: every computed coordinate and
/// every intermediate flow offset is representable as an `i32`.
pub open spec fn placement_ok(parent: Rect, children: Seq<ChildLayout>) -> bool {
    &&& forall|i: int|
        0 <= i <= children.len() ==> i32::MIN <= #[trigger] flow_offset(children, i) <= i32::MAX
    &&& forall|i: int|
        0 <= i < children.len() ==> i32::MIN <= child_x(parent, #[trigger] children[i])
            <= i32::MAX
    &&& forall|i: int|
        0 <= i < children.len() ==> i32::MIN <= child_y(
            parent,
            #[trigger] children[i],
            flow_offset(children, i),
        ) <= i32::MAX
}

/// The flow position of child `i` depends only on the siblings before it:
/// two child lists that agree on the prefix before `i` give `i` the same
/// flow position, whatever comes later.
pub proof fn lemma_flow_offset_prefix(a: Seq<ChildLayout>, b: Seq<ChildLayout>, i: int)
    requires
        0 <= i <= a.len(),
        i <= b.len(),
        forall|j: int| 0 <= j < i ==> a[j] == b[j],
    ensures
        flow_offset(a, i) == flow_offset(b, i),
    decreases i,
{
    if i > 0 {
        lemma_flow_offset_prefix(a, b, i - 1);
    }
}

/// Place all children of a composite in one forward pass.
pub fn place_children(parent: Rect, children: &Vec<ChildLayout>) -> (r: Vec<Rect>)
    requires
        placement_ok(parent, children@),
    ensures
        r@.len() == children@.len(),
        forall|i: int|
            0 <= i < r@.len() ==> r@[i] == child_rect(
                parent,
                children@[i],
                flow_offset(children@, i),
            ),
{
    let mut rects: Vec<Rect> = Vec::new();
    let mut flow: i64 = 0;
    let mut k: usize = 0;
    while k < children.len()
        invariant
            k <= children@.len(),
            placement_ok(parent, children@),
            flow == flow_offset(children@, k as int),
            rects@.len() == k,
            forall|i: int|
                0 <= i < k ==> rects@[i] == child_rect(
                    parent,
                    children@[i],
                    flow_offset(children@, i),
                ),
        decreases children@.len() - k,
    {
        let c = children[k];
        let x: i64 = match c.horizontal_placement {
            HorizontalPlacement::Absolute => parent.x as i64 + c.local_position.x as i64,
            HorizontalPlacement::Relative => parent.x as i64 + c.margin.left as i64,
        };
        let y: i64 = match c.vertical_placement {
            VerticalPlacement::Absolute => parent.y as i64 + c.local_position.y as i64,
            VerticalPlacement::Relative => parent.y as i64 + flow + c.margin.top as i64,
        };
        rects.push(Rect::new(x as i32, y as i32, c.width, c.height));
        if let VerticalPlacement::Relative = c.vertical_placement {
            flow = flow + c.margin.top as i64 + c.height as i64 + c.margin.bottom as i64;
        }
        k = k + 1;
    }
    rects
}

} // verus!
