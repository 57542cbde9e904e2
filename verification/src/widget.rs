//! The widget contract: the capability set every tree node implements.
//!
//! Geometry access, placement, margin, an ordered child list (stable
//! arena-style handles), a drawing operation and an event operation.
//!
//! Drawing is a read-only projection of current state onto a sequence of
//! drawing commands; it cannot mutate widget state. The event operation is
//! the sole mutation entry point. It follows a two-signal protocol: the
//! `redraw` out-channel is raised (never lowered) when anything changed
//! that requires a redraw, and the `caught` out-channel is raised when the
//! event was consumed, halting further propagation to siblings and
//! ancestors. The returned bool reports whether this node now holds input
//! focus for leaf actions, or the updated focus state for composites.

use vstd::prelude::*;
use crate::draw::{DrawCmd, DrawCmdView};
use crate::event::Event;
use crate::geometry::{HorizontalPlacement, Point, Rect, Thickness, VerticalPlacement};
use crate::selector::{Selector, SelectorView};

verus! {

/// The style capability: access to the selector through which a theme
/// resolves a widget's paint rules.
pub trait Style {
    spec fn selector_spec(&self) -> SelectorView;

    fn selector(&self) -> (r: &Selector)
        ensures
            r@ == self.selector_spec(),
    ;
}

pub trait Widget: Sized {
    /// Well-formedness that the event operation requires and preserves.
    spec fn event_ok(&self) -> bool;

    /// The exact relation between the widget state before (`pre`) and
    /// after (`post`) handling `ev`; `caught` is the state of the
    /// consumption signal on entry.
    spec fn event_post(pre: Self, post: Self, ev: Event, focused: bool, caught: bool) -> bool;

    /// Whether handling `ev` raises the redraw signal.
    spec fn event_raises(&self, ev: Event, focused: bool, caught: bool) -> bool;

    /// Whether handling `ev` marks the event consumed.
    spec fn event_catches(&self, ev: Event, focused: bool, caught: bool) -> bool;

    /// The value the event operation returns.
    spec fn event_out(&self, ev: Event, focused: bool, caught: bool) -> bool;

    /// What the draw operation requires of the widget's geometry: every
    /// pixel coordinate it derives must be representable.
    spec fn draw_ok(&self, focused: bool) -> bool;

    /// The exact sequence of drawing commands the draw operation emits.
    spec fn draw_model(&self, focused: bool) -> Seq<DrawCmdView>;

    spec fn rect_spec(&self) -> Rect;

    spec fn local_position_spec(&self) -> Point;

    spec fn vertical_placement_spec(&self) -> VerticalPlacement;

    spec fn horizontal_placement_spec(&self) -> HorizontalPlacement;

    spec fn margin_spec(&self) -> Thickness;

    spec fn name_spec(&self) -> Seq<char>;

    spec fn children_spec(&self) -> Seq<usize>;

    /// The widget's current geometry, in parent-relative pixels.
    fn rect(&self) -> (r: Rect)
        ensures
            r == self.rect_spec(),
    ;

    /// The widget's position relative to its parent's origin.
    fn local_position(&self) -> (r: Point)
        ensures
            r == self.local_position_spec(),
    ;

    fn vertical_placement(&self) -> (r: VerticalPlacement)
        ensures
            r == self.vertical_placement_spec(),
    ;

    fn horizontal_placement(&self) -> (r: HorizontalPlacement)
        ensures
            r == self.horizontal_placement_spec(),
    ;

    fn margin(&self) -> (r: Thickness)
        ensures
            r == self.margin_spec(),
    ;

    /// A fixed name identifying the widget kind.
    fn name(&self) -> (r: &'static str)
        ensures
            r@ == self.name_spec(),
    ;

    /// The ordered child list, as stable handles into the owning arena.
    fn children(&self) -> (r: &Vec<usize>)
        ensures
            r@ == self.children_spec(),
    ;

    /// Project the widget's current state onto drawing commands, in the
    /// order a backend must execute them.
    fn draw(&self, focused: bool) -> (r: Vec<DrawCmd>)
        requires
            self.draw_ok(focused),
        ensures
            r.deep_view() == self.draw_model(focused),
    ;

    /// Handle one discrete input event; the sole mutation entry point.
    fn event(&mut self, ev: Event, focused: bool, redraw: &mut bool, caught: &mut bool) -> (r:
        bool)
        requires
            old(self).event_ok(),
        ensures
            Self::event_post(*old(self), *final(self), ev, focused, *old(caught)),
            final(self).event_ok(),
            *final(redraw) == (*old(redraw) || old(self).event_raises(ev, focused, *old(caught))),
            *final(caught) == (*old(caught) || old(self).event_catches(ev, focused, *old(caught))),
            r == old(self).event_out(ev, focused, *old(caught)),
    ;
}

} // verus!
