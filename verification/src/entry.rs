//! The leaf option widget of the combo box: one selectable entry with an
//! immutable, order-assigned index as stable identity, a text, and
//! transient hover/pressed interaction flags plus an active flag marking
//! the currently selected entry.

use vstd::prelude::*;
use vstd::string::*;
use crate::draw::{emit_glyphs, glyphs_from, DrawCmd, DrawCmdView};
use crate::event::Event;
use crate::geometry::{HorizontalPlacement, Point, Rect, Thickness, VerticalPlacement};
use crate::selector::{Selector, SelectorView};
use crate::widget::{Style, Widget};

verus! {

/// The mathematical value of an [`Entry`].
#[verifier::ext_equal]
pub struct EntryView {
    pub rect: Rect,
    pub local_position: Point,
    pub vertical_placement: VerticalPlacement,
    pub horizontal_placement: HorizontalPlacement,
    pub margin: Thickness,
    pub selector: SelectorView,
    pub text: Seq<char>,
    pub text_offset: Point,
    pub hover: bool,
    pub pressed: bool,
    pub index: u32,
    pub active: bool,
    pub children: Seq<usize>,
}

/// One selectable entry of a combo box.
#[derive(Debug)]
pub struct Entry {
    pub rect: Rect,
    pub local_position: Point,
    pub vertical_placement: VerticalPlacement,
    pub horizontal_placement: HorizontalPlacement,
    pub margin: Thickness,
    pub selector: Selector,
    pub text: String,
    pub text_offset: Point,
    pub hover: bool,
    pub pressed: bool,
    pub index: u32,
    pub active: bool,
    pub children: Vec<usize>,
}

impl View for Entry {
    type V = EntryView;

    open spec fn view(&self) -> EntryView {
        EntryView {
            rect: self.rect,
            local_position: self.local_position,
            vertical_placement: self.vertical_placement,
            horizontal_placement: self.horizontal_placement,
            margin: self.margin,
            selector: self.selector@,
            text: self.text@,
            text_offset: self.text_offset,
            hover: self.hover,
            pressed: self.pressed,
            index: self.index,
            active: self.active,
            children: self.children@,
        }
    }
}

impl DeepView for Entry {
    type V = EntryView;

    open spec fn deep_view(&self) -> EntryView {
        self@
    }
}

impl EntryView {
    /// The hover flag after a pointer event at `point` with primary-button
    /// state `left`: inside the rect the entry hovers unless this very
    /// event completes a click; outside, hover is cleared.
    pub open spec fn hover_after(self, point: Point, left: bool) -> bool {
        if self.rect.spec_contains(point) {
            left || !self.pressed
        } else {
            false
        }
    }

    /// The pressed flag after a pointer event: tracks the button while the
    /// pointer is inside the rect; outside, it is cleared on release.
    pub open spec fn pressed_after(self, point: Point, left: bool) -> bool {
        if self.rect.spec_contains(point) {
            left
        } else {
            left && self.pressed
        }
    }

    /// A click is recognized when the entry was pressed and the button is
    /// now released while the pointer is still inside its rect.
    pub open spec fn clicked(self, point: Point, left: bool) -> bool {
        self.rect.spec_contains(point) && !left && self.pressed
    }

    /// State after a pointer event: only the transient flags move.
    pub open spec fn mouse_step(self, point: Point, left: bool) -> EntryView {
        EntryView {
            hover: self.hover_after(point, left),
            pressed: self.pressed_after(point, left),
            ..self
        }
    }

    /// State after any event; non-pointer events leave an entry unchanged.
    pub open spec fn step(self, ev: Event) -> EntryView {
        match ev {
            Event::Mouse { point, left_button } => self.mouse_step(point, left_button),
            _ => self,
        }
    }

    /// The redraw signal is raised exactly on an actual flag transition.
    pub open spec fn step_raises(self, ev: Event) -> bool {
        match ev {
            Event::Mouse { point, left_button } => self.hover_after(point, left_button)
                != self.hover || self.pressed_after(point, left_button) != self.pressed,
            _ => false,
        }
    }

    /// A pointer event is consumed exactly when the pointer lies inside
    /// the entry's rect.
    pub open spec fn step_catches(self, ev: Event) -> bool {
        match ev {
            Event::Mouse { point, .. } => self.rect.spec_contains(point),
            _ => false,
        }
    }

    /// Whether handling `ev` reports a discrete click.
    pub open spec fn step_click(self, ev: Event) -> bool {
        match ev {
            Event::Mouse { point, left_button } => self.clicked(point, left_button),
            _ => false,
        }
    }

    /// The selector an entry is painted with: the base class, with the
    /// `active` pseudo-class when selected, else `hover` while hovered.
    pub open spec fn paint_selector(self) -> SelectorView {
        if self.active {
            self.selector.spec_with_pseudo_class("active"@)
        } else if self.hover {
            self.selector.spec_with_pseudo_class("hover"@)
        } else {
            self.selector
        }
    }

    /// The x origin of the first glyph of the entry's text.
    pub open spec fn glyph_start(self) -> int {
        self.rect.x + self.text_offset.x
    }

    /// Glyphs may extend up to this x coordinate (exclusive): the far edge
    /// of the rect, pulled in by the text offset.
    pub open spec fn glyph_limit(self) -> int {
        self.rect.x + self.rect.width - self.text_offset.x
    }

    /// The baseline used for all glyphs: vertically centered in the rect.
    pub open spec fn glyph_y(self) -> int {
        self.rect.y + self.rect.height / 2 - 8
    }

    /// The draw operation's geometric precondition: every pixel coordinate
    /// it derives is representable as an `i32`.
    pub open spec fn draw_ok_v(self) -> bool {
        &&& self.rect.height <= i32::MAX
        &&& self.rect.y + self.rect.height <= i32::MAX
        &&& i32::MIN + 8 <= self.rect.y
        &&& self.glyph_limit() <= i32::MAX
        &&& i32::MIN <= self.glyph_start()
    }

    /// The full sequence of commands drawing an entry: a styled background
    /// box only while hovered or selected, then the text glyphs.
    pub open spec fn draw_model_v(self) -> Seq<DrawCmdView> {
        let sel = self.paint_selector();
        let boxes: Seq<DrawCmdView> = if self.hover || self.active {
            seq![DrawCmdView::PaintBox { rect: self.rect, selector: sel }]
        } else {
            Seq::empty()
        };
        boxes + glyphs_from(
            self.text,
            self.glyph_start(),
            self.glyph_y(),
            self.glyph_limit(),
            sel,
            self.text.len() as int,
        )
    }
}

impl Entry {
    /// A fresh entry: default geometry, the `combo-box-entry` style class,
    /// the given text, and the given order-assigned index as its identity.
    /// All interaction flags start cleared.
    pub fn new(text: &str, index: u32) -> (r: Entry)
        ensures
            r@ == (EntryView {
                rect: Rect { x: 0, y: 0, width: 0, height: 0 },
                local_position: Point { x: 0, y: 0 },
                vertical_placement: VerticalPlacement::Absolute,
                horizontal_placement: HorizontalPlacement::Absolute,
                margin: Thickness { left: 0, top: 0, right: 0, bottom: 0 },
                selector: SelectorView { class: "combo-box-entry"@, pseudo_class: None },
                text: text@,
                text_offset: Point { x: 0, y: 0 },
                hover: false,
                pressed: false,
                index: index,
                active: false,
                children: Seq::empty(),
            }),
    {
        Entry {
            rect: Rect::default(),
            local_position: Point::new(0, 0),
            vertical_placement: VerticalPlacement::Absolute,
            horizontal_placement: HorizontalPlacement::Absolute,
            margin: Thickness::default(),
            selector: Selector::new("combo-box-entry"),
            text: String::from_str(text),
            text_offset: Point::default(),
            hover: false,
            pressed: false,
            index,
            active: false,
            children: Vec::new(),
        }
    }

    /// Replace the entry's text.
    pub fn text(&mut self, text: &str)
        ensures
            final(self)@ == (EntryView { text: text@, ..old(self)@ }),
    {
        self.text = String::from_str(text);
    }

    /// Set the offset at which the text is drawn inside the rect.
    pub fn text_offset(&mut self, x: i32, y: i32)
        ensures
            final(self)@ == (EntryView { text_offset: Point { x, y }, ..old(self)@ }),
    {
        self.text_offset = Point::new(x, y);
    }
}

impl Style for Entry {
    open spec fn selector_spec(&self) -> SelectorView {
        self.selector@
    }

    fn selector(&self) -> &Selector {
        &self.selector
    }
}

impl Widget for Entry {
    open spec fn event_ok(&self) -> bool {
        true
    }

    open spec fn event_post(pre: Entry, post: Entry, ev: Event, focused: bool, caught: bool) -> bool {
        post@ == pre@.step(ev)
    }

    open spec fn event_raises(&self, ev: Event, focused: bool, caught: bool) -> bool {
        self@.step_raises(ev)
    }

    open spec fn event_catches(&self, ev: Event, focused: bool, caught: bool) -> bool {
        self@.step_catches(ev)
    }

    open spec fn event_out(&self, ev: Event, focused: bool, caught: bool) -> bool {
        self@.step_click(ev)
    }

    open spec fn draw_ok(&self, focused: bool) -> bool {
        self@.draw_ok_v()
    }

    open spec fn draw_model(&self, focused: bool) -> Seq<DrawCmdView> {
        self@.draw_model_v()
    }

    open spec fn rect_spec(&self) -> Rect {
        self.rect
    }

    open spec fn local_position_spec(&self) -> Point {
        self.local_position
    }

    open spec fn vertical_placement_spec(&self) -> VerticalPlacement {
        self.vertical_placement
    }

    open spec fn horizontal_placement_spec(&self) -> HorizontalPlacement {
        self.horizontal_placement
    }

    open spec fn margin_spec(&self) -> Thickness {
        self.margin
    }

    open spec fn name_spec(&self) -> Seq<char> {
        "ComboBoxEntry"@
    }

    open spec fn children_spec(&self) -> Seq<usize> {
        self.children@
    }

    fn rect(&self) -> Rect {
        self.rect
    }

    fn local_position(&self) -> Point {
        self.local_position
    }

    fn vertical_placement(&self) -> VerticalPlacement {
        self.vertical_placement
    }

    fn horizontal_placement(&self) -> HorizontalPlacement {
        self.horizontal_placement
    }

    fn margin(&self) -> Thickness {
        self.margin
    }

    fn name(&self) -> &'static str {
        "ComboBoxEntry"
    }

    fn children(&self) -> &Vec<usize> {
        &self.children
    }

    fn draw(&self, focused: bool) -> (r: Vec<DrawCmd>) {
        let mut sel = self.selector.duplicate();
        if self.active {
            sel = sel.with_pseudo_class("active");
        } else if self.hover {
            sel = sel.with_pseudo_class("hover");
        }
        let mut cmds: Vec<DrawCmd> = Vec::new();
        if self.hover || self.active {
            cmds.push(DrawCmd::PaintBox { rect: self.rect, selector: sel.duplicate() });
        }
        proof {
            assert(cmds.deep_view() =~= if self@.hover || self@.active {
                seq![DrawCmdView::PaintBox { rect: self@.rect, selector: self@.paint_selector() }]
            } else {
                Seq::<DrawCmdView>::empty()
            });
        }
        let start: i64 = self.rect.x as i64 + self.text_offset.x as i64;
        let limit: i64 = self.rect.x as i64 + self.rect.width as i64 - self.text_offset.x as i64;
        let y: i32 = self.rect.y + (self.rect.height as i32) / 2 - 8;
        emit_glyphs(&mut cmds, self.text.as_str(), start, y, limit, &sel);
        proof {
            assert(cmds.deep_view() =~= self@.draw_model_v());
        }
        cmds
    }

    fn event(&mut self, ev: Event, focused: bool, redraw: &mut bool, caught: &mut bool) -> (r:
        bool) {
        match ev {
            Event::Mouse { point, left_button } => {
                let mut click = false;
                if self.rect.contains(point) {
                    if !self.hover {
                        self.hover = true;
                        *redraw = true;
                    }
                    if left_button {
                        if !self.pressed {
                            self.pressed = true;
                            *redraw = true;
                        }
                    } else {
                        if self.pressed {
                            self.pressed = false;
                            click = true;
                            self.hover = false;
                            *redraw = true;
                        }
                    }
                    *caught = true;
                } else {
                    if self.hover {
                        self.hover = false;
                        *redraw = true;
                    }
                    if !left_button {
                        if self.pressed {
                            self.pressed = false;
                            *redraw = true;
                        }
                    }
                }
                click
            },
            _ => false,
        }
    }
}

} // verus!
