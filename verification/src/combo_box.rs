//! The composite selector widget: an ordered collection of leaf entries,
//! a selection cursor, an open/closed flyout flag, and the drawing and
//! event handling for the closed box and its flyout panel.
//!
//! Entries follow a stack discipline: they are created by appending at
//! the end and destroyed only by removing from the end, never reordered,
//! so an entry's insertion position is a stable identity and is stored as
//! its immutable index.
//!
//! Removal and the selection cursor: the cursor must never reference a
//! removed or out-of-range index. Removing the last remaining entry
//! therefore clears the selection (and the mirrored display text);
//! removing any other entry resets the selection to index 0.

use vstd::prelude::*;
use vstd::string::*;
use crate::draw::{emit_glyphs, glyphs_from, DrawCmd, DrawCmdView};
use crate::entry::{Entry, EntryView};
use crate::event::{Event, K_DOWN, K_ENTER, K_UP};
use crate::geometry::{HorizontalPlacement, Point, Rect, Thickness, VerticalPlacement};
use crate::selector::{Selector, SelectorView};
use crate::widget::{Style, Widget};

verus! {

/// The mathematical value of a [`ComboBox`].
#[verifier::ext_equal]
pub struct ComboView {
    pub rect: Rect,
    pub local_position: Point,
    pub vertical_placement: VerticalPlacement,
    pub horizontal_placement: HorizontalPlacement,
    pub margin: Thickness,
    pub selector: SelectorView,
    pub pressed: bool,
    pub activated: bool,
    pub offset: Point,
    pub selected: Option<u32>,
    pub entries: Seq<EntryView>,
    pub text: Seq<char>,
    pub flyout_height: u32,
    pub children: Seq<usize>,
}

/// The sum of the heights of the given entries' rects.
pub open spec fn sum_heights(entries: Seq<EntryView>) -> int
    decreases entries.len(),
{
    if entries.len() == 0 {
        0
    } else {
        sum_heights(entries.drop_last()) + entries.last().rect.height
    }
}

pub proof fn lemma_sum_heights_nonneg(entries: Seq<EntryView>)
    ensures
        sum_heights(entries) >= 0,
    decreases entries.len(),
{
    if entries.len() > 0 {
        lemma_sum_heights_nonneg(entries.drop_last());
    }
}

/// Replacing an entry by one of equal height leaves the sum unchanged.
pub proof fn lemma_sum_heights_update(entries: Seq<EntryView>, k: int, e: EntryView)
    requires
        0 <= k < entries.len(),
        e.rect.height == entries[k].rect.height,
    ensures
        sum_heights(entries.update(k, e)) == sum_heights(entries),
    decreases entries.len(),
{
    let updated = entries.update(k, e);
    if k == entries.len() - 1 {
        assert(updated.drop_last() =~= entries.drop_last());
    } else {
        assert(updated.drop_last() =~= entries.drop_last().update(k, e));
        lemma_sum_heights_update(entries.drop_last(), k, e);
    }
}

/// Appending an entry adds its height to the sum.
pub proof fn lemma_sum_heights_push(entries: Seq<EntryView>, e: EntryView)
    ensures
        sum_heights(entries.push(e)) == sum_heights(entries) + e.rect.height,
{
    assert(entries.push(e).drop_last() =~= entries);
}

impl ComboView {
    /// Well-formedness: the selection cursor is `None` exactly while there
    /// are no entries and otherwise a valid position; every entry's index
    /// equals its position; exactly the selected entry carries the active
    /// flag; the displayed text mirrors the selected entry's text; and the
    /// cached flyout height is the sum of the entry heights.
    pub open spec fn wf(self) -> bool {
        &&& self.entries.len() <= i32::MAX
        &&& (self.selected is None <==> self.entries.len() == 0)
        &&& match self.selected {
            Some(i) => (i as int) < self.entries.len(),
            None => true,
        }
        &&& forall|k: int|
            0 <= k < self.entries.len() ==> (#[trigger] self.entries[k]).index == k
        &&& forall|k: int|
            0 <= k < self.entries.len() ==> ((#[trigger] self.entries[k]).active <==> self.selected
                == Some(k as u32))
        &&& match self.selected {
            Some(i) => self.text == self.entries[i as int].text,
            None => self.text == Seq::<char>::empty(),
        }
        &&& self.flyout_height == sum_heights(self.entries)
    }

    /// Selecting index `i`: clear the previously active entry's flag, move
    /// the cursor, mark entry `i` active and mirror its text. The bound
    /// checks mirror the executable code, which touches an entry only if
    /// the cursor value names a valid position.
    pub open spec fn select_view(self, i: u32) -> ComboView {
        let cleared = match self.selected {
            Some(j) => if (j as int) < self.entries.len() {
                self.entries.update(j as int, EntryView { active: false, ..self.entries[j as int] })
            } else {
                self.entries
            },
            None => self.entries,
        };
        if (i as int) < self.entries.len() {
            ComboView {
                selected: Some(i),
                entries: cleared.update(i as int, EntryView { active: true, ..cleared[i as int] }),
                text: cleared[i as int].text,
                ..self
            }
        } else {
            ComboView { selected: Some(i), entries: cleared, ..self }
        }
    }

    /// What appending `text` must be able to represent: the new entry's
    /// rect and the grown flyout height stay within their integer types.
    pub open spec fn push_ok(self) -> bool {
        &&& self.entries.len() + 1 <= i32::MAX
        &&& self.rect.height <= i32::MAX
        &&& self.rect.x + 1 <= i32::MAX
        &&& self.rect.height * (self.entries.len() + 1) <= i32::MAX
        &&& self.rect.y + self.rect.height * (self.entries.len() + 1) <= i32::MAX
        &&& self.rect.width >= 2
        &&& self.flyout_height + self.rect.height <= u32::MAX
    }

    /// The entry appended for `text`: placed just inside the owner's
    /// border, one row height per preceding entry below the closed box,
    /// with the owner's text offset and the next free index.
    pub open spec fn pushed_entry(self, text: Seq<char>) -> EntryView {
        EntryView {
            rect: Rect {
                x: (self.rect.x + 1) as i32,
                y: (self.rect.y + self.rect.height * (self.entries.len() + 1)) as i32,
                width: (self.rect.width - 2) as u32,
                height: self.rect.height,
            },
            local_position: Point { x: 0, y: 0 },
            vertical_placement: VerticalPlacement::Absolute,
            horizontal_placement: HorizontalPlacement::Absolute,
            margin: Thickness { left: 0, top: 0, right: 0, bottom: 0 },
            selector: SelectorView { class: "combo-box-entry"@, pseudo_class: None },
            text: text,
            text_offset: self.offset,
            hover: false,
            pressed: false,
            index: self.entries.len() as u32,
            active: false,
            children: Seq::empty(),
        }
    }

    /// Appending grows the entries and the cached flyout height; the very
    /// first entry is auto-selected, later ones never move the cursor.
    pub open spec fn push_view(self, text: Seq<char>) -> ComboView {
        let grown = ComboView {
            entries: self.entries.push(self.pushed_entry(text)),
            flyout_height: (self.flyout_height + self.rect.height) as u32,
            ..self
        };
        if self.entries.len() == 0 {
            grown.select_view(0)
        } else {
            grown
        }
    }

    /// Removing: the most recently appended entry leaves and its text is
    /// returned; on an empty collection nothing changes and the result is
    /// empty. If entries remain the selection resets to index 0, otherwise
    /// it clears together with the mirrored text.
    pub open spec fn pop_view(self) -> (ComboView, Seq<char>) {
        if self.entries.len() == 0 {
            (self, Seq::empty())
        } else {
            let last = self.entries.last();
            let shrunk = ComboView {
                entries: self.entries.drop_last(),
                flyout_height: (self.flyout_height - last.rect.height) as u32,
                ..self
            };
            if shrunk.entries.len() == 0 {
                (ComboView { selected: None, text: Seq::empty(), ..shrunk }, last.text)
            } else {
                (shrunk.select_view(0), last.text)
            }
        }
    }
}

/// Selecting a valid index yields a well-formed state; this needs only the
/// structural parts of well-formedness, so it also applies to the interim
/// state during removal, whose cursor may still name the removed position.
pub proof fn lemma_select_view_wf(c: ComboView, i: u32)
    requires
        (i as int) < c.entries.len(),
        c.entries.len() <= i32::MAX,
        forall|k: int| 0 <= k < c.entries.len() ==> (#[trigger] c.entries[k]).index == k,
        forall|k: int|
            0 <= k < c.entries.len() ==> ((#[trigger] c.entries[k]).active <==> c.selected == Some(
                k as u32,
            )),
        c.flyout_height == sum_heights(c.entries),
    ensures
        c.select_view(i).wf(),
{
    let r = c.select_view(i);
    let cleared = match c.selected {
        Some(j) => if (j as int) < c.entries.len() {
            c.entries.update(j as int, EntryView { active: false, ..c.entries[j as int] })
        } else {
            c.entries
        },
        None => c.entries,
    };
    match c.selected {
        Some(j) => {
            if (j as int) < c.entries.len() {
                lemma_sum_heights_update(
                    c.entries,
                    j as int,
                    EntryView { active: false, ..c.entries[j as int] },
                );
            }
        },
        None => {},
    }
    lemma_sum_heights_update(cleared, i as int, EntryView { active: true, ..cleared[i as int] });
    assert forall|k: int| 0 <= k < r.entries.len() implies ((#[trigger] r.entries[k]).active
        <==> r.selected == Some(k as u32)) by {
        assert(c.entries[k].active <==> c.selected == Some(k as u32));
    }
}

/// The outcome of offering a pointer event to the open flyout's entries,
/// in insertion order: the state afterwards, whether the redraw signal was
/// raised, the consumption signal, and whether an entry took a click.
#[verifier::ext_equal]
pub struct PhaseOut {
    pub state: ComboView,
    pub raised: bool,
    pub caught: bool,
    pub took_click: bool,
}

impl ComboView {
    /// Offer the pointer event to entries `k..`, stopping at the first
    /// entry that consumes it. A click on an entry selects it and closes
    /// the flyout; a click always consumes, so it also stops the
    /// iteration.
    pub open spec fn entries_phase_from(self, point: Point, left: bool, caught: bool, k: int) -> PhaseOut
        decreases self.entries.len() - k,
    {
        if k < 0 || k >= self.entries.len() {
            PhaseOut { state: self, raised: false, caught: caught, took_click: false }
        } else {
            let mev = Event::Mouse { point: point, left_button: left };
            let e = self.entries[k];
            let stepped = ComboView {
                entries: self.entries.update(k, e.mouse_step(point, left)),
                ..self
            };
            let caught1 = caught || e.rect.spec_contains(point);
            let raised_e = e.step_raises(mev);
            let click = e.clicked(point, left);
            if caught1 {
                let after = if click {
                    ComboView { activated: false, ..stepped.select_view(e.index) }
                } else {
                    stepped
                };
                PhaseOut {
                    state: after,
                    raised: raised_e || (click && stepped.activated),
                    caught: caught1,
                    took_click: click,
                }
            } else {
                let rest = stepped.entries_phase_from(point, left, caught1, k + 1);
                PhaseOut {
                    state: rest.state,
                    raised: raised_e || rest.raised,
                    caught: rest.caught,
                    took_click: rest.took_click,
                }
            }
        }
    }

    /// How the outcome of the entry phase still to run from position `k`
    /// composes with what an iteration has accumulated before `k`.
    pub open spec fn entries_phase_combine(
        state: ComboView,
        point: Point,
        left: bool,
        caught: bool,
        k: int,
        acc_raised: bool,
        took: bool,
    ) -> PhaseOut {
        let rest = state.entries_phase_from(point, left, caught, k);
        PhaseOut {
            state: rest.state,
            raised: acc_raised || rest.raised,
            caught: rest.caught,
            took_click: took || rest.took_click,
        }
    }

    /// The entry phase runs only while the flyout is open.
    pub open spec fn mouse_phase(self, point: Point, left: bool, caught: bool) -> PhaseOut {
        if self.activated {
            self.entries_phase_from(point, left, caught, 0)
        } else {
            PhaseOut { state: self, raised: false, caught: caught, took_click: false }
        }
    }

    /// The composite's own pointer handling, after the entry phase.
    /// Inside its rect a press toggles the pressed flag and opens the
    /// flyout; a release while not pressed closes it. Outside, unless an
    /// entry just took a click, a press clears the pressed flag and a
    /// release while not pressed closes the flyout.
    pub open spec fn own_mouse_state(self, point: Point, left: bool, took_click: bool) -> ComboView {
        if self.rect.spec_contains(point) {
            if left {
                ComboView { pressed: !self.pressed, activated: true, ..self }
            } else if !self.pressed && self.activated {
                ComboView { activated: false, ..self }
            } else {
                self
            }
        } else if !took_click {
            if left {
                ComboView { pressed: false, ..self }
            } else if !self.pressed && self.activated {
                ComboView { activated: false, ..self }
            } else {
                self
            }
        } else {
            self
        }
    }

    /// The composite's own pointer handling raises the redraw signal only
    /// on an open/closed transition.
    pub open spec fn own_mouse_raises(self, point: Point, left: bool, took_click: bool) -> bool {
        if self.rect.spec_contains(point) {
            if left {
                !self.activated
            } else {
                !self.pressed && self.activated
            }
        } else if !took_click {
            !left && !self.pressed && self.activated
        } else {
            false
        }
    }

    /// The composite takes input focus when a pointer event inside its
    /// rect opens or closes the flyout.
    pub open spec fn own_mouse_focuses(self, point: Point, left: bool) -> bool {
        self.rect.spec_contains(point) && (if left {
            !self.activated
        } else {
            !self.pressed && self.activated
        })
    }

    /// Keyboard handling, only while focused: Up and Down move the
    /// selection by one with hard clamping at the ends (no wraparound,
    /// and a no-op without entries); Enter closes an open flyout without
    /// changing the selection.
    pub open spec fn key_state(self, scancode: u8, focused: bool) -> ComboView {
        if !focused {
            self
        } else if scancode == K_UP {
            match self.selected {
                None => if self.entries.len() > 0 {
                    self.select_view(0)
                } else {
                    self
                },
                Some(i) => if i > 0 {
                    self.select_view((i - 1) as u32)
                } else {
                    self
                },
            }
        } else if scancode == K_DOWN {
            match self.selected {
                None => if self.entries.len() > 0 {
                    self.select_view(0)
                } else {
                    self
                },
                Some(i) => if i + 1 < self.entries.len() {
                    self.select_view((i + 1) as u32)
                } else {
                    self
                },
            }
        } else if scancode == K_ENTER {
            if self.activated {
                ComboView { activated: false, pressed: false, ..self }
            } else {
                self
            }
        } else {
            self
        }
    }

    /// Keyboard handling raises the redraw signal exactly when it changes
    /// the selection or closes the flyout; boundary presses raise nothing.
    pub open spec fn key_raises(self, scancode: u8, focused: bool) -> bool {
        focused && (if scancode == K_UP {
            match self.selected {
                None => self.entries.len() > 0,
                Some(i) => i > 0,
            }
        } else if scancode == K_DOWN {
            match self.selected {
                None => self.entries.len() > 0,
                Some(i) => i + 1 < self.entries.len(),
            }
        } else if scancode == K_ENTER {
            self.activated
        } else {
            false
        })
    }

    /// The state after one discrete event: for a pointer event the entry
    /// phase (while open) followed by the composite's own hit-test; for a
    /// key event the focused keyboard handling; anything else is ignored.
    pub open spec fn step(self, ev: Event, focused: bool, caught: bool) -> ComboView {
        match ev {
            Event::Mouse { point, left_button } => {
                let ph = self.mouse_phase(point, left_button, caught);
                ph.state.own_mouse_state(point, left_button, ph.took_click)
            },
            Event::KeyPressed { scancode } => self.key_state(scancode, focused),
            _ => self,
        }
    }

    /// Whether handling `ev` raises the redraw signal.
    pub open spec fn step_raises(self, ev: Event, focused: bool, caught: bool) -> bool {
        match ev {
            Event::Mouse { point, left_button } => {
                let ph = self.mouse_phase(point, left_button, caught);
                ph.raised || ph.state.own_mouse_raises(point, left_button, ph.took_click)
            },
            Event::KeyPressed { scancode } => self.key_raises(scancode, focused),
            _ => false,
        }
    }

    /// Whether handling `ev` marks it consumed: some entry or the
    /// composite's own rect contains the pointer.
    pub open spec fn step_catches(self, ev: Event, focused: bool, caught: bool) -> bool {
        match ev {
            Event::Mouse { point, left_button } => {
                let ph = self.mouse_phase(point, left_button, caught);
                ph.caught || self.rect.spec_contains(point)
            },
            _ => false,
        }
    }

    /// The focus state the event operation reports back.
    pub open spec fn step_out(self, ev: Event, focused: bool, caught: bool) -> bool {
        match ev {
            Event::Mouse { point, left_button } => {
                let ph = self.mouse_phase(point, left_button, caught);
                focused || ph.state.own_mouse_focuses(point, left_button)
            },
            _ => focused,
        }
    }
}

impl ComboView {
    /// The flyout panel: directly below the closed box, overlapping its
    /// bottom border by two pixels, tall enough for all entries.
    pub open spec fn flyout_rect(self) -> Rect {
        Rect {
            x: self.rect.x,
            y: (self.rect.y + self.rect.height - 2) as i32,
            width: self.rect.width,
            height: (self.flyout_height + 2) as u32,
        }
    }

    /// The clipping guard: an entry is drawn only while its row lies
    /// within the flyout's vertical extent.
    pub open spec fn entry_visible(self, e: EntryView) -> bool {
        e.rect.y >= self.rect.y && e.rect.y + self.rect.height <= self.flyout_rect().y
            + self.flyout_rect().height
    }

    /// The drawing commands of the first `k` entries that pass the
    /// clipping guard, in insertion order.
    pub open spec fn flyout_cmds(self, focused: bool, k: int) -> Seq<DrawCmdView>
        decreases k,
    {
        if k <= 0 {
            Seq::empty()
        } else {
            self.flyout_cmds(focused, k - 1) + (if self.entry_visible(self.entries[k - 1]) {
                self.entries[k - 1].draw_model_v()
            } else {
                Seq::empty()
            })
        }
    }

    /// The toggle affordance is square, inset by the vertical text offset.
    pub open spec fn toggle_size(self) -> int {
        self.rect.height - 2 * self.offset.y
    }

    /// The toggle affordance box, at the right edge of the closed box.
    pub open spec fn toggle_rect(self) -> Rect {
        Rect {
            x: (self.rect.x + self.rect.width - self.toggle_size() - self.offset.y) as i32,
            y: (self.rect.y + self.offset.y) as i32,
            width: self.toggle_size() as u32,
            height: self.toggle_size() as u32,
        }
    }

    /// The closed box's selector: `active` while the flyout is open,
    /// overridden by `focus` while the widget holds input focus (the
    /// single pseudo-class slot keeps at most one of them).
    pub open spec fn own_paint_selector(self, focused: bool) -> SelectorView {
        let s = if self.activated {
            self.selector.spec_with_pseudo_class("active"@)
        } else {
            self.selector
        };
        if focused {
            s.spec_with_pseudo_class("focus"@)
        } else {
            s
        }
    }

    /// The toggle affordance's selector.
    pub open spec fn toggle_selector(self) -> SelectorView {
        SelectorView {
            class: "combo-box-toggle"@,
            pseudo_class: if self.activated {
                Some("active"@)
            } else {
                None
            },
        }
    }

    /// The x origin of the displayed text's first glyph.
    pub open spec fn glyph_start(self) -> int {
        self.rect.x + self.offset.x
    }

    /// Displayed-text glyphs stop where they would overlap the toggle
    /// affordance region.
    pub open spec fn glyph_limit(self) -> int {
        self.rect.x + self.rect.width - self.toggle_rect().width - 2 * self.offset.x
    }

    /// The displayed text's baseline: vertically centered in the box.
    pub open spec fn glyph_y(self) -> int {
        self.rect.y + self.rect.height / 2 - 8
    }

    /// The draw operation's geometric precondition: every pixel coordinate
    /// it derives is representable, and the text offset leaves room for
    /// the toggle affordance inside the box.
    pub open spec fn draw_ok_v(self) -> bool {
        &&& self.rect.width <= i32::MAX
        &&& self.rect.height <= i32::MAX
        &&& i32::MIN + 8 <= self.rect.y
        &&& self.rect.y + self.rect.height <= i32::MAX
        &&& self.flyout_height + 2 <= u32::MAX
        &&& 0 <= self.offset.y
        &&& 2 * self.offset.y <= self.rect.height
        &&& self.rect.x + self.rect.width <= i32::MAX
        &&& i32::MIN <= self.rect.x + self.rect.width - self.rect.height
        &&& i32::MIN <= self.glyph_start()
        &&& self.glyph_limit() <= i32::MAX
        &&& (self.activated ==> forall|k: int|
            0 <= k < self.entries.len() ==> (#[trigger] self.entries[k]).draw_ok_v())
    }

    /// The full frame, in execution order: while open, the flyout
    /// background and the visible entries; then the closed box, the
    /// toggle affordance box, its icon, and the displayed text's glyphs.
    pub open spec fn draw_model_v(self, focused: bool) -> Seq<DrawCmdView> {
        let flyout_part: Seq<DrawCmdView> = if self.activated {
            seq![
                DrawCmdView::PaintBox {
                    rect: self.flyout_rect(),
                    selector: SelectorView { class: "combo-box-flyout"@, pseudo_class: None },
                },
            ] + self.flyout_cmds(focused, self.entries.len() as int)
        } else {
            Seq::empty()
        };
        flyout_part + seq![
            DrawCmdView::PaintBox { rect: self.rect, selector: self.own_paint_selector(focused) },
            DrawCmdView::PaintBox { rect: self.toggle_rect(), selector: self.toggle_selector() },
            DrawCmdView::ToggleIcon {
                open: self.activated,
                x: self.toggle_rect().x,
                y: self.toggle_rect().y,
            },
        ] + glyphs_from(
            self.text,
            self.glyph_start(),
            self.glyph_y(),
            self.glyph_limit(),
            SelectorView { class: "label"@, pseudo_class: None },
            self.text.len() as int,
        )
    }
}

/// The consumption signal is never lowered by the entry phase.
pub proof fn lemma_phase_caught_mono(c: ComboView, point: Point, left: bool, caught: bool, k: int)
    ensures
        caught ==> c.entries_phase_from(point, left, caught, k).caught,
{
}

/// The entry phase never moves the composite's own geometry.
pub proof fn lemma_phase_rect(c: ComboView, point: Point, left: bool, caught: bool, k: int)
    ensures
        c.entries_phase_from(point, left, caught, k).state.rect == c.rect,
    decreases c.entries.len() - k,
{
    if 0 <= k < c.entries.len() {
        let e = c.entries[k];
        let stepped = ComboView { entries: c.entries.update(k, e.mouse_step(point, left)), ..c };
        let caught1 = caught || e.rect.spec_contains(point);
        if !caught1 {
            lemma_phase_rect(stepped, point, left, caught1, k + 1);
        }
    }
}

/// The entry phase preserves well-formedness: flag transitions keep every
/// structural invariant, and a click re-selects through the normal path.
pub proof fn lemma_phase_wf(c: ComboView, point: Point, left: bool, caught: bool, k: int)
    requires
        c.wf(),
    ensures
        c.entries_phase_from(point, left, caught, k).state.wf(),
    decreases c.entries.len() - k,
{
    if 0 <= k < c.entries.len() {
        let e = c.entries[k];
        let stepped = ComboView { entries: c.entries.update(k, e.mouse_step(point, left)), ..c };
        lemma_sum_heights_update(c.entries, k, e.mouse_step(point, left));
        assert(stepped.wf());
        let caught1 = caught || e.rect.spec_contains(point);
        if caught1 {
            if e.clicked(point, left) {
                lemma_select_view_wf(stepped, e.index);
            }
        } else {
            lemma_phase_wf(stepped, point, left, caught1, k + 1);
        }
    }
}

/// Every event handler preserves well-formedness.
pub proof fn lemma_step_wf(c: ComboView, ev: Event, focused: bool, caught: bool)
    requires
        c.wf(),
    ensures
        c.step(ev, focused, caught).wf(),
{
    match ev {
        Event::Mouse { point, left_button } => {
            if c.activated {
                lemma_phase_wf(c, point, left_button, caught, 0);
            }
        },
        Event::KeyPressed { scancode } => {
            if focused {
                if scancode == K_UP {
                    match c.selected {
                        None => {},
                        Some(i) => if i > 0 {
                            lemma_select_view_wf(c, (i - 1) as u32);
                        },
                    }
                } else if scancode == K_DOWN {
                    match c.selected {
                        None => {},
                        Some(i) => if i + 1 < c.entries.len() {
                            lemma_select_view_wf(c, (i + 1) as u32);
                        },
                    }
                }
            }
        },
        _ => {},
    }
}

/// Stable, order-assigned identity: in every well-formed state — in
/// particular after any sequence of appends — the entry at position `i`
/// carries index `i`.
pub proof fn lemma_entry_identity(c: ComboView)
    requires
        c.wf(),
    ensures
        forall|i: int| 0 <= i < c.entries.len() ==> (#[trigger] c.entries[i]).index == i,
{
}

/// At most one entry carries the active flag at a time: in every
/// well-formed state two active entries are the same entry.
pub proof fn lemma_active_unique(c: ComboView, a: int, b: int)
    requires
        c.wf(),
        0 <= a < c.entries.len(),
        0 <= b < c.entries.len(),
        c.entries[a].active,
        c.entries[b].active,
    ensures
        a == b,
{
}

/// Selecting the same index twice in a row yields an identical state, in
/// which exactly the entry at that index is marked active and the
/// displayed text equals that entry's text.
pub proof fn lemma_select_idempotent(c: ComboView, i: u32)
    requires
        c.wf(),
        (i as int) < c.entries.len(),
    ensures
        c.select_view(i).select_view(i) == c.select_view(i),
        forall|k: int|
            0 <= k < c.select_view(i).entries.len() ==> ((#[trigger] c.select_view(
                i,
            ).entries[k]).active <==> k == i),
        c.select_view(i).text == c.entries[i as int].text,
{
    let once = c.select_view(i);
    let twice = once.select_view(i);
    assert(twice.entries =~= once.entries);
    assert(twice =~= once);
}

/// Keyboard navigation clamps hard: Up and Down never move the selection
/// outside `[0, length - 1]`, and a boundary press is a complete no-op
/// that leaves both the state and the redraw signal untouched.
pub proof fn lemma_key_nav_clamped(c: ComboView, scancode: u8, focused: bool)
    requires
        c.wf(),
        scancode == K_UP || scancode == K_DOWN,
    ensures
        match c.key_state(scancode, focused).selected {
            Some(j) => (j as int) < c.entries.len(),
            None => c.entries.len() == 0,
        },
        c.selected == Some(0u32) && scancode == K_UP ==> c.key_state(scancode, focused) == c
            && !c.key_raises(scancode, focused),
        (match c.selected {
            Some(i) => i as int == c.entries.len() - 1,
            None => false,
        }) && scancode == K_DOWN ==> c.key_state(scancode, focused) == c && !c.key_raises(
            scancode,
            focused,
        ),
{
}

/// One selectable entry collection widget: the closed box plus its flyout.
#[derive(Debug)]
pub struct ComboBox {
    pub rect: Rect,
    pub local_position: Point,
    pub vertical_placement: VerticalPlacement,
    pub horizontal_placement: HorizontalPlacement,
    pub margin: Thickness,
    pub selector: Selector,
    pub pressed: bool,
    pub activated: bool,
    pub offset: Point,
    pub selected: Option<u32>,
    pub entries: Vec<Entry>,
    pub text: String,
    pub flyout_height: u32,
    pub children: Vec<usize>,
}

impl View for ComboBox {
    type V = ComboView;

    open spec fn view(&self) -> ComboView {
        ComboView {
            rect: self.rect,
            local_position: self.local_position,
            vertical_placement: self.vertical_placement,
            horizontal_placement: self.horizontal_placement,
            margin: self.margin,
            selector: self.selector@,
            pressed: self.pressed,
            activated: self.activated,
            offset: self.offset,
            selected: self.selected,
            entries: self.entries.deep_view(),
            text: self.text@,
            flyout_height: self.flyout_height,
            children: self.children@,
        }
    }
}

impl ComboBox {
    /// A fresh, closed combo box with no entries and no selection, the
    /// `combo-box` style class, a default rect of 332 by 28 pixels and a
    /// text offset of 4 by 4 pixels.
    pub fn new() -> (r: ComboBox)
        ensures
            r@ == (ComboView {
                rect: Rect { x: 0, y: 0, width: 332, height: 28 },
                local_position: Point { x: 0, y: 0 },
                vertical_placement: VerticalPlacement::Absolute,
                horizontal_placement: HorizontalPlacement::Absolute,
                margin: Thickness { left: 0, top: 0, right: 0, bottom: 0 },
                selector: SelectorView { class: "combo-box"@, pseudo_class: None },
                pressed: false,
                activated: false,
                offset: Point { x: 4, y: 4 },
                selected: None,
                entries: Seq::empty(),
                text: Seq::empty(),
                flyout_height: 0,
                children: Seq::empty(),
            }),
            r@.wf(),
    {
        let r = ComboBox {
            rect: Rect::new(0, 0, 332, 28),
            local_position: Point::new(0, 0),
            vertical_placement: VerticalPlacement::Absolute,
            horizontal_placement: HorizontalPlacement::Absolute,
            margin: Thickness::default(),
            selector: Selector::new("combo-box"),
            pressed: false,
            activated: false,
            offset: Point::new(4, 4),
            selected: None,
            entries: Vec::new(),
            text: String::new(),
            flyout_height: 0,
            children: Vec::new(),
        };
        proof {
            assert(r.entries.deep_view() =~= Seq::<EntryView>::empty());
        }
        r
    }

    /// The selection cursor as a plain integer: the selected index, or -1
    /// while no entry exists.
    pub fn selected(&self) -> (r: i32)
        requires
            self@.wf(),
        ensures
            match self@.selected {
                Some(i) => r == i as int,
                None => r == -1,
            },
    {
        if let Some(s) = self.selected {
            s as i32
        } else {
            -1
        }
    }

    /// Move the selection cursor to entry `i`: the previously active entry
    /// loses its flag, entry `i` gains it, and the displayed text becomes
    /// entry `i`'s text.
    pub fn change_selection(&mut self, i: u32)
        requires
            (i as int) < old(self)@.entries.len(),
        ensures
            final(self)@ == old(self)@.select_view(i),
            old(self)@.wf() ==> final(self)@.wf(),
    {
        let ghost pre = self@;
        if let Some(j) = self.selected {
            let ju: usize = j as usize;
            if ju < self.entries.len() {
                let e = &mut self.entries[ju];
                e.active = false;
                proof {
                    assert(self.entries.deep_view() =~= pre.entries.update(
                        j as int,
                        EntryView { active: false, ..pre.entries[j as int] },
                    ));
                }
            }
        }
        let ghost cleared = self@.entries;
        self.selected = Some(i);
        let iu: usize = i as usize;
        if iu < self.entries.len() {
            let e = &mut self.entries[iu];
            e.active = true;
            proof {
                assert(self.entries.deep_view() =~= cleared.update(
                    i as int,
                    EntryView { active: true, ..cleared[i as int] },
                ));
            }
            let t = self.entries[iu].text.clone();
            self.text = t;
        }
        proof {
            assert(self@ =~= pre.select_view(i));
            if pre.wf() {
                lemma_select_view_wf(pre, i);
            }
        }
    }

    /// Append an entry for `text` at the end. Its rect is assigned at once
    /// (absolute placement): one row height per preceding entry below the
    /// owner's box, inset one pixel on each side. The first entry ever
    /// appended is auto-selected; later appends never move the cursor.
    pub fn push(&mut self, text: &str)
        requires
            old(self)@.push_ok(),
        ensures
            final(self)@ == old(self)@.push_view(text@),
            old(self)@.wf() ==> final(self)@.wf(),
            final(self)@.entries.len() == old(self)@.entries.len() + 1,
            final(self)@.entries[old(self)@.entries.len() as int].text == text@,
            final(self)@.entries[old(self)@.entries.len() as int].index == old(self)@.entries.len(),
            old(self)@.entries.len() == 0 ==> final(self)@.selected == Some(0u32),
            old(self)@.entries.len() > 0 ==> final(self)@.selected == old(self)@.selected,
    {
        let ghost pre = self@;
        let rect = self.rect;
        let count: usize = self.entries.len();
        let mut entry = Entry::new(text, count as u32);
        entry.rect = Rect::new(
            rect.x + 1,
            rect.y + (rect.height as i32) * (count as i32 + 1),
            rect.width - 2,
            rect.height,
        );
        entry.text_offset(self.offset.x, self.offset.y);
        self.flyout_height = self.flyout_height + rect.height;
        self.entries.push(entry);
        proof {
            assert(self.entries.deep_view() =~= pre.entries.push(pre.pushed_entry(text@)));
        }
        if self.entries.len() == 1 {
            self.change_selection(0);
        }
        proof {
            let grown = ComboView {
                entries: pre.entries.push(pre.pushed_entry(text@)),
                flyout_height: (pre.flyout_height + pre.rect.height) as u32,
                ..pre
            };
            assert(self@ =~= pre.push_view(text@));
            if pre.wf() {
                lemma_sum_heights_push(pre.entries, pre.pushed_entry(text@));
                if pre.entries.len() == 0 {
                    lemma_select_view_wf(grown, 0);
                }
            }
        }
    }

    /// Remove the most recently appended entry and return its text; on an
    /// empty collection return an empty string and change nothing. If
    /// entries remain the selection resets to index 0, otherwise it clears.
    pub fn pop(&mut self) -> (r: String)
        requires
            old(self)@.wf(),
        ensures
            final(self)@ == old(self)@.pop_view().0,
            r@ == old(self)@.pop_view().1,
            final(self)@.wf(),
            old(self)@.entries.len() == 0 ==> r@ == Seq::<char>::empty() && final(self)@
                == old(self)@,
            old(self)@.entries.len() > 0 ==> r@ == old(self)@.entries.last().text && final(self)@.entries.len()
                == old(self)@.entries.len() - 1,
            forall|k: int|
                0 <= k < final(self)@.entries.len() ==> ((#[trigger] final(self)@.entries[k]).text
                    == old(self)@.entries[k].text && final(self)@.entries[k].index == old(
                    self)@.entries[k].index),
    {
        let ghost pre = self@;
        if let Some(entry) = self.entries.pop() {
            proof {
                assert(self.entries.deep_view() =~= pre.entries.drop_last());
                lemma_sum_heights_nonneg(pre.entries.drop_last());
            }
            self.flyout_height = self.flyout_height - entry.rect.height;
            if self.entries.len() == 0 {
                self.selected = None;
                self.text = String::new();
                proof {
                    assert(self@ =~= pre.pop_view().0);
                }
            } else {
                let ghost shrunk = self@;
                self.change_selection(0);
                proof {
                    assert(self@ =~= pre.pop_view().0);
                    lemma_select_view_wf(shrunk, 0);
                }
            }
            entry.text
        } else {
            proof {
                assert(self@ =~= pre.pop_view().0);
            }
            String::new()
        }
    }

    /// Set the offset at which the displayed text (and each later-appended
    /// entry's text) is drawn.
    pub fn text_offset(&mut self, x: i32, y: i32)
        ensures
            final(self)@ == (ComboView { offset: Point { x, y }, ..old(self)@ }),
    {
        self.offset = Point::new(x, y);
    }
}

impl Style for ComboBox {
    open spec fn selector_spec(&self) -> SelectorView {
        self.selector@
    }

    fn selector(&self) -> &Selector {
        &self.selector
    }
}

impl Widget for ComboBox {
    open spec fn event_ok(&self) -> bool {
        self@.wf()
    }

    open spec fn event_post(pre: ComboBox, post: ComboBox, ev: Event, focused: bool, caught: bool) -> bool {
        post@ == pre@.step(ev, focused, caught)
    }

    open spec fn event_raises(&self, ev: Event, focused: bool, caught: bool) -> bool {
        self@.step_raises(ev, focused, caught)
    }

    open spec fn event_catches(&self, ev: Event, focused: bool, caught: bool) -> bool {
        self@.step_catches(ev, focused, caught)
    }

    open spec fn event_out(&self, ev: Event, focused: bool, caught: bool) -> bool {
        self@.step_out(ev, focused, caught)
    }

    open spec fn draw_ok(&self, focused: bool) -> bool {
        self@.draw_ok_v()
    }

    open spec fn draw_model(&self, focused: bool) -> Seq<DrawCmdView> {
        self@.draw_model_v(focused)
    }

    open spec fn rect_spec(&self) -> Rect {
        self.rect
    }

    open spec fn local_position_spec(&self) -> Point {
        self.local_position
    }

    open spec fn vertical_placement_spec(&self) -> VerticalPlacement {
        self.vertical_placement
    }

    open spec fn horizontal_placement_spec(&self) -> HorizontalPlacement {
        self.horizontal_placement
    }

    open spec fn margin_spec(&self) -> Thickness {
        self.margin
    }

    open spec fn name_spec(&self) -> Seq<char> {
        "ComboBox"@
    }

    open spec fn children_spec(&self) -> Seq<usize> {
        self.children@
    }

    fn rect(&self) -> Rect {
        self.rect
    }

    fn local_position(&self) -> Point {
        self.local_position
    }

    fn vertical_placement(&self) -> VerticalPlacement {
        self.vertical_placement
    }

    fn horizontal_placement(&self) -> HorizontalPlacement {
        self.horizontal_placement
    }

    fn margin(&self) -> Thickness {
        self.margin
    }

    fn name(&self) -> &'static str {
        "ComboBox"
    }

    fn children(&self) -> &Vec<usize> {
        &self.children
    }

    fn draw(&self, focused: bool) -> (r: Vec<DrawCmd>) {
        let mut cmds: Vec<DrawCmd> = Vec::new();
        if self.activated {
            let fr = Rect::new(
                self.rect.x,
                self.rect.y + self.rect.height as i32 - 2,
                self.rect.width,
                self.flyout_height + 2,
            );
            cmds.push(DrawCmd::PaintBox { rect: fr, selector: Selector::new("combo-box-flyout") });
            proof {
                assert(cmds.deep_view() =~= seq![
                    DrawCmdView::PaintBox {
                        rect: self@.flyout_rect(),
                        selector: SelectorView { class: "combo-box-flyout"@, pseudo_class: None },
                    },
                ]);
            }
            let ghost base = cmds.deep_view();
            let n: usize = self.entries.len();
            let mut k: usize = 0;
            while k < n
                invariant
                    k <= n,
                    n == self@.entries.len(),
                    self@.draw_ok_v(),
                    self@.activated,
                    fr == self@.flyout_rect(),
                    cmds.deep_view() == base + self@.flyout_cmds(focused, k as int),
                decreases n - k,
            {
                let e = &self.entries[k];
                let visible = e.rect.y as i64 >= self.rect.y as i64 && e.rect.y as i64
                    + self.rect.height as i64 <= fr.y as i64 + fr.height as i64;
                let ghost pre_cmds = cmds.deep_view();
                if visible {
                    proof {
                        assert(e@ == self@.entries[k as int]);
                        assert(self@.entries[k as int].draw_ok_v());
                    }
                    let mut sub = e.draw(focused);
                    cmds.append(&mut sub);
                    proof {
                        assert(cmds.deep_view() =~= pre_cmds + self@.entries[k as int].draw_model_v());
                    }
                } else {
                    proof {
                        assert(pre_cmds + Seq::<DrawCmdView>::empty() =~= pre_cmds);
                    }
                }
                k = k + 1;
            }
        }
        let ghost head = cmds.deep_view();
        let mut sel = self.selector.duplicate();
        if self.activated {
            sel = sel.with_pseudo_class("active");
        }
        if focused {
            sel = sel.with_pseudo_class("focus");
        }
        cmds.push(DrawCmd::PaintBox { rect: self.rect, selector: sel });
        let mut tsel = Selector::new("combo-box-toggle");
        if self.activated {
            tsel = tsel.with_pseudo_class("active");
        }
        let tsize: u32 = self.rect.height - 2 * (self.offset.y as u32);
        let tr = Rect::new(
            self.rect.x + self.rect.width as i32 - tsize as i32 - self.offset.y,
            self.rect.y + self.offset.y,
            tsize,
            tsize,
        );
        cmds.push(DrawCmd::PaintBox { rect: tr, selector: tsel });
        cmds.push(DrawCmd::ToggleIcon { open: self.activated, x: tr.x, y: tr.y });
        proof {
            assert(cmds.deep_view() =~= head + seq![
                DrawCmdView::PaintBox {
                    rect: self@.rect,
                    selector: self@.own_paint_selector(focused),
                },
                DrawCmdView::PaintBox {
                    rect: self@.toggle_rect(),
                    selector: self@.toggle_selector(),
                },
                DrawCmdView::ToggleIcon {
                    open: self@.activated,
                    x: self@.toggle_rect().x,
                    y: self@.toggle_rect().y,
                },
            ]);
        }
        let label_sel = Selector::new("label");
        let start: i64 = self.rect.x as i64 + self.offset.x as i64;
        let limit: i64 = self.rect.x as i64 + self.rect.width as i64 - tr.width as i64 - 2 * (
        self.offset.x as i64);
        let y: i32 = self.rect.y + (self.rect.height as i32) / 2 - 8;
        emit_glyphs(&mut cmds, self.text.as_str(), start, y, limit, &label_sel);
        proof {
            assert(cmds.deep_view() =~= self@.draw_model_v(focused));
        }
        cmds
    }

    #[verifier::rlimit(100)]
    fn event(&mut self, ev: Event, focused: bool, redraw: &mut bool, caught: &mut bool) -> (r:
        bool) {
        let ghost pre = self@;
        let ghost caught0 = *caught;
        let ghost redraw0 = *redraw;
        let ghost ph = match ev {
            Event::Mouse { point, left_button } => pre.mouse_phase(point, left_button, caught0),
            _ => PhaseOut { state: pre, raised: false, caught: caught0, took_click: false },
        };
        let mut ignore_event = false;
        if self.activated {
            if let Event::Mouse { point, left_button } = ev {
                let ghost full = pre.entries_phase_from(point, left_button, caught0, 0);
                let n: usize = self.entries.len();
                let ghost mut acc_raised: bool = false;
                let mut k: usize = 0;
                while k < n
                    invariant_except_break
                        full == (ComboView::entries_phase_combine(
                            self@,
                            point,
                            left_button,
                            *caught,
                            k as int,
                            acc_raised,
                            ignore_event,
                        )),
                        *redraw == (redraw0 || acc_raised),
                    invariant
                        k <= n,
                        n == self@.entries.len(),
                        ev == (Event::Mouse { point, left_button }),
                        forall|j: int|
                            0 <= j < self@.entries.len() ==> (#[trigger] self@.entries[j]).index
                                == j,
                    ensures
                        full == (PhaseOut {
                            state: self@,
                            raised: acc_raised,
                            caught: *caught,
                            took_click: ignore_event,
                        }),
                        *redraw == (redraw0 || acc_raised),
                        n == self@.entries.len(),
                        forall|j: int|
                            0 <= j < self@.entries.len() ==> (#[trigger] self@.entries[j]).index
                                == j,
                    decreases n - k,
                {
                    let ghost iter_pre = self@;
                    let ghost caught_pre = *caught;
                    let ghost e = self@.entries[k as int];
                    let entry_ref = &mut self.entries[k];
                    let clicked = entry_ref.event(ev, focused, redraw, caught);
                    proof {
                        assert(self.entries.deep_view() =~= iter_pre.entries.update(
                            k as int,
                            e.mouse_step(point, left_button),
                        ));
                        acc_raised = acc_raised || e.step_raises(ev);
                    }
                    let ghost stepped = self@;
                    if clicked {
                        ignore_event = true;
                        let idx: u32 = self.entries[k].index;
                        self.change_selection(idx);
                        proof {
                            acc_raised = acc_raised || stepped.activated;
                        }
                        if self.activated {
                            self.activated = false;
                            *redraw = true;
                        }
                        proof {
                            assert(self@ =~= (ComboView {
                                activated: false,
                                ..stepped.select_view(e.index)
                            }));
                        }
                    }
                    if *caught {
                        proof {
                            assert(full == (PhaseOut {
                                state: self@,
                                raised: acc_raised,
                                caught: *caught,
                                took_click: ignore_event,
                            }));
                        }
                        break ;
                    }
                    proof {
                        assert(full == (ComboView::entries_phase_combine(
                            self@,
                            point,
                            left_button,
                            *caught,
                            k as int + 1,
                            acc_raised,
                            ignore_event,
                        )));
                    }
                    k = k + 1;
                }
                proof {
                    assert(ph == full);
                }
            }
        }
        let mut focused_out = focused;
        match ev {
            Event::Mouse { point, left_button } => {
                proof {
                    assert(self@ == ph.state);
                }
                if self.rect.contains(point) {
                    if left_button {
                        self.pressed = !self.pressed;
                        if !self.activated {
                            self.activated = true;
                            focused_out = true;
                            *redraw = true;
                        }
                    } else {
                        if !self.pressed {
                            if self.activated {
                                self.activated = false;
                                focused_out = true;
                                *redraw = true;
                            }
                        }
                    }
                    *caught = true;
                } else {
                    if !ignore_event {
                        if left_button {
                            self.pressed = false;
                        } else {
                            if !self.pressed {
                                if self.activated {
                                    self.activated = false;
                                    *redraw = true;
                                }
                            }
                        }
                    }
                }
                proof {
                    assert(self@ =~= pre.step(ev, focused, caught0));
                    lemma_phase_caught_mono(pre, point, left_button, caught0, 0);
                    lemma_phase_rect(pre, point, left_button, caught0, 0);
                    lemma_step_wf(pre, ev, focused, caught0);
                }
            },
            Event::KeyPressed { scancode } => {
                if focused {
                    if scancode == K_UP {
                        match self.selected {
                            None => {
                                if self.entries.len() > 0 {
                                    self.change_selection(0);
                                    *redraw = true;
                                }
                            },
                            Some(i) => {
                                if i > 0 {
                                    self.change_selection(i - 1);
                                    *redraw = true;
                                }
                            },
                        }
                    } else if scancode == K_DOWN {
                        match self.selected {
                            None => {
                                if self.entries.len() > 0 {
                                    self.change_selection(0);
                                    *redraw = true;
                                }
                            },
                            Some(i) => {
                                if (i as usize) + 1 < self.entries.len() {
                                    self.change_selection(i + 1);
                                    *redraw = true;
                                }
                            },
                        }
                    } else if scancode == K_ENTER {
                        if self.activated {
                            self.activated = false;
                            self.pressed = false;
                            *redraw = true;
                        }
                    }
                }
                proof {
                    assert(self@ =~= pre.step(ev, focused, caught0));
                    lemma_step_wf(pre, ev, focused, caught0);
                }
            },
            _ => {
                proof {
                    assert(self@ =~= pre.step(ev, focused, caught0));
                }
            },
        }
        focused_out
    }
}

} // verus!
