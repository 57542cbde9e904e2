//! Drawing commands: the pure output of a widget's draw operation.
//!
//! A widget never writes pixels. Its draw operation projects current state
//! onto an ordered sequence of commands; a rendering backend outside this
//! crate resolves each selector against a theme and executes the commands
//! against a drawing surface. This keeps drawing a read-only, fully
//! specified function of widget state and makes backends interchangeable.

use vstd::prelude::*;
use vstd::string::*;
use crate::geometry::Rect;
use crate::selector::{Selector, SelectorView};

verus! {

/// The mathematical value of a [`DrawCmd`], with selectors by their views.
pub enum DrawCmdView {
    PaintBox { rect: Rect, selector: SelectorView },
    Glyph { x: i32, y: i32, ch: char, selector: SelectorView },
    ToggleIcon { open: bool, x: i32, y: i32 },
}

/// One primitive drawing operation.
#[derive(Debug, PartialEq, Eq)]
pub enum DrawCmd {
    /// Paint a styled box covering `rect`, with paint rules resolved
    /// from `selector`.
    PaintBox { rect: Rect, selector: Selector },
    /// Draw the glyph for `ch` with its origin at (`x`, `y`), in the
    /// foreground color resolved from `selector`.
    Glyph { x: i32, y: i32, ch: char, selector: Selector },
    /// Draw one of the two fixed toggle-affordance bitmaps at (`x`, `y`):
    /// the one for an open flyout when `open`, the closed one otherwise.
    /// A backend without the bitmap omits the icon.
    ToggleIcon { open: bool, x: i32, y: i32 },
}

impl View for DrawCmd {
    type V = DrawCmdView;

    open spec fn view(&self) -> DrawCmdView {
        match self {
            DrawCmd::PaintBox { rect, selector } => DrawCmdView::PaintBox {
                rect: *rect,
                selector: selector@,
            },
            DrawCmd::Glyph { x, y, ch, selector } => DrawCmdView::Glyph {
                x: *x,
                y: *y,
                ch: *ch,
                selector: selector@,
            },
            DrawCmd::ToggleIcon { open, x, y } => DrawCmdView::ToggleIcon {
                open: *open,
                x: *x,
                y: *y,
            },
        }
    }
}

impl DeepView for DrawCmd {
    type V = DrawCmdView;

    open spec fn deep_view(&self) -> DrawCmdView {
        self@
    }
}

/// Text is rendered fixed-width and unshaped: each glyph advances the pen
/// 8 pixels. The glyph for character `i` is drawn only if it would end at
/// or before `limit`.
pub open spec fn glyph_fits(start: int, limit: int, i: int) -> bool {
    start + 8 * i + 8 <= limit
}

/// The glyph commands for the first `n` characters of `text`, drawn from
/// x coordinate `start` at baseline `y` in the color of `sel`, truncating
/// (never wrapping) each glyph that would cross `limit`.
pub open spec fn glyphs_from(
    text: Seq<char>,
    start: int,
    y: int,
    limit: int,
    sel: SelectorView,
    n: int,
) -> Seq<DrawCmdView>
    decreases n,
{
    if n <= 0 {
        Seq::empty()
    } else if glyph_fits(start, limit, n - 1) {
        glyphs_from(text, start, y, limit, sel, n - 1).push(
            DrawCmdView::Glyph {
                x: (start + 8 * (n - 1)) as i32,
                y: y as i32,
                ch: text[n - 1],
                selector: sel,
            },
        )
    } else {
        glyphs_from(text, start, y, limit, sel, n - 1)
    }
}

/// Once a glyph does not fit, no later glyph fits either: the emitted
/// glyphs form a prefix of the text.
pub proof fn lemma_glyphs_from_stop(
    text: Seq<char>,
    start: int,
    y: int,
    limit: int,
    sel: SelectorView,
    k: int,
    n: int,
)
    requires
        0 <= k <= n,
        !glyph_fits(start, limit, k),
    ensures
        glyphs_from(text, start, y, limit, sel, n) == glyphs_from(text, start, y, limit, sel, k),
    decreases n,
{
    if n > k {
        lemma_glyphs_from_stop(text, start, y, limit, sel, k, n - 1);
    }
}

/// Append to `cmds` the glyph commands for `text`, fixed-width from
/// `start` at baseline `y`, truncated at `limit`, colored by `sel`.
pub fn emit_glyphs(cmds: &mut Vec<DrawCmd>, text: &str, start: i64, y: i32, limit: i64, sel:
    &Selector)
    requires
        i32::MIN <= start,
        start + 8 <= i64::MAX,
        limit <= i32::MAX,
    ensures
        final(cmds).deep_view() == old(cmds).deep_view() + glyphs_from(
            text@,
            start as int,
            y as int,
            limit as int,
            sel@,
            text@.len() as int,
        ),
{
    let ghost base = cmds.deep_view();
    let n: usize = text.unicode_len();
    let mut i: usize = 0;
    while i < n
        invariant
            i <= n,
            n == text@.len(),
            i32::MIN <= start,
            start + 8 <= i64::MAX,
            limit <= i32::MAX,
            forall|j: int| 0 <= j < i ==> glyph_fits(start as int, limit as int, j),
            cmds.deep_view() == base + glyphs_from(
                text@,
                start as int,
                y as int,
                limit as int,
                sel@,
                i as int,
            ),
        ensures
            cmds.deep_view() == base + glyphs_from(
                text@,
                start as int,
                y as int,
                limit as int,
                sel@,
                n as int,
            ),
        decreases n - i,
    {
        proof {
            assert(i == 0 || glyph_fits(start as int, limit as int, i as int - 1));
        }
        let x: i64 = start + 8 * (i as i64);
        if x + 8 <= limit {
            let ch = text.get_char(i);
            let ghost pre = cmds.deep_view();
            cmds.push(DrawCmd::Glyph { x: x as i32, y, ch, selector: sel.duplicate() });
            proof {
                assert(cmds.deep_view() =~= pre.push(
                    DrawCmdView::Glyph { x: x as i32, y, ch, selector: sel@ },
                ));
            }
            i = i + 1;
        } else {
            proof {
                lemma_glyphs_from_stop(
                    text@,
                    start as int,
                    y as int,
                    limit as int,
                    sel@,
                    i as int,
                    n as int,
                );
            }
            break ;
        }
    }
}

} // verus!
