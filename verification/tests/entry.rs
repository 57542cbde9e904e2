use widget_core::draw::DrawCmd;
use widget_core::entry::Entry;
use widget_core::event::Event;
use widget_core::geometry::{Point, Rect};
use widget_core::widget::Widget;

fn mouse(x: i32, y: i32, left: bool) -> Event {
    Event::Mouse { point: Point { x, y }, left_button: left }
}

fn send(entry: &mut Entry, ev: Event) -> (bool, bool, bool) {
    let mut redraw = false;
    let mut caught = false;
    let click = entry.event(ev, false, &mut redraw, &mut caught);
    (click, redraw, caught)
}

fn sample_entry() -> Entry {
    let mut e = Entry::new("hello", 0);
    e.rect = Rect { x: 10, y: 20, width: 100, height: 28 };
    e
}

#[test]
fn new_entry_starts_idle() {
    let e = Entry::new("text", 3);
    assert_eq!(e.index, 3);
    assert_eq!(e.text, "text");
    assert!(!e.hover);
    assert!(!e.pressed);
    assert!(!e.active);
    assert_eq!(e.selector.class, "combo-box-entry");
    assert_eq!(e.selector.pseudo_class, None);
}

#[test]
fn pointer_inside_sets_hover_once() {
    let mut e = sample_entry();
    let (click, redraw, caught) = send(&mut e, mouse(15, 25, false));
    assert!(e.hover);
    assert!(!click);
    assert!(redraw);
    assert!(caught);
    // no transition, no redraw
    let (_, redraw, caught) = send(&mut e, mouse(16, 26, false));
    assert!(!redraw);
    assert!(caught);
}

#[test]
fn press_then_release_inside_is_a_click() {
    let mut e = sample_entry();
    let (click, redraw, _) = send(&mut e, mouse(15, 25, true));
    assert!(!click);
    assert!(redraw);
    assert!(e.pressed);
    let (click, redraw, caught) = send(&mut e, mouse(15, 25, false));
    assert!(click);
    assert!(redraw);
    assert!(caught);
    assert!(!e.pressed);
    assert!(!e.hover);
}

#[test]
fn release_outside_is_no_click() {
    let mut e = sample_entry();
    send(&mut e, mouse(15, 25, true));
    assert!(e.pressed);
    // drag out while held: pressed stays, hover clears
    let (click, _, caught) = send(&mut e, mouse(500, 500, true));
    assert!(!click);
    assert!(!caught);
    assert!(e.pressed);
    assert!(!e.hover);
    // release outside: flags clear, no click
    let (click, redraw, caught) = send(&mut e, mouse(500, 500, false));
    assert!(!click);
    assert!(redraw);
    assert!(!caught);
    assert!(!e.pressed);
}

#[test]
fn pointer_outside_without_flags_raises_nothing() {
    let mut e = sample_entry();
    let (click, redraw, caught) = send(&mut e, mouse(500, 500, false));
    assert!(!click);
    assert!(!redraw);
    assert!(!caught);
}

#[test]
fn non_pointer_events_leave_entry_unchanged() {
    let mut e = sample_entry();
    let (click, redraw, caught) = send(&mut e, Event::KeyPressed { scancode: 0x1C });
    assert!(!click);
    assert!(!redraw);
    assert!(!caught);
    let (click, redraw, _) = send(&mut e, Event::Scroll { x: 0, y: 3 });
    assert!(!click);
    assert!(!redraw);
}

#[test]
fn text_setter_replaces_text() {
    let mut e = sample_entry();
    e.text("other");
    assert_eq!(e.text, "other");
    e.text_offset(4, 4);
    assert_eq!(e.text_offset, Point { x: 4, y: 4 });
}

#[test]
fn idle_entry_draws_glyphs_only() {
    let mut e = Entry::new("AB", 0);
    e.rect = Rect { x: 0, y: 0, width: 100, height: 28 };
    e.text_offset(4, 4);
    let cmds = e.draw(false);
    assert_eq!(cmds.len(), 2);
    match &cmds[0] {
        DrawCmd::Glyph { x, y, ch, selector } => {
            assert_eq!(*x, 4);
            assert_eq!(*y, 28 / 2 - 8);
            assert_eq!(*ch, 'A');
            assert_eq!(selector.pseudo_class, None);
        }
        other => panic!("expected a glyph, got {:?}", other),
    }
    match &cmds[1] {
        DrawCmd::Glyph { x, ch, .. } => {
            assert_eq!(*x, 12);
            assert_eq!(*ch, 'B');
        }
        other => panic!("expected a glyph, got {:?}", other),
    }
}

#[test]
fn hovered_entry_draws_background_first() {
    let mut e = Entry::new("A", 0);
    e.rect = Rect { x: 0, y: 0, width: 100, height: 28 };
    e.hover = true;
    let cmds = e.draw(false);
    match &cmds[0] {
        DrawCmd::PaintBox { rect, selector } => {
            assert_eq!(*rect, e.rect);
            assert_eq!(selector.class, "combo-box-entry");
            assert_eq!(selector.pseudo_class.as_deref(), Some("hover"));
        }
        other => panic!("expected the background box, got {:?}", other),
    }
    // the active flag wins over hover
    e.active = true;
    let cmds = e.draw(false);
    match &cmds[0] {
        DrawCmd::PaintBox { selector, .. } => {
            assert_eq!(selector.pseudo_class.as_deref(), Some("active"));
        }
        other => panic!("expected the background box, got {:?}", other),
    }
}

#[test]
fn glyphs_truncate_at_the_rect_edge() {
    let mut e = Entry::new("abcdefgh", 0);
    // room for three 8-pixel glyphs: limit = 0 + 30 - 0 = 30, 3 * 8 + 8 > 30
    e.rect = Rect { x: 0, y: 0, width: 30, height: 28 };
    let cmds = e.draw(false);
    assert_eq!(cmds.len(), 3);
    for (i, cmd) in cmds.iter().enumerate() {
        match cmd {
            DrawCmd::Glyph { x, ch, .. } => {
                assert_eq!(*x, 8 * i as i32);
                assert_eq!(*ch, (b'a' + i as u8) as char);
            }
            other => panic!("expected a glyph, got {:?}", other),
        }
    }
}
