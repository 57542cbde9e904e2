use widget_core::combo_box::ComboBox;
use widget_core::event::{Event, K_DOWN, K_ENTER, K_UP};
use widget_core::geometry::Point;
use widget_core::widget::Widget;

fn mouse(x: i32, y: i32, left: bool) -> Event {
    Event::Mouse { point: Point { x, y }, left_button: left }
}

fn key(scancode: u8) -> Event {
    Event::KeyPressed { scancode }
}

fn send(combo: &mut ComboBox, ev: Event, focused: bool) -> (bool, bool, bool) {
    let mut redraw = false;
    let mut caught = false;
    let focus = combo.event(ev, focused, &mut redraw, &mut caught);
    (focus, redraw, caught)
}

#[test]
fn indices_follow_append_order() {
    let mut combo = ComboBox::new();
    combo.push("A");
    combo.push("B");
    combo.push("C");
    assert_eq!(combo.entries.len(), 3);
    for i in 0..3 {
        assert_eq!(combo.entries[i].index, i as u32);
    }
}

#[test]
fn first_append_selects_zero() {
    let mut combo = ComboBox::new();
    assert_eq!(combo.selected(), -1);
    combo.push("A");
    assert_eq!(combo.selected(), 0);
    assert_eq!(combo.text, "A");
    assert!(combo.entries[0].active);
    combo.push("B");
    combo.push("C");
    assert_eq!(combo.selected(), 0);
    assert_eq!(combo.text, "A");
    assert!(combo.entries[0].active);
    assert!(!combo.entries[1].active);
    assert!(!combo.entries[2].active);
}

#[test]
fn pop_returns_last_text() {
    let mut combo = ComboBox::new();
    combo.push("A");
    combo.push("B");
    combo.push("C");
    assert_eq!(combo.pop(), "C");
    assert_eq!(combo.entries.len(), 2);
    assert_eq!(combo.pop(), "B");
    assert_eq!(combo.entries.len(), 1);
    assert_eq!(combo.pop(), "A");
    assert_eq!(combo.entries.len(), 0);
    assert_eq!(combo.selected(), -1);
    assert_eq!(combo.text, "");
}

#[test]
fn pop_empty_returns_empty_without_mutation() {
    let mut combo = ComboBox::new();
    assert_eq!(combo.pop(), "");
    assert_eq!(combo.selected(), -1);
    assert_eq!(combo.entries.len(), 0);
    assert_eq!(combo.text, "");
    combo.push("A");
    combo.push("B");
    assert_eq!(combo.pop(), "B");
    assert_eq!(combo.pop(), "A");
    assert_eq!(combo.pop(), "");
    assert_eq!(combo.selected(), -1);
}

#[test]
fn pop_maintains_flyout_height() {
    let mut combo = ComboBox::new();
    combo.push("A");
    combo.push("B");
    assert_eq!(combo.flyout_height, 2 * combo.rect.height);
    assert_eq!(combo.pop(), "B");
    assert_eq!(combo.flyout_height, combo.rect.height);
    assert_eq!(combo.pop(), "A");
    assert_eq!(combo.flyout_height, 0);
}

#[test]
fn select_twice_is_idempotent() {
    let mut combo = ComboBox::new();
    combo.push("A");
    combo.push("B");
    combo.push("C");
    combo.change_selection(1);
    let first_selected = combo.selected();
    let first_text = combo.text.clone();
    let first_active: Vec<bool> = combo.entries.iter().map(|e| e.active).collect();
    combo.change_selection(1);
    assert_eq!(combo.selected(), first_selected);
    assert_eq!(combo.text, first_text);
    let second_active: Vec<bool> = combo.entries.iter().map(|e| e.active).collect();
    assert_eq!(second_active, first_active);
    assert_eq!(second_active, vec![false, true, false]);
    assert_eq!(combo.selected(), 1);
    assert_eq!(combo.text, "B");
}

#[test]
fn keyboard_clamps_at_bounds() {
    let mut combo = ComboBox::new();
    combo.push("A");
    combo.push("B");
    combo.push("C");
    // at the lower bound a further Up is a no-op and raises no redraw
    let (_, redraw, _) = send(&mut combo, key(K_UP), true);
    assert_eq!(combo.selected(), 0);
    assert!(!redraw);
    let (_, redraw, _) = send(&mut combo, key(K_DOWN), true);
    assert_eq!(combo.selected(), 1);
    assert!(redraw);
    let (_, redraw, _) = send(&mut combo, key(K_DOWN), true);
    assert_eq!(combo.selected(), 2);
    assert!(redraw);
    // at the upper bound a further Down is a no-op and raises no redraw
    let (_, redraw, _) = send(&mut combo, key(K_DOWN), true);
    assert_eq!(combo.selected(), 2);
    assert!(!redraw);
    let (_, redraw, _) = send(&mut combo, key(K_UP), true);
    assert_eq!(combo.selected(), 1);
    assert!(redraw);
}

#[test]
fn keyboard_ignored_without_focus() {
    let mut combo = ComboBox::new();
    combo.push("A");
    combo.push("B");
    let (_, redraw, _) = send(&mut combo, key(K_DOWN), false);
    assert_eq!(combo.selected(), 0);
    assert!(!redraw);
}

#[test]
fn keyboard_on_empty_is_noop() {
    let mut combo = ComboBox::new();
    let (_, redraw, _) = send(&mut combo, key(K_DOWN), true);
    assert_eq!(combo.selected(), -1);
    assert!(!redraw);
    let (_, redraw, _) = send(&mut combo, key(K_UP), true);
    assert_eq!(combo.selected(), -1);
    assert!(!redraw);
}

#[test]
fn scenario_open_click_navigate() {
    let mut combo = ComboBox::new();
    combo.push("A");
    combo.push("B");
    combo.push("C");
    assert_eq!(combo.selected(), 0);
    assert_eq!(combo.text, "A");
    // press (down + up) inside the composite's rect opens the flyout
    let (focus, redraw, caught) = send(&mut combo, mouse(10, 10, true), false);
    assert!(combo.activated);
    assert!(focus);
    assert!(redraw);
    assert!(caught);
    let (_, _, _) = send(&mut combo, mouse(10, 10, false), true);
    assert!(combo.activated);
    // click the entry at index 1 (its row starts two row heights down)
    let entry_y = combo.rect.height as i32 * 2 + 4;
    send(&mut combo, mouse(10, entry_y, true), true);
    let (_, redraw, caught) = send(&mut combo, mouse(10, entry_y, false), true);
    assert!(redraw);
    assert!(caught);
    assert_eq!(combo.selected(), 1);
    assert_eq!(combo.text, "B");
    assert!(!combo.activated);
    // with focus, Down moves to the end and clamps there
    send(&mut combo, key(K_DOWN), true);
    assert_eq!(combo.selected(), 2);
    send(&mut combo, key(K_DOWN), true);
    assert_eq!(combo.selected(), 2);
}

#[test]
fn scenario_remove_last_keeps_selection_valid() {
    let mut combo = ComboBox::new();
    combo.push("A");
    combo.push("B");
    combo.push("C");
    combo.change_selection(2);
    assert_eq!(combo.pop(), "C");
    assert_eq!(combo.entries.len(), 2);
    let selected = combo.selected();
    assert!(selected >= 0 && (selected as usize) < combo.entries.len());
    assert_eq!(selected, 0);
    assert_eq!(combo.text, "A");
}

#[test]
fn enter_closes_without_changing_selection() {
    let mut combo = ComboBox::new();
    combo.push("A");
    combo.push("B");
    combo.change_selection(1);
    send(&mut combo, mouse(5, 5, true), false);
    send(&mut combo, mouse(5, 5, false), true);
    assert!(combo.activated);
    assert_eq!(combo.selected(), 1);
    let (_, redraw, _) = send(&mut combo, key(K_ENTER), true);
    assert!(!combo.activated);
    assert!(!combo.pressed);
    assert!(redraw);
    assert_eq!(combo.selected(), 1);
    assert_eq!(combo.text, "B");
    // Enter on a closed box is a no-op
    let (_, redraw, _) = send(&mut combo, key(K_ENTER), true);
    assert!(!redraw);
}

#[test]
fn release_outside_closes_open_flyout() {
    let mut combo = ComboBox::new();
    combo.push("A");
    send(&mut combo, mouse(5, 5, true), false);
    send(&mut combo, mouse(5, 5, false), true);
    assert!(combo.activated);
    // press far outside every rect clears the pressed flag
    send(&mut combo, mouse(1000, 1000, true), false);
    assert!(!combo.pressed);
    assert!(combo.activated);
    // release outside while not pressed closes the flyout
    let (_, redraw, _) = send(&mut combo, mouse(1000, 1000, false), false);
    assert!(!combo.activated);
    assert!(redraw);
}

#[test]
fn entry_hover_tracks_pointer_in_open_flyout() {
    let mut combo = ComboBox::new();
    combo.push("A");
    combo.push("B");
    send(&mut combo, mouse(5, 5, true), false);
    send(&mut combo, mouse(5, 5, false), true);
    assert!(combo.activated);
    let entry0_y = combo.rect.height as i32 + 4;
    let (_, redraw, caught) = send(&mut combo, mouse(10, entry0_y, false), true);
    assert!(combo.entries[0].hover);
    assert!(!combo.entries[1].hover);
    assert!(redraw);
    assert!(caught);
    // the same position again changes nothing, so no redraw is raised
    let (_, redraw, _) = send(&mut combo, mouse(10, entry0_y, false), true);
    assert!(!redraw);
}

#[test]
fn second_click_inside_closes_the_flyout() {
    let mut combo = ComboBox::new();
    combo.push("A");
    send(&mut combo, mouse(5, 5, true), false);
    send(&mut combo, mouse(5, 5, false), true);
    assert!(combo.activated);
    send(&mut combo, mouse(5, 5, true), true);
    assert!(combo.activated);
    let (focus, redraw, _) = send(&mut combo, mouse(5, 5, false), true);
    assert!(!combo.activated);
    assert!(focus);
    assert!(redraw);
}

#[test]
fn scroll_events_are_ignored() {
    let mut combo = ComboBox::new();
    combo.push("A");
    let (focus, redraw, caught) = send(&mut combo, Event::Scroll { x: 0, y: -3 }, true);
    assert!(focus);
    assert!(!redraw);
    assert!(!caught);
    assert_eq!(combo.selected(), 0);
}

#[test]
fn text_offset_sets_offset() {
    let mut combo = ComboBox::new();
    combo.text_offset(7, 9);
    assert_eq!(combo.offset, Point { x: 7, y: 9 });
    combo.push("A");
    assert_eq!(combo.entries[0].text_offset, Point { x: 7, y: 9 });
}
