use xscreen::events::EventKind;
use xscreen::geometry::Rect;
use xscreen::region::{region_step, select_region, RegionState};
use xscreen::overlay::DrawCommand;

fn press(button: u32, x: i32, y: i32) -> EventKind {
    EventKind::ButtonPress { button, x, y }
}

fn release(button: u32, x: i32, y: i32) -> EventKind {
    EventKind::ButtonRelease { button, x, y }
}

fn motion(x: i32, y: i32) -> EventKind {
    EventKind::Motion { x, y }
}

#[test]
fn drag_yields_spanned_rectangle() {
    let events = vec![press(1, 10, 20), motion(15, 25), motion(40, 5), release(1, 30, 40)];
    let rect = select_region(&events).unwrap();
    assert_eq!(rect, Rect { x: 10, y: 20, width: 20, height: 20 });
}

#[test]
fn drag_up_and_left_yields_min_corner() {
    let events = vec![press(1, 300, 400), release(1, 100, 150)];
    let rect = select_region(&events).unwrap();
    assert_eq!(rect, Rect { x: 100, y: 150, width: 200, height: 250 });
}

#[test]
fn zero_width_drag_yields_nothing() {
    let events = vec![press(1, 50, 10), motion(60, 60), release(1, 50, 90)];
    assert_eq!(select_region(&events), None);
}

#[test]
fn zero_height_drag_yields_nothing() {
    let events = vec![press(1, 50, 10), release(1, 90, 10)];
    assert_eq!(select_region(&events), None);
}

#[test]
fn click_in_place_yields_nothing() {
    let events = vec![press(1, 5, 5), release(1, 5, 5)];
    assert_eq!(select_region(&events), None);
}

#[test]
fn escape_cancels_during_drag() {
    let events = vec![
        press(1, 10, 10),
        motion(90, 90),
        EventKind::KeyPress { keycode: 9 },
        release(1, 200, 200),
    ];
    assert_eq!(select_region(&events), None);
}

#[test]
fn q_key_cancels_before_drag() {
    let events = vec![EventKind::KeyPress { keycode: 24 }, press(1, 0, 0), release(1, 9, 9)];
    assert_eq!(select_region(&events), None);
}

#[test]
fn secondary_button_cancels() {
    let events = vec![press(1, 10, 10), press(3, 10, 10), release(1, 80, 80)];
    assert_eq!(select_region(&events), None);
}

#[test]
fn destroy_notification_cancels() {
    let events = vec![press(1, 10, 10), EventKind::DestroyWindow, release(1, 80, 80)];
    assert_eq!(select_region(&events), None);
}

#[test]
fn other_keys_and_buttons_are_ignored() {
    let events = vec![
        EventKind::KeyPress { keycode: 38 },
        press(2, 1, 1),
        press(1, 10, 10),
        release(2, 70, 70),
        release(1, 30, 35),
    ];
    let rect = select_region(&events).unwrap();
    assert_eq!(rect, Rect { x: 10, y: 10, width: 20, height: 25 });
}

#[test]
fn no_terminal_event_yields_nothing() {
    let events = vec![press(1, 10, 10), motion(50, 50)];
    assert_eq!(select_region(&events), None);
}

#[test]
fn motion_redraws_spanned_rectangle() {
    let dragging = RegionState::Dragging { anchor_x: 10, anchor_y: 10 };
    let (next, cmd) = region_step(dragging, motion(20, 30));
    assert_eq!(next, dragging);
    assert_eq!(cmd, DrawCommand::Redraw { rect: Rect { x: 10, y: 10, width: 10, height: 20 } });
}

#[test]
fn press_anchors_drag() {
    let (next, cmd) = region_step(RegionState::Idle, press(1, 7, 8));
    assert_eq!(next, RegionState::Dragging { anchor_x: 7, anchor_y: 8 });
    assert_eq!(cmd, DrawCommand::Keep);
}
