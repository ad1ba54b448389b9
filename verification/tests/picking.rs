use xscreen::events::EventKind;
use xscreen::geometry::Rect;
use xscreen::overlay::DrawCommand;
use xscreen::picker::{
    eligible_candidates, hit_test, on_active_workspace, pick_window, picker_step, wm_state_visible,
    Candidate, PickerState, WindowInfo,
};

fn cand(id: u64, x: i32, y: i32, width: u32, height: u32) -> Candidate {
    Candidate { id, rect: Rect { x, y, width, height } }
}

#[test]
fn hit_test_picks_topmost_of_overlapping() {
    // Bottom-most first; both contain (50, 50), the later one is on top.
    let cands = vec![cand(10, 0, 0, 100, 100), cand(20, 40, 40, 100, 100)];
    assert_eq!(hit_test(&cands, 50, 50), Some(1));
    // Only the bottom one contains (10, 10).
    assert_eq!(hit_test(&cands, 10, 10), Some(0));
    // Nothing contains (300, 300).
    assert_eq!(hit_test(&cands, 300, 300), None);
}

#[test]
fn hit_test_is_strict_at_edges() {
    let cands = vec![cand(1, 10, 10, 20, 20)];
    assert_eq!(hit_test(&cands, 10, 15), None);
    assert_eq!(hit_test(&cands, 30, 15), None);
    assert_eq!(hit_test(&cands, 15, 10), None);
    assert_eq!(hit_test(&cands, 15, 30), None);
    assert_eq!(hit_test(&cands, 11, 11), Some(0));
    assert_eq!(hit_test(&cands, 29, 29), Some(0));
}

#[test]
fn motion_over_nothing_keeps_highlight() {
    let cands = vec![cand(10, 0, 0, 100, 100)];
    let hovering = PickerState::Hovering { highlight: 77 };
    let (next, cmd) = picker_step(&cands, hovering, EventKind::Motion { x: 500, y: 500 });
    assert_eq!(next, hovering);
    assert_eq!(cmd, DrawCommand::Keep);
}

#[test]
fn motion_highlights_and_redraws_topmost() {
    let cands = vec![cand(10, 0, 0, 100, 100), cand(20, 40, 40, 100, 100)];
    let (next, cmd) = picker_step(
        &cands,
        PickerState::Hovering { highlight: 1 },
        EventKind::Motion { x: 50, y: 50 },
    );
    assert_eq!(next, PickerState::Hovering { highlight: 20 });
    assert_eq!(cmd, DrawCommand::Redraw { rect: Rect { x: 40, y: 40, width: 100, height: 100 } });
}

#[test]
fn click_confirms_highlighted_window() {
    let cands = vec![cand(10, 0, 0, 100, 100), cand(20, 40, 40, 100, 100)];
    let events = vec![
        EventKind::Motion { x: 50, y: 50 },
        EventKind::ButtonPress { button: 1, x: 50, y: 50 },
    ];
    assert_eq!(pick_window(999, &cands, &events), Some(20));
}

#[test]
fn click_without_hover_falls_back_to_root() {
    let cands = vec![cand(10, 0, 0, 100, 100)];
    let events = vec![EventKind::ButtonPress { button: 1, x: 500, y: 500 }];
    assert_eq!(pick_window(999, &cands, &events), Some(999));
}

#[test]
fn cancel_key_aborts_pick() {
    let cands = vec![cand(10, 0, 0, 100, 100)];
    let events = vec![
        EventKind::Motion { x: 50, y: 50 },
        EventKind::KeyPress { keycode: 9 },
        EventKind::ButtonPress { button: 1, x: 50, y: 50 },
    ];
    assert_eq!(pick_window(999, &cands, &events), None);
}

#[test]
fn destroy_aborts_pick() {
    let cands = vec![cand(10, 0, 0, 100, 100)];
    let events = vec![EventKind::DestroyWindow];
    assert_eq!(pick_window(999, &cands, &events), None);
}

#[test]
fn eligible_candidates_keeps_visible_in_order() {
    let infos = vec![
        WindowInfo { id: 1, x: 0, y: 0, width: 10, height: 10, visible: true },
        WindowInfo { id: 2, x: 5, y: 5, width: 10, height: 10, visible: false },
        WindowInfo { id: 3, x: 9, y: 9, width: 10, height: 10, visible: true },
    ];
    let cands = eligible_candidates(&infos);
    assert_eq!(cands.len(), 2);
    assert_eq!(cands[0], cand(1, 0, 0, 10, 10));
    assert_eq!(cands[1], cand(3, 9, 9, 10, 10));
}

#[test]
fn wm_state_decides_visibility() {
    assert!(wm_state_visible(&vec![1, 0]));
    assert!(!wm_state_visible(&vec![3]));
    assert!(!wm_state_visible(&vec![]));
}

#[test]
fn workspace_tag_decides_visibility() {
    assert!(on_active_workspace(Some(2), 2));
    assert!(!on_active_workspace(Some(1), 2));
    assert!(!on_active_workspace(None, 2));
}
