//! The window-picking flow: assembling the eligible candidate windows in
//! stacking order, hit-testing the cursor against their screen-space
//! bounds, and the hover/confirm state machine.

use vstd::prelude::*;
use crate::events::{EventKind, BUTTON_PRIMARY, KEYCODE_ESCAPE, KEYCODE_Q};
use crate::geometry::Rect;
use crate::overlay::DrawCommand;

verus! {

/// A window eligible for picking: its surface identifier and its resolved
/// screen-space bounding rectangle. Candidates are kept in stacking order,
/// bottom-most first, so a later candidate is rendered on top of an
/// earlier one.
#[derive(Clone, Copy, Debug, PartialEq, Eq, Structural)]
pub struct Candidate {
    pub id: u64,
    pub rect: Rect,
}

/// What the two-level window-tree walk reports about one second-level
/// window, before eligibility filtering: its identifier, its bounds
/// already translated to screen coordinates, and whether the
/// externally-defined visibility predicate accepted it.
#[derive(Clone, Copy, Debug, PartialEq, Eq, Structural)]
pub struct WindowInfo {
    pub id: u64,
    pub x: i32,
    pub y: i32,
    pub width: u32,
    pub height: u32,
    pub visible: bool,
}

impl WindowInfo {
    /// The candidate this window contributes when it is eligible.
    pub open spec fn spec_candidate(self) -> Candidate {
        Candidate {
            id: self.id,
            rect: Rect { x: self.x, y: self.y, width: self.width, height: self.height },
        }
    }
}

/// The candidates contributed by a window list, in the same order,
/// keeping only the visible ones.
pub open spec fn spec_eligible(infos: Seq<WindowInfo>) -> Seq<Candidate>
    decreases infos.len(),
{
    if infos.len() == 0 {
        Seq::empty()
    } else if infos.last().visible {
        spec_eligible(infos.drop_last()) + seq![infos.last().spec_candidate()]
    } else {
        spec_eligible(infos.drop_last())
    }
}

/// Filter the walked windows down to the pickable candidates, preserving
/// stacking order.
pub fn eligible_candidates(infos: &Vec<WindowInfo>) -> (r: Vec<Candidate>)
    ensures
        r@ == spec_eligible(infos@),
{
    let mut r: Vec<Candidate> = Vec::new();
    let mut i: usize = 0;
    proof {
        assert(infos@.take(0) =~= Seq::<WindowInfo>::empty());
    }
    while i < infos.len()
        invariant
            i <= infos.len(),
            r@ == spec_eligible(infos@.take(i as int)),
        decreases infos.len() - i,
    {
        let info = infos[i];
        proof {
            assert(infos@.take(i as int + 1).drop_last() =~= infos@.take(i as int));
            assert(infos@.take(i as int + 1).last() == infos@[i as int]);
        }
        if info.visible {
            let rect = Rect { x: info.x, y: info.y, width: info.width, height: info.height };
            r.push(Candidate { id: info.id, rect });
        }
        i = i + 1;
    }
    proof {
        assert(infos@.take(infos@.len() as int) =~= infos@);
    }
    r
}

/// Decode the windowing system's mapped/iconified state property: a window
/// is in the normal (visible) state exactly when the property is present
/// and its first word is 1.
pub fn wm_state_visible(prop: &Vec<u32>) -> (r: bool)
    ensures
        r == (prop@.len() > 0 && prop@[0] == 1),
{
    prop.len() > 0 && prop[0] == 1
}

/// The workspace-tag form of the visibility predicate: a window is visible
/// exactly when it carries a desktop tag equal to the active workspace.
pub fn on_active_workspace(desktop: Option<u32>, workspace: u32) -> (r: bool)
    ensures
        r == (desktop matches Some(d) && d == workspace),
{
    match desktop {
        Some(d) => d == workspace,
        None => false,
    }
}

/// The index of the topmost candidate whose rectangle contains the point:
/// the last containing one in stacking order, or nothing when no
/// rectangle contains the point.
pub open spec fn topmost_hit(cands: Seq<Candidate>, px: int, py: int) -> Option<int>
    decreases cands.len(),
{
    if cands.len() == 0 {
        None
    } else if cands.last().rect.spec_contains(px, py) {
        Some(cands.len() - 1)
    } else {
        topmost_hit(cands.drop_last(), px, py)
    }
}

/// Law: the hit index is a containing candidate with no containing
/// candidate above it, and it is absent exactly when no candidate
/// contains the point.
pub proof fn lemma_topmost_hit_is_topmost(cands: Seq<Candidate>, px: int, py: int)
    ensures
        topmost_hit(cands, px, py) matches Some(i) ==> {
            &&& 0 <= i < cands.len()
            &&& cands[i].rect.spec_contains(px, py)
            &&& forall|j: int| i < j < cands.len() ==> !(#[trigger] cands[j]).rect.spec_contains(
                px,
                py,
            )
        },
        topmost_hit(cands, px, py) is None ==> forall|j: int|
            0 <= j < cands.len() ==> !(#[trigger] cands[j]).rect.spec_contains(px, py),
    decreases cands.len(),
{
    if cands.len() > 0 && !cands.last().rect.spec_contains(px, py) {
        lemma_topmost_hit_is_topmost(cands.drop_last(), px, py);
        assert(forall|j: int|
            0 <= j < cands.len() - 1 ==> (#[trigger] cands[j]) == cands.drop_last()[j]);
    }
}

/// Hit-test the cursor against all candidates, topmost first.
pub fn hit_test(cands: &Vec<Candidate>, px: i32, py: i32) -> (r: Option<usize>)
    ensures
        r matches Some(i) ==> i < cands@.len() && topmost_hit(cands@, px as int, py as int)
            == Some(i as int),
        r is None ==> topmost_hit(cands@, px as int, py as int) is None,
{
    let mut j: usize = cands.len();
    proof {
        assert(cands@.take(cands@.len() as int) =~= cands@);
    }
    while j > 0
        invariant
            j <= cands.len(),
            topmost_hit(cands@, px as int, py as int) == topmost_hit(
                cands@.take(j as int),
                px as int,
                py as int,
            ),
        decreases j,
    {
        proof {
            assert(cands@.take(j as int).drop_last() =~= cands@.take(j as int - 1));
            assert(cands@.take(j as int).last() == cands@[j as int - 1]);
        }
        if cands[j - 1].rect.contains(px, py) {
            return Some(j - 1);
        }
        j = j - 1;
    }
    None
}

/// State of one window-picking attempt. As with region selection, a
/// terminal state is never left.
#[derive(Clone, Copy, Debug, PartialEq, Eq, Structural)]
pub enum PickerState {
    /// The currently highlighted window; before anything was ever
    /// highlighted this is the root window, the confirmed fallback when
    /// the user clicks without hovering over any candidate.
    Hovering { highlight: u64 },
    /// The user confirmed the highlighted window.
    Done { choice: u64 },
    /// The user cancelled, or the overlay was destroyed externally.
    Cancelled,
}

impl PickerState {
    /// Whether this picking attempt is over.
    pub open spec fn is_terminal(self) -> bool {
        self is Done || self is Cancelled
    }
}

/// Events that abort a window pick: a recognized cancel key or the
/// overlay's surface being destroyed externally.
pub open spec fn picker_cancel_event(e: EventKind) -> bool {
    e.is_cancel_key() || e is DestroyWindow
}

/// One transition of the window picker: the next state, and what the
/// overlay should draw. Pointer motion re-highlights the topmost
/// candidate under the cursor and leaves the highlight unchanged when the
/// cursor is over none.
pub open spec fn spec_picker_step(cands: Seq<Candidate>, s: PickerState, e: EventKind) -> (
    PickerState,
    DrawCommand,
) {
    if picker_cancel_event(e) {
        (PickerState::Cancelled, DrawCommand::Keep)
    } else {
        match s {
            PickerState::Hovering { highlight } => {
                match e {
                    EventKind::Motion { x, y } => {
                        match topmost_hit(cands, x as int, y as int) {
                            Some(i) => (
                                PickerState::Hovering { highlight: cands[i].id },
                                DrawCommand::Redraw { rect: cands[i].rect },
                            ),
                            None => (s, DrawCommand::Keep),
                        }
                    },
                    EventKind::ButtonPress { button, .. } => {
                        if button == BUTTON_PRIMARY {
                            (PickerState::Done { choice: highlight }, DrawCommand::Keep)
                        } else {
                            (s, DrawCommand::Keep)
                        }
                    },
                    _ => (s, DrawCommand::Keep),
                }
            },
            _ => (s, DrawCommand::Keep),
        }
    }
}

/// Feed one event to the window picker.
pub fn picker_step(cands: &Vec<Candidate>, s: PickerState, e: EventKind) -> (r: (
    PickerState,
    DrawCommand,
))
    requires
        !s.is_terminal(),
    ensures
        r == spec_picker_step(cands@, s, e),
{
    let cancel = match e {
        EventKind::KeyPress { keycode } => keycode == KEYCODE_ESCAPE || keycode == KEYCODE_Q,
        EventKind::DestroyWindow => true,
        _ => false,
    };
    if cancel {
        return (PickerState::Cancelled, DrawCommand::Keep);
    }
    match s {
        PickerState::Hovering { highlight } => {
            match e {
                EventKind::Motion { x, y } => {
                    match hit_test(cands, x, y) {
                        Some(i) => {
                            let c = cands[i];
                            (
                                PickerState::Hovering { highlight: c.id },
                                DrawCommand::Redraw { rect: c.rect },
                            )
                        },
                        None => (s, DrawCommand::Keep),
                    }
                },
                EventKind::ButtonPress { button, .. } => {
                    if button == BUTTON_PRIMARY {
                        (PickerState::Done { choice: highlight }, DrawCommand::Keep)
                    } else {
                        (s, DrawCommand::Keep)
                    }
                },
                _ => (s, DrawCommand::Keep),
            }
        },
        _ => (s, DrawCommand::Keep),
    }
}

/// The state after feeding a whole event sequence, stopping at the first
/// terminal state.
pub open spec fn spec_picker_run(
    cands: Seq<Candidate>,
    s: PickerState,
    events: Seq<EventKind>,
) -> PickerState
    decreases events.len(),
{
    if s.is_terminal() || events.len() == 0 {
        s
    } else {
        spec_picker_run(cands, spec_picker_step(cands, s, events[0]).0, events.drop_first())
    }
}

/// The outcome of a whole picking attempt that starts with the root
/// window as the fallback highlight: the confirmed window, or nothing.
pub open spec fn picker_outcome(
    root: u64,
    cands: Seq<Candidate>,
    events: Seq<EventKind>,
) -> Option<u64> {
    match spec_picker_run(cands, PickerState::Hovering { highlight: root }, events) {
        PickerState::Done { choice } => Some(choice),
        _ => None,
    }
}

/// Replay a recorded event sequence through the picker.
pub fn pick_window(root: u64, cands: &Vec<Candidate>, events: &Vec<EventKind>) -> (r: Option<u64>)
    ensures
        r == picker_outcome(root, cands@, events@),
{
    let mut state = PickerState::Hovering { highlight: root };
    let mut i: usize = 0;
    proof {
        assert(events@.skip(0) =~= events@);
    }
    while i < events.len()
        invariant
            i <= events.len(),
            !state.is_terminal(),
            spec_picker_run(cands@, PickerState::Hovering { highlight: root }, events@)
                == spec_picker_run(cands@, state, events@.skip(i as int)),
        decreases events.len() - i,
    {
        let (next, _cmd) = picker_step(cands, state, events[i]);
        proof {
            assert(events@.skip(i as int).drop_first() =~= events@.skip(i as int + 1));
            assert(events@.skip(i as int)[0] == events@[i as int]);
            assert(spec_picker_run(cands@, state, events@.skip(i as int)) == spec_picker_run(
                cands@,
                next,
                events@.skip(i as int + 1),
            ));
        }
        i = i + 1;
        match next {
            PickerState::Done { choice } => {
                proof {
                    assert(spec_picker_run(cands@, next, events@.skip(i as int)) == next);
                }
                return Some(choice);
            },
            PickerState::Cancelled => {
                proof {
                    assert(spec_picker_run(cands@, next, events@.skip(i as int)) == next);
                }
                return None;
            },
            _ => {
            },
        }
        state = next;
    }
    proof {
        assert(events@.skip(i as int) =~= Seq::<EventKind>::empty());
    }
    None
}

/// Feeding a single event is taking a single step.
pub proof fn lemma_picker_run_one(cands: Seq<Candidate>, s: PickerState, e: EventKind)
    requires
        !s.is_terminal(),
    ensures
        spec_picker_run(cands, s, seq![e]) == spec_picker_step(cands, s, e).0,
{
    assert(seq![e].drop_first() =~= Seq::<EventKind>::empty());
    assert(seq![e][0] == e);
    let s2 = spec_picker_step(cands, s, e).0;
    assert(spec_picker_run(cands, s2, Seq::<EventKind>::empty()) == s2);
    assert(spec_picker_run(cands, s, seq![e]) == spec_picker_run(cands, s2, seq![e].drop_first()));
}

/// Law: moving the pointer to a point and confirming with the primary
/// button picks the topmost candidate containing that point, and falls
/// back to the root window when no candidate contains it.
pub proof fn lemma_hover_then_click(root: u64, cands: Seq<Candidate>, x: i32, y: i32)
    ensures
        ({
            let events = seq![
                EventKind::Motion { x, y },
                EventKind::ButtonPress { button: BUTTON_PRIMARY, x, y },
            ];
            &&& topmost_hit(cands, x as int, y as int) matches Some(i) ==> picker_outcome(
                root,
                cands,
                events,
            ) == Some(cands[i].id)
            &&& topmost_hit(cands, x as int, y as int) is None ==> picker_outcome(
                root,
                cands,
                events,
            ) == Some(root)
        }),
{
    let hover = EventKind::Motion { x, y };
    let click = EventKind::ButtonPress { button: BUTTON_PRIMARY, x, y };
    let s0 = PickerState::Hovering { highlight: root };
    let s1 = spec_picker_step(cands, s0, hover).0;
    assert(seq![hover, click].drop_first() =~= seq![click]);
    assert(spec_picker_run(cands, s0, seq![hover, click]) == spec_picker_run(
        cands,
        s1,
        seq![click],
    ));
    lemma_picker_run_one(cands, s1, click);
}

/// Law: on pointer motion the picker highlights the topmost candidate
/// containing the cursor; when no candidate contains it, the highlight
/// keeps its previous value.
pub proof fn lemma_motion_highlights_topmost(
    cands: Seq<Candidate>,
    highlight: u64,
    x: i32,
    y: i32,
)
    ensures
        ({
            let s = PickerState::Hovering { highlight };
            let e = EventKind::Motion { x, y };
            let next = spec_picker_step(cands, s, e).0;
            &&& topmost_hit(cands, x as int, y as int) matches Some(i) ==> {
                &&& next == (PickerState::Hovering { highlight: cands[i].id })
                &&& cands[i].rect.spec_contains(x as int, y as int)
                &&& forall|j: int| i < j < cands.len() ==> !(#[trigger] cands[j]).rect.spec_contains(
                    x as int,
                    y as int,
                )
            }
            &&& topmost_hit(cands, x as int, y as int) is None ==> next == s
        }),
{
    lemma_topmost_hit_is_topmost(cands, x as int, y as int);
}

} // verus!
