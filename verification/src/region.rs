//! The region-selection state machine: a pointer drag over the overlay is
//! turned into a rectangle, or into no result when the drag is degenerate
//! or the user cancels.

use vstd::prelude::*;
use crate::events::{EventKind, BUTTON_PRIMARY, BUTTON_SECONDARY, KEYCODE_ESCAPE, KEYCODE_Q};
use crate::geometry::{spec_span_rect, rect_from_points, Rect};
use crate::overlay::DrawCommand;

verus! {

/// State of one region-selection attempt. A terminal state is never left;
/// a fresh selector must be constructed for another attempt.
#[derive(Clone, Copy, Debug, PartialEq, Eq, Structural)]
pub enum RegionState {
    /// Waiting for the primary button to go down.
    Idle,
    /// The primary button is held; the press point is the drag anchor.
    Dragging { anchor_x: i32, anchor_y: i32 },
    /// The drag ended over a rectangle with positive area.
    Done { rect: Rect },
    /// The user cancelled, the drag had zero area, or the overlay was
    /// destroyed externally.
    Cancelled,
}

impl RegionState {
    /// Whether this selection attempt is over.
    pub open spec fn is_terminal(self) -> bool {
        self is Done || self is Cancelled
    }
}

/// Events that cancel a region selection from any state: a recognized
/// cancel key, a secondary-button press, or the overlay's surface being
/// destroyed externally.
pub open spec fn region_cancel_event(e: EventKind) -> bool {
    ||| e.is_cancel_key()
    ||| e matches EventKind::ButtonPress { button, .. } && button == BUTTON_SECONDARY
    ||| e is DestroyWindow
}

/// One transition of the region selector: the next state, and what the
/// overlay should draw.
pub open spec fn spec_region_step(s: RegionState, e: EventKind) -> (RegionState, DrawCommand) {
    if region_cancel_event(e) {
        (RegionState::Cancelled, DrawCommand::Keep)
    } else {
        match s {
            RegionState::Idle => {
                match e {
                    EventKind::ButtonPress { button, x, y } => {
                        if button == BUTTON_PRIMARY {
                            (RegionState::Dragging { anchor_x: x, anchor_y: y }, DrawCommand::Keep)
                        } else {
                            (s, DrawCommand::Keep)
                        }
                    },
                    _ => (s, DrawCommand::Keep),
                }
            },
            RegionState::Dragging { anchor_x, anchor_y } => {
                match e {
                    EventKind::Motion { x, y } => (
                        s,
                        DrawCommand::Redraw { rect: spec_span_rect(anchor_x, anchor_y, x, y) },
                    ),
                    EventKind::ButtonRelease { button, x, y } => {
                        if button == BUTTON_PRIMARY {
                            let rect = spec_span_rect(anchor_x, anchor_y, x, y);
                            if rect.positive_area() {
                                (RegionState::Done { rect }, DrawCommand::Keep)
                            } else {
                                (RegionState::Cancelled, DrawCommand::Keep)
                            }
                        } else {
                            (s, DrawCommand::Keep)
                        }
                    },
                    _ => (s, DrawCommand::Keep),
                }
            },
            _ => (s, DrawCommand::Keep),
        }
    }
}

/// Feed one event to the region selector.
pub fn region_step(s: RegionState, e: EventKind) -> (r: (RegionState, DrawCommand))
    requires
        !s.is_terminal(),
    ensures
        r == spec_region_step(s, e),
{
    let cancel = match e {
        EventKind::KeyPress { keycode } => keycode == KEYCODE_ESCAPE || keycode == KEYCODE_Q,
        EventKind::ButtonPress { button, .. } => button == BUTTON_SECONDARY,
        EventKind::DestroyWindow => true,
        _ => false,
    };
    if cancel {
        return (RegionState::Cancelled, DrawCommand::Keep);
    }
    match s {
        RegionState::Idle => {
            if let EventKind::ButtonPress { button, x, y } = e {
                if button == BUTTON_PRIMARY {
                    return (RegionState::Dragging { anchor_x: x, anchor_y: y }, DrawCommand::Keep);
                }
            }
            (s, DrawCommand::Keep)
        },
        RegionState::Dragging { anchor_x, anchor_y } => {
            match e {
                EventKind::Motion { x, y } => {
                    let rect = rect_from_points(anchor_x, anchor_y, x, y);
                    (s, DrawCommand::Redraw { rect })
                },
                EventKind::ButtonRelease { button, x, y } => {
                    if button == BUTTON_PRIMARY {
                        let rect = rect_from_points(anchor_x, anchor_y, x, y);
                        if rect.width > 0 && rect.height > 0 {
                            (RegionState::Done { rect }, DrawCommand::Keep)
                        } else {
                            (RegionState::Cancelled, DrawCommand::Keep)
                        }
                    } else {
                        (s, DrawCommand::Keep)
                    }
                },
                _ => (s, DrawCommand::Keep),
            }
        },
        _ => (s, DrawCommand::Keep),
    }
}

/// The state after feeding a whole event sequence, stopping at the first
/// terminal state.
pub open spec fn spec_region_run(s: RegionState, events: Seq<EventKind>) -> RegionState
    decreases events.len(),
{
    if s.is_terminal() || events.len() == 0 {
        s
    } else {
        spec_region_run(spec_region_step(s, events[0]).0, events.drop_first())
    }
}

/// The outcome of a whole selection attempt over an event sequence:
/// the selected rectangle, or nothing.
pub open spec fn region_outcome(events: Seq<EventKind>) -> Option<Rect> {
    match spec_region_run(RegionState::Idle, events) {
        RegionState::Done { rect } => Some(rect),
        _ => None,
    }
}

/// Replay a recorded event sequence through the selector. An attempt whose
/// events never reach a terminal state yields nothing, exactly as an
/// interactive attempt that never ends yields nothing.
pub fn select_region(events: &Vec<EventKind>) -> (r: Option<Rect>)
    ensures
        r == region_outcome(events@),
{
    let mut state = RegionState::Idle;
    let mut i: usize = 0;
    proof {
        assert(events@.skip(0) =~= events@);
    }
    while i < events.len()
        invariant
            i <= events.len(),
            !state.is_terminal(),
            spec_region_run(RegionState::Idle, events@) == spec_region_run(
                state,
                events@.skip(i as int),
            ),
        decreases events.len() - i,
    {
        let (next, _cmd) = region_step(state, events[i]);
        proof {
            assert(events@.skip(i as int).drop_first() =~= events@.skip(i as int + 1));
            assert(events@.skip(i as int)[0] == events@[i as int]);
            assert(spec_region_run(state, events@.skip(i as int)) == spec_region_run(
                next,
                events@.skip(i as int + 1),
            ));
        }
        i = i + 1;
        match next {
            RegionState::Done { rect } => {
                proof {
                    assert(spec_region_run(next, events@.skip(i as int)) == next);
                }
                return Some(rect);
            },
            RegionState::Cancelled => {
                proof {
                    assert(spec_region_run(next, events@.skip(i as int)) == next);
                }
                return None;
            },
            _ => {
            },
        }
        state = next;
    }
    proof {
        assert(events@.skip(i as int) =~= Seq::<EventKind>::empty());
    }
    None
}

/// Done states carry rectangles of positive area, and every transition
/// keeps it that way.
pub proof fn lemma_run_keeps_positive_area(s: RegionState, events: Seq<EventKind>)
    requires
        s matches RegionState::Done { rect } ==> rect.positive_area(),
    ensures
        spec_region_run(s, events) matches RegionState::Done { rect } ==> rect.positive_area(),
    decreases events.len(),
{
    if !s.is_terminal() && events.len() > 0 {
        lemma_run_keeps_positive_area(spec_region_step(s, events[0]).0, events.drop_first());
    }
}

/// Law: a rectangle handed out as a selection result always has positive
/// width and height; zero-area selections are never surfaced.
pub proof fn lemma_selection_has_positive_area(events: Seq<EventKind>)
    ensures
        region_outcome(events) matches Some(r) ==> r.positive_area(),
{
    lemma_run_keeps_positive_area(RegionState::Idle, events);
}

/// Whether every event in a sequence is a pointer motion.
pub open spec fn all_motions(es: Seq<EventKind>) -> bool {
    forall|i: int| 0 <= i < es.len() ==> (#[trigger] es[i]) is Motion
}

/// Running the selector over a concatenation is running it over the parts
/// in order.
pub proof fn lemma_region_run_append(s: RegionState, a: Seq<EventKind>, b: Seq<EventKind>)
    ensures
        spec_region_run(s, a + b) == spec_region_run(spec_region_run(s, a), b),
    decreases a.len(),
{
    if s.is_terminal() {
    } else if a.len() == 0 {
        assert(a + b =~= b);
    } else {
        assert((a + b)[0] == a[0]);
        assert((a + b).drop_first() =~= a.drop_first() + b);
        lemma_region_run_append(spec_region_step(s, a[0]).0, a.drop_first(), b);
    }
}

/// Pointer motions redraw the feedback rectangle but never move the drag
/// anchor or end the attempt.
pub proof fn lemma_motions_keep_dragging(ax: i32, ay: i32, ms: Seq<EventKind>)
    requires
        all_motions(ms),
    ensures
        spec_region_run(RegionState::Dragging { anchor_x: ax, anchor_y: ay }, ms) == (
        RegionState::Dragging { anchor_x: ax, anchor_y: ay }),
    decreases ms.len(),
{
    let d = RegionState::Dragging { anchor_x: ax, anchor_y: ay };
    if ms.len() > 0 {
        assert(ms[0] is Motion);
        assert(spec_region_step(d, ms[0]).0 == d);
        assert(all_motions(ms.drop_first())) by {
            assert(forall|i: int|
                0 <= i < ms.drop_first().len() ==> (#[trigger] ms.drop_first()[i]) == ms[i + 1]);
        }
        lemma_motions_keep_dragging(ax, ay, ms.drop_first());
    }
}

/// Feeding a single event is taking a single step.
pub proof fn lemma_region_run_one(s: RegionState, e: EventKind)
    requires
        !s.is_terminal(),
    ensures
        spec_region_run(s, seq![e]) == spec_region_step(s, e).0,
{
    assert(seq![e].drop_first() =~= Seq::<EventKind>::empty());
    assert(seq![e][0] == e);
    let s2 = spec_region_step(s, e).0;
    assert(spec_region_run(s2, Seq::<EventKind>::empty()) == s2);
    assert(spec_region_run(s, seq![e]) == spec_region_run(s2, seq![e].drop_first()));
}

/// Law: a primary-button press at one corner, any number of pointer
/// motions, and a primary-button release at the other corner yield the
/// rectangle spanned by the two corners whenever both coordinates differ,
/// and nothing when the drag spans zero width or zero height.
pub proof fn lemma_press_drag_release(x1: i32, y1: i32, ms: Seq<EventKind>, x2: i32, y2: i32)
    requires
        all_motions(ms),
    ensures
        ({
            let events = seq![
                EventKind::ButtonPress { button: BUTTON_PRIMARY, x: x1, y: y1 },
            ] + ms + seq![EventKind::ButtonRelease { button: BUTTON_PRIMARY, x: x2, y: y2 }];
            &&& (x1 != x2 && y1 != y2) ==> region_outcome(events) == Some(
                spec_span_rect(x1, y1, x2, y2),
            )
            &&& (x1 == x2 || y1 == y2) ==> region_outcome(events) is None
        }),
{
    let press = EventKind::ButtonPress { button: BUTTON_PRIMARY, x: x1, y: y1 };
    let release = EventKind::ButtonRelease { button: BUTTON_PRIMARY, x: x2, y: y2 };
    let d = RegionState::Dragging { anchor_x: x1, anchor_y: y1 };
    lemma_region_run_one(RegionState::Idle, press);
    assert(spec_region_run(RegionState::Idle, seq![press]) == d);
    lemma_region_run_append(RegionState::Idle, seq![press], ms);
    lemma_motions_keep_dragging(x1, y1, ms);
    assert(spec_region_run(RegionState::Idle, seq![press] + ms) == d);
    lemma_region_run_append(RegionState::Idle, seq![press] + ms, seq![release]);
    assert(seq![press] + ms + seq![release] == (seq![press] + ms) + seq![release]);
    lemma_region_run_one(d, release);
    let end = spec_region_step(d, release).0;
    assert(spec_region_run(RegionState::Idle, seq![press] + ms + seq![release]) == end);
    let rect = spec_span_rect(x1, y1, x2, y2);
    assert(rect.width > 0 <==> x1 != x2);
    assert(rect.height > 0 <==> y1 != y2);
}

/// Law: a cancel key, a secondary-button press, or an external destroy at
/// any point before the attempt has ended yields no result, whatever came
/// before or after it.
pub proof fn lemma_cancel_yields_nothing(
    prefix: Seq<EventKind>,
    c: EventKind,
    suffix: Seq<EventKind>,
)
    requires
        region_cancel_event(c),
        !spec_region_run(RegionState::Idle, prefix).is_terminal(),
    ensures
        region_outcome(prefix + seq![c] + suffix) is None,
{
    let s1 = spec_region_run(RegionState::Idle, prefix);
    lemma_region_run_append(RegionState::Idle, prefix, seq![c]);
    lemma_region_run_one(s1, c);
    assert(spec_region_run(s1, seq![c]) == RegionState::Cancelled);
    lemma_region_run_append(RegionState::Idle, prefix + seq![c], suffix);
    assert(prefix + seq![c] + suffix == (prefix + seq![c]) + suffix);
    assert(spec_region_run(RegionState::Cancelled, suffix) == RegionState::Cancelled);
}

} // verus!
