//! Decision logic of the full-screen input overlay: what the selection flows
//! ask the overlay to draw, how pointer-motion events are throttled to the
//! display refresh interval, and the teardown discipline that makes the
//! native surface destroy idempotent.

use vstd::prelude::*;
use crate::geometry::Rect;

verus! {

/// What an interactive flow wants drawn on the overlay after an event:
/// either leave the canvas as it is, or clear it and draw one rectangle.
#[derive(Clone, Copy, Debug, PartialEq, Eq, Structural)]
pub enum DrawCommand {
    Keep,
    Redraw { rect: Rect },
}

/// One display refresh at a nominal 60 Hz, in nanoseconds.
pub const REFRESH_INTERVAL_NANOS: u64 = 16_666_666;

/// Gate that forwards at most one pointer-motion event per display refresh
/// interval; all other events pass through immediately. Times are
/// nanoseconds measured from a single monotonic origin (the overlay's
/// creation).
#[derive(Clone, Copy, Debug, PartialEq, Eq, Structural)]
pub struct MotionThrottle {
    pub last_forward_nanos: u64,
}

impl MotionThrottle {
    /// Whether an event observed at `now_nanos` is forwarded to the flow.
    pub open spec fn spec_forwards(self, now_nanos: u64, motion: bool) -> bool {
        !motion || now_nanos - self.last_forward_nanos >= REFRESH_INTERVAL_NANOS
    }

    /// A fresh gate, with the origin of its clock as the last forward time.
    pub fn new() -> (r: MotionThrottle)
        ensures
            r.last_forward_nanos == 0,
    {
        MotionThrottle { last_forward_nanos: 0 }
    }

    /// Observe one event; the result says whether to forward it. A
    /// forwarded event resets the interval; a discarded one does not.
    pub fn observe(&mut self, now_nanos: u64, motion: bool) -> (forward: bool)
        requires
            old(self).last_forward_nanos <= now_nanos,
        ensures
            forward == old(self).spec_forwards(now_nanos, motion),
            forward ==> final(self).last_forward_nanos == now_nanos,
            !forward ==> *final(self) == *old(self),
    {
        if motion && now_nanos - self.last_forward_nanos < REFRESH_INTERVAL_NANOS {
            false
        } else {
            self.last_forward_nanos = now_nanos;
            true
        }
    }
}

/// Law: after a forward at one instant, a motion event is forwarded again
/// only once a full refresh interval has passed, so at most one motion per
/// interval gets through.
pub proof fn lemma_one_motion_per_interval(t1: u64, t2: u64)
    requires
        t1 <= t2,
    ensures
        (MotionThrottle { last_forward_nanos: t1 }).spec_forwards(t2, true) ==> t2 - t1
            >= REFRESH_INTERVAL_NANOS,
{
}

/// Lifecycle of the overlay's native surface.
#[derive(Clone, Copy, Debug, PartialEq, Eq, Structural)]
pub enum OverlayStatus {
    /// The surface exists and this process owns it.
    Active,
    /// The windowing system destroyed the surface out from under the
    /// process; it must not be destroyed again.
    DestroyedExternally,
    /// Teardown already ran; nothing is left to release.
    Released,
}

/// Tracks whether the overlay's surface still has to be destroyed, so that
/// teardown runs its native release exactly once and never on a surface the
/// windowing system already destroyed.
#[derive(Clone, Copy, Debug, PartialEq, Eq, Structural)]
pub struct OverlayLifecycle {
    pub status: OverlayStatus,
}

impl OverlayLifecycle {
    /// The state after a destroy notification is observed.
    pub open spec fn spec_after_destroyed(self) -> OverlayLifecycle {
        if self.status is Active {
            OverlayLifecycle { status: OverlayStatus::DestroyedExternally }
        } else {
            self
        }
    }

    /// The state after teardown, and whether teardown performs the native
    /// ungrab-and-destroy sequence.
    pub open spec fn spec_release(self) -> (OverlayLifecycle, bool) {
        (OverlayLifecycle { status: OverlayStatus::Released }, self.status is Active)
    }

    /// A lifecycle for a freshly created surface.
    pub fn begin() -> (r: OverlayLifecycle)
        ensures
            r.status is Active,
    {
        OverlayLifecycle { status: OverlayStatus::Active }
    }

    /// Record that the surface was destroyed by an external actor.
    pub fn note_destroyed(&mut self)
        ensures
            *final(self) == old(self).spec_after_destroyed(),
    {
        if let OverlayStatus::Active = self.status {
            self.status = OverlayStatus::DestroyedExternally;
        }
    }

    /// Run at the end of the overlay's lifetime, on every exit path. The
    /// result says whether the caller must perform the native
    /// ungrab-and-destroy sequence now.
    pub fn release(&mut self) -> (destroy_now: bool)
        ensures
            (*final(self), destroy_now) == old(self).spec_release(),
    {
        let destroy_now = if let OverlayStatus::Active = self.status {
            true
        } else {
            false
        };
        self.status = OverlayStatus::Released;
        destroy_now
    }
}

/// Law: over any sequence of destroy notifications and teardown calls, the
/// native destroy is performed at most once, and never after the surface
/// was destroyed externally.
pub proof fn lemma_destroy_at_most_once(l: OverlayLifecycle)
    ensures
        !l.spec_release().0.spec_release().1,
        !l.spec_after_destroyed().spec_release().1,
        l.status is DestroyedExternally ==> !l.spec_release().1,
{
}

} // verus!
