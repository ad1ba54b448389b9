//! The capture orchestrator's decisions: which capture mode the flags
//! select, whether a compositing manager is required and present, and
//! which interactive flow (if any) a capture runs.

use vstd::prelude::*;
use crate::errors::Error;
use crate::geometry::Rect;

verus! {

/// A named identifier resolved from the windowing system; resolving one is
/// idempotent and side-effect-free, so equal names give equal atoms.
#[derive(Clone, Copy, Debug, PartialEq, Eq, Structural)]
pub struct Atom(pub u64);

/// How the capture target is chosen.
#[derive(Clone, Copy, Debug, PartialEq, Eq, Structural)]
pub enum CaptureMode {
    /// The whole primary display.
    FullScreen,
    /// A rectangle dragged interactively on the overlay.
    Region,
    /// A window picked interactively by hovering.
    Window,
}

/// What a capture does once its preconditions hold: capture a known
/// rectangle right away, or run one of the interactive flows first.
#[derive(Clone, Copy, Debug, PartialEq, Eq, Structural)]
pub enum CapturePlan {
    /// Capture this rectangle of the root window immediately; no overlay
    /// is ever created.
    Immediate { rect: Rect },
    /// Show the overlay and run the region selector.
    SelectRegion,
    /// Show the overlay and run the window picker.
    PickWindow,
}

/// The mode selected by the two mutually exclusive flags.
pub fn mode_from_flags(region: bool, window: bool) -> (m: CaptureMode)
    requires
        !(region && window),
    ensures
        m is Window <==> window,
        m is Region <==> region,
        m is FullScreen <==> (!region && !window),
{
    if window {
        CaptureMode::Window
    } else if region {
        CaptureMode::Region
    } else {
        CaptureMode::FullScreen
    }
}

/// Whether a compositing manager is active, given the owner reported for
/// its well-known selection: some process owns it exactly when the owner
/// identifier is not zero.
pub fn has_compositor(selection_owner: u64) -> (r: bool)
    ensures
        r == (selection_owner != 0),
{
    selection_owner != 0
}

/// Whether a mode needs the translucent overlay, and with it an active
/// compositing manager.
pub open spec fn needs_compositor(m: CaptureMode) -> bool {
    m is Region || m is Window
}

/// The plan for one capture.
pub open spec fn spec_plan(
    m: CaptureMode,
    selection_owner: u64,
    screen_width: u32,
    screen_height: u32,
) -> Result<CapturePlan, Error> {
    if needs_compositor(m) && selection_owner == 0 {
        Err(Error::CompositorError)
    } else {
        match m {
            CaptureMode::FullScreen => Ok(
                CapturePlan::Immediate {
                    rect: Rect { x: 0, y: 0, width: screen_width, height: screen_height },
                },
            ),
            CaptureMode::Region => Ok(CapturePlan::SelectRegion),
            CaptureMode::Window => Ok(CapturePlan::PickWindow),
        }
    }
}

/// Decide what a capture in the given mode does, before anything is
/// created on the windowing system: full-screen mode captures the whole
/// display immediately, and the interactive modes run only when a
/// compositing manager owns its well-known selection.
pub fn plan_capture(
    m: CaptureMode,
    selection_owner: u64,
    screen_width: u32,
    screen_height: u32,
) -> (r: Result<CapturePlan, Error>)
    ensures
        r == spec_plan(m, selection_owner, screen_width, screen_height),
{
    let compositor = has_compositor(selection_owner);
    match m {
        CaptureMode::FullScreen => Ok(
            CapturePlan::Immediate {
                rect: Rect { x: 0, y: 0, width: screen_width, height: screen_height },
            },
        ),
        CaptureMode::Region => {
            if compositor {
                Ok(CapturePlan::SelectRegion)
            } else {
                Err(Error::CompositorError)
            }
        },
        CaptureMode::Window => {
            if compositor {
                Ok(CapturePlan::PickWindow)
            } else {
                Err(Error::CompositorError)
            }
        },
    }
}

/// The rectangle captured from a picked window: the window's own extent,
/// in the window's local coordinates.
pub fn window_capture_rect(bounds: Rect) -> (r: Rect)
    ensures
        r == (Rect { x: 0, y: 0, width: bounds.width, height: bounds.height }),
{
    Rect { x: 0, y: 0, width: bounds.width, height: bounds.height }
}

/// Law: a full-screen capture is planned for exactly the display's
/// reported extent, immediately and whatever the compositor state; with
/// the raster conversion's contract, a capture of that plan preserves
/// those dimensions.
pub proof fn lemma_fullscreen_plan_is_display_extent(
    selection_owner: u64,
    screen_width: u32,
    screen_height: u32,
)
    ensures
        spec_plan(CaptureMode::FullScreen, selection_owner, screen_width, screen_height) == Ok::<
            CapturePlan,
            Error,
        >(CapturePlan::Immediate {
            rect: Rect { x: 0, y: 0, width: screen_width, height: screen_height },
        }),
{
}

/// Law: when an interactive mode is requested without a compositing
/// manager, the plan is the compositor-missing error, and only a
/// successful plan of an interactive mode ever shows an overlay.
pub proof fn lemma_no_overlay_without_compositor(
    m: CaptureMode,
    screen_width: u32,
    screen_height: u32,
)
    ensures
        needs_compositor(m) ==> spec_plan(m, 0, screen_width, screen_height) == Err::<
            CapturePlan,
            Error,
        >(Error::CompositorError),
        !needs_compositor(m) ==> forall|owner: u64|
            (#[trigger] spec_plan(m, owner, screen_width, screen_height)) matches Ok(p)
                && p is Immediate,
{
}

} // verus!
