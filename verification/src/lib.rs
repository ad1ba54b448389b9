//! Core logic of an X11 screenshot utility: selection geometry, the
//! interactive region-selection and window-picking state machines, pixel
//! decomposition into an RGB raster, output-path generation, and the
//! orchestration rules that tie them together.
//!
//! Everything that talks to the windowing system itself (connections,
//! surfaces, grabs, raw events) lives outside this crate; the functions here
//! work on plain values handed in from that boundary.

pub mod errors;
pub mod events;
pub mod geometry;
pub mod orchestrator;
pub mod output;
pub mod overlay;
pub mod picker;
pub mod pixels;
pub mod region;
