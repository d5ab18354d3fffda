//! The verified core of a free camera with recorded paths: keyframes, the
//! playback state machine, the saved-path format, spline scheduling and the
//! arbitration between the free camera and the game's own cameras.
//!
//! The camera's numbers are binary32. The library holds them as bit
//! patterns, orders them and flips their signs, and leaves every operation
//! that rounds to its host. [`exact`] says what the patterns and the curves
//! mean in exact numbers; [`laws`] says what holds across the camera's
//! transitions.

pub mod app_error;
pub mod battle;
pub mod controls;
pub mod curve;
pub mod event;
pub mod exact;
pub mod field;
pub mod freecam;
pub mod handoff;
pub mod laws;
pub mod node;
pub mod overlay;
pub mod path_file;
pub mod scalar;
