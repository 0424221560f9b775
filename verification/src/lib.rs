//! Verified core of a minimize-to-tray helper for a tiling window manager.
//!
//! The library models the tray-service lifecycle: the immutable snapshot of
//! the window being managed, the single-fire exit latch that coordinates
//! shutdown, the context-menu layout and its click-event dispatch, the
//! background monitor's verdicts, and the orchestrator's state machine.
//! All window-manager commands are represented as plain data; an unverified
//! shell executes them and feeds the results back in.

pub mod lifecycle;
pub mod menu;
pub mod monitor;
pub mod numfmt;
pub mod port;
pub mod signal;
pub mod snapshot;
pub mod tray;
