//! Verified core of a hovering window selector for a tiling compositor.
//!
//! The library models the pure logic of the selector: the snapshot indexer
//! that turns a window/monitor listing into monitor-relative regions, the
//! per-monitor overlay surface state machine, pointer hit-testing, the
//! session controller, and the window-rule text generation.  All display
//! I/O is left to a thin unverified driver that feeds events in and carries
//! actions out.

pub mod buffer_surface;
pub mod cli;
pub mod controller;
pub mod geometry;
pub mod hit_test;
pub mod hyprland_config;
pub mod indexer;
pub mod mask;
pub mod protocols;
pub mod window_select;
