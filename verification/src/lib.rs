//! Launcher panel shell: the verified core of a floating quick-launcher
//! window.
//!
//! The library models the one panel window that the shell owns — its
//! conversion from an ordinary window into a floating, non-activating panel,
//! its monitor-aware placement, its lifecycle commands, and the
//! screen-sharing visibility toggle — and carries out the screenshot
//! pipeline: the display edge reports what it captured as plain values,
//! and the library turns that into a PNG data URI over the real encoding
//! crates.

use vstd::prelude::*;

pub mod bootstrap;
pub mod error;
pub mod geometry;
pub mod panel;
pub mod screenshot;
pub mod sharing;

verus! {

/// The well-known label of the single launcher panel window. Every command
/// resolves the panel through this label.
pub const RAYCAST_LABEL: &'static str = "main";

} // verus!
