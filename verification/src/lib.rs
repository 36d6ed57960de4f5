//! Core of a terminal pages-list widget: per-page load state, a tick-driven
//! spinner phase, a single-bookmark highlight invariant, and the selection
//! bookkeeping that the hosting list framework needs.

pub mod list;
pub mod render;
pub mod row;
pub mod state;
pub mod style;
