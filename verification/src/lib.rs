//! Automatic time tracking core: classifies system activity, detects
//! window-focus boundaries, and turns both into non-overlapping, persisted
//! time intervals.

pub mod domain;
pub mod settings;
pub mod state_monitor;
pub mod track_item;
pub mod tracker;
pub mod window;
