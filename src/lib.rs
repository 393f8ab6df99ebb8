//! Tooltip state machine: per-frame target resolution, activation delay,
//! fast transfer between related targets, dismissal, and show/hide effects.
pub mod config;
pub mod context;
pub mod laws;
pub mod resolve;
