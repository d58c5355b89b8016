//! Gesture recognition for a two-point capacitive touch panel.

pub mod engine;
pub mod event;
pub mod event_manager;
pub mod fixed;
pub mod laws;
pub mod position;
pub mod trace;
pub mod transform;
pub mod wake;
