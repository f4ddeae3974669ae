//! Geometry, rendering plans and input dispatch for a terminal "now playing" panel.

pub mod config;
pub mod event_core;
pub mod geometry;
pub mod input;
pub mod player;
pub mod render;
pub mod terminal;
pub mod text;
