//! Geometry and configuration core of an always-on-top desktop widget:
//! corner snapping, scale-to-size, default placement and the decisions that
//! the window controller makes around them.

pub mod geometry;
pub mod config;
pub mod controller;
