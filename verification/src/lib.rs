//! Curve model behind a pointer-acceleration tuning tool: evaluation of the
//! sensitivity curve, its characteristic points, gap-aware sampling and axis
//! labels, all over fixed-point numbers.

pub mod fixed;
pub mod param;
pub mod curve;
pub mod control;
pub mod sampler;
pub mod labels;
pub mod graph;
pub mod gui;
pub mod inputspeed;
pub mod laws;
pub mod theme;
