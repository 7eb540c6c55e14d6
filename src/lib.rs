//! Immediate-mode custom widgets: a range slider and a toggle switch that
//! compute their own layout, hit-testing, state changes and paint commands
//! against an explicit UI context.
pub mod geometry;
pub mod pointer;
pub mod slider;
pub mod style;
pub mod toggle;
pub mod ui;
