//! A pannable, zoomable image-viewing canvas.
//!
//! The heart of the crate is the viewport transform engine: the stateful
//! mapping between screen space and image space that stays consistent
//! across zoom-to-cursor, drag-to-pan, fit-to-window and double-click
//! reset, frame after frame.
//!
//! All geometry is carried in a fixed-point encoding (millionths of a
//! pixel, millionths of a scale unit), so every operation is exact
//! integer arithmetic with stated rounding, and the interaction laws are
//! proved rather than sampled.

pub mod about;
pub mod app_state;
pub mod canvas;
pub mod fixed;
pub mod geometry;
pub mod laws;
pub mod transform;
