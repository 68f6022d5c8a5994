//! Layers of the sample game that hold no floating-point state.
pub mod debug_overlay;
pub mod sample_layer;
pub mod controls;
