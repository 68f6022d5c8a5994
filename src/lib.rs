//! Event propagation, layer dispatch and frame planning for a small 2D engine.
//!
//! Everything in this crate is plain data and decision logic: the platform window,
//! the GPU device and the floating-point camera math are driven by the embedding
//! program, which hands platform input to [`events::mapper::map_event`], feeds the
//! resulting events to an [`application::Application`], and performs the frame
//! commands that [`renderer::frame::FramePlanner`] produces.
pub mod input;
pub mod events;
pub mod layers;
pub mod renderer;
pub mod window;
pub mod application;
pub mod sample_game;
pub mod gameobjects;
