//! Core logic of a small real-time rendering demo: a fixed grid of meshes
//! drawn every frame under one directional light whose color bounces between
//! black and white.
//!
//! The graphics backend (window, buffers, shaders, draw calls) lives outside
//! this crate; what is verified here is the per-frame bookkeeping the render
//! loop performs: the animated light color, the frames-per-second counter,
//! the close-request state machine, and the placement of the mesh grid.
//!
//! Fractional quantities (color channels, world-space offsets) are held in
//! fixed-point integers so that every update is exact; the render loop
//! converts them to the backend's floating-point types at the boundary.

pub mod color;
pub mod events;
pub mod fps;
pub mod frame;
pub mod grid;

pub use color::AnimatedColor;
pub use color::Channel;
pub use events::LoopState;
pub use events::WindowEvent;
pub use fps::FpsCounter;
pub use frame::FrameState;
