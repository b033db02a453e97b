//! The decision logic of a real-time fluid simulation that runs on compute shaders:
//! ping-pong buffer bookkeeping, simulation settings, the interface state machine,
//! and the translation of pointer input into the uniforms of the source-adding pass.
//! The shaders, the rendering and the windowing live in the application around it.
pub mod resources;
pub mod signals;
pub mod ui;
pub mod uniforms;
