//! Verified core of a small real-time renderer: edge-triggered input state,
//! GPU buffer bookkeeping, vertex layouts, pipeline configuration and the
//! frame orchestrator's decisions. The GPU, the window system and all
//! floating-point math stay with the caller, which carries out the actions
//! decided here.
pub mod camera;
pub mod engine;
pub mod input;
pub mod instance_buffer;
pub mod layout;
pub mod logging;
pub mod mesh;
pub mod pipeline;
pub mod renderer;
pub mod uniform_buffer;
