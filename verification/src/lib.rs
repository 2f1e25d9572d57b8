//! Verified core of a small deferred-shading terrain demo: the event bus,
//! the camera's input state machine, the terrain grid topology, the frame
//! planner of the deferred renderer, the frame clock and the console log.

pub mod bus;
pub mod camera;
pub mod colors;
pub mod console;
pub mod debug_info;
pub mod deferred;
pub mod event;
pub mod frame_clock;
pub mod logging;
pub mod renderer;
pub mod scalar;
pub mod skybox;
pub mod system;
pub mod terrain;
