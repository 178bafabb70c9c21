//! A minimal graphics-application scaffold: settings, a game window over the
//! native windowing layer, and the render loop's decisions — when to exit,
//! when to redraw, what surface extent to configure the swapchain from, and
//! in what order the GPU objects are torn down. The GPU submission and the
//! platform event loop themselves live with the binary around this library.

pub mod global_state;
pub mod renderer;
pub mod run;
pub mod settings;
pub mod types;
pub mod window;
