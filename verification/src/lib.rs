//! The frame logic of a scrolling tile viewer: its tile map, the camera that
//! pans across it, where each frame lands on the window, the game actor's
//! decisions and the swapchain loop's decisions.
pub mod area;
pub mod s_render;
pub mod common;
pub mod server;
pub mod texture;
pub mod present;
pub mod device;
