//! A verified model of an interactive Mandelbrot viewer's state.
//!
//! The view state (center point, zoom, screen size) lives on a fixed-point
//! integer grid; key presses pan and zoom it, and a small state machine
//! drives the render loop until a quit signal arrives.

pub mod frame;
pub mod laws;
pub mod view;

pub use frame::Event;
pub use frame::Phase;
pub use frame::RenderLoop;
pub use view::handle_input;
pub use view::Key;
pub use view::ViewState;
