//! A pixelated window rendered inside a character terminal.
//!
//! The library owns the pixel buffer, the centering and clipping math and the
//! input-snapshot queries, and it proves their contracts.  Every frame is
//! compiled into a sequence of [`compositor::DrawCommand`] values; an
//! unverified shell around the library streams those commands to the actual
//! terminal and feeds input events back in.

pub mod clip;
pub mod color;
pub mod compositor;
pub mod event;
pub mod grid;
pub mod laws;
pub mod window;

pub use color::Color;
pub use event::Event;
pub use event::KeyCode;
pub use event::Modifiers;
pub use window::Window;
