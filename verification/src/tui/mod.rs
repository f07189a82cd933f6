//! The terminal interface without the terminal: what the panels hold, what
//! the keys and the background tasks do to them, and what is to be drawn.

pub mod app;
pub mod message;

pub use app::TuiApp;
pub use message::Message;
