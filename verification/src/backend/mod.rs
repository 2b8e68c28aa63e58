//! The terminal side: the command stream a frame is flushed as, and the
//! backends that own the frame buffers.

pub mod console;
pub mod frame;
pub mod terminal;

pub use terminal::{TermionFixed, TermionDyn};
