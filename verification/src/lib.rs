//! Terminal windowing and UI library: layout arithmetic, styled text,
//! cell buffers, widgets and the terminal command stream they are flushed
//! through.

pub mod util;
pub mod layout;
pub mod style;
pub mod render;
pub mod buffer;
pub mod backend;
pub mod widget;
pub mod owned;
pub mod misc;
pub mod text;
