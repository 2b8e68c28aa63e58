//! Owned styled text.

pub mod string;
