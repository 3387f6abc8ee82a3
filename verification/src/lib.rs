//! A line-emphasis engine: decides whether a line of text matches a
//! criterion (literal substring or regular expression) and computes the
//! exact rendering of the emphasized output (indent, color directives,
//! and one of four framing modes).

pub mod color;
pub mod context;
pub mod matcher;
pub mod render;
pub mod text;

pub use color::Color;
pub use context::ArgValues;
pub use context::Context;
pub use context::FrameMode;
pub use render::Segment;
