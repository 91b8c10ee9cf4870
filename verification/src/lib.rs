//! Terminal text styling.
//!
//! A style is a set of text-attribute flags (weight, emphasis, underline, ...)
//! together with an optional foreground and background color. A style renders
//! to a single SGR escape sequence (`ESC [ params m`), and a plain style — no
//! flags, no colors — renders to nothing at all.

pub mod codes;
pub mod color;
pub mod render;
pub mod style;

pub use color::Color;
pub use color::PaletteColor;
pub use style::AnsiStyle;
