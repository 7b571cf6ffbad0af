//! Palette synthesis from a few seed colors, and injection of the palette
//! into text templates.
pub mod color;
pub mod config;
pub mod error;
pub mod format;
pub mod hct;
pub mod hsl;
pub mod luminance;
pub mod palette;
pub mod template;
pub mod text;
pub mod theme;
pub mod workflow;

pub use workflow::process_theme_workflow;
