//! The failures of the color pipeline.
use vstd::prelude::*;

verus! {

/// Why a color, a theme or a mode could not be used.
#[derive(Debug, Clone, Copy, PartialEq, Eq, Structural)]
pub enum ThemeError {
    /// A color is not `#` (optional) followed by six hex digits.
    InvalidHex,
    /// The theme has no primary seed color.
    MissingColor,
    /// Neither the requested mode nor `dark` is in the theme.
    ModeUnavailable,
}

/// The description of each failure.
pub open spec fn message_text(e: ThemeError) -> Seq<char> {
    match e {
        ThemeError::InvalidHex => "Invalid hex color format"@,
        ThemeError::MissingColor => "Primary color not found in theme"@,
        ThemeError::ModeUnavailable => "'dark' mode not available in theme and requested mode not found"@,
    }
}

impl ThemeError {
    /// A short human-readable description.
    pub fn message(&self) -> (r: String)
        ensures
            r@ == message_text(*self),
    {
        match self {
            ThemeError::InvalidHex => String::from_str("Invalid hex color format"),
            ThemeError::MissingColor => String::from_str("Primary color not found in theme"),
            ThemeError::ModeUnavailable => String::from_str(
                "'dark' mode not available in theme and requested mode not found",
            ),
        }
    }
}

} // verus!
