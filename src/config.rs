//! Configuration records and the appearance mode.
use vstd::prelude::*;
use std::collections::HashMap;

verus! {

/// An appearance mode.
#[derive(Debug, Clone, Copy, PartialEq, Eq, Structural)]
pub enum ThemeMode {
    Dark,
    Light,
}

pub open spec fn mode_name(m: ThemeMode) -> Seq<char> {
    match m {
        ThemeMode::Dark => "dark"@,
        ThemeMode::Light => "light"@,
    }
}

impl ThemeMode {
    /// The mode's name as a theme spells it.
    pub fn as_str(&self) -> (r: &'static str)
        ensures
            r@ == mode_name(*self),
    {
        match self {
            ThemeMode::Dark => "dark",
            ThemeMode::Light => "light",
        }
    }

    /// The mode's name as a theme spells it.
    pub fn to_string(&self) -> (r: String)
        ensures
            r@ == mode_name(*self),
    {
        String::from_str(self.as_str())
    }
}

/// One template to render: where it is read, where the result goes, and an
/// optional command to run afterwards.
#[derive(Debug, Clone)]
pub struct ConfigSection {
    pub input_path: String,
    pub output_path: String,
    pub post_hook: Option<String>,
}

/// Named sections.
#[derive(Debug, Clone)]
pub struct ConfigGroup {
    pub sections: HashMap<String, ConfigSection>,
}

/// A section can be processed when both of its paths are given.
pub fn validate_config_section(section: &ConfigSection) -> (r: bool)
    ensures
        r == (section.input_path@.len() > 0 && section.output_path@.len() > 0),
{
    !section.input_path.as_str().is_empty() && !section.output_path.as_str().is_empty()
}

} // verus!
