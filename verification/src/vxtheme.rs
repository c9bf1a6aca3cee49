//! Theming engine: the active theme.
//!
//! Themes arrive as JSON documents; reading and parsing them happens
//! outside the library, which stores the parsed theme and hands it out.

use vstd::prelude::*;

use vstd::string::StringExecFns;

verus! {

/// A theme: the colors and font the desktop renders with.
#[derive(Debug)]
pub struct Theme {
    /// Primary color, as a CSS color string.
    pub primary_color: String,
    /// Secondary color, as a CSS color string.
    pub secondary_color: String,
    /// Font family list.
    pub font_family: String,
}

impl Clone for Theme {
    /// A clone keeps every field.
    fn clone(&self) -> (r: Self)
        ensures
            r == *self,
    {
        Theme {
            primary_color: self.primary_color.clone(),
            secondary_color: self.secondary_color.clone(),
            font_family: self.font_family.clone(),
        }
    }
}

/// Theming engine state: the theme currently in force.
pub struct VXTheme {
    /// The active theme.
    pub theme: Theme,
}

impl VXTheme {
    /// Build the engine with the default blue/grey theme.
    pub fn new() -> (t: VXTheme)
        ensures
            t.theme.primary_color@ == "#007bff"@,
            t.theme.secondary_color@ == "#6c757d"@,
            t.theme.font_family@ == "Arial, sans-serif"@,
    {
        VXTheme {
            theme: Theme {
                primary_color: String::from_str("#007bff"),
                secondary_color: String::from_str("#6c757d"),
                font_family: String::from_str("Arial, sans-serif"),
            },
        }
    }

    /// Install a theme parsed from a theme document.
    pub fn load_theme(&mut self, theme: Theme)
        ensures
            final(self).theme == theme,
    {
        self.theme = theme;
    }

    /// The theme currently in force.
    pub fn get_theme(&self) -> (r: Theme)
        ensures
            r == self.theme,
    {
        self.theme.clone()
    }
}

} // verus!
