//! Persistable theme policy.

use vstd::prelude::*;

verus! {

/// Persistable theme policy; `System` follows the window appearance.
#[derive(Clone, Copy, Debug, PartialEq, Eq, Structural)]
pub enum MullionThemeMode {
    /// Always use the built-in light palette.
    Light,
    /// Always use the built-in dark palette.
    Dark,
    /// Follow the current window appearance.
    System,
}

impl Default for MullionThemeMode {
    /// Following the system appearance is the default.
    fn default() -> (r: Self)
        ensures
            r == MullionThemeMode::System,
    {
        MullionThemeMode::System
    }
}

impl MullionThemeMode {
    /// Whether this policy selects the light palette for a window whose
    /// appearance is light (`true`) or dark (`false`), vibrant variants included.
    pub fn uses_light_palette(self, appearance_is_light: bool) -> (r: bool)
        ensures
            r == match self {
                MullionThemeMode::Light => true,
                MullionThemeMode::Dark => false,
                MullionThemeMode::System => appearance_is_light,
            },
    {
        match self {
            MullionThemeMode::Light => true,
            MullionThemeMode::Dark => false,
            MullionThemeMode::System => appearance_is_light,
        }
    }
}

} // verus!
