//! Theme selection.

use vstd::prelude::*;
use crate::text::{lowercase, str_eq, to_lowercase};

verus! {

/// The theme setting the user chose.
#[derive(Clone, Copy, Debug, PartialEq, Eq, Structural)]
pub enum ThemeMode {
    Auto,
    Dark,
    Light,
}

/// The colour scheme that is actually painted.
#[derive(Clone, Copy, Debug, PartialEq, Eq, Structural)]
pub enum Appearance {
    Dark,
    Light,
}

impl ThemeMode {
    /// The mode that an already lowercased setting names: `dark` and `light`
    /// name themselves, anything else leaves the choice to the system.
    pub open spec fn named_by(lowered: Seq<char>) -> ThemeMode {
        if lowered == "dark"@ {
            ThemeMode::Dark
        } else if lowered == "light"@ {
            ThemeMode::Light
        } else {
            ThemeMode::Auto
        }
    }

    /// The label shown for a mode.
    pub open spec fn label(self) -> Seq<char> {
        match self {
            ThemeMode::Auto => "Auto"@,
            ThemeMode::Light => "Light"@,
            ThemeMode::Dark => "Dark"@,
        }
    }

    /// The scheme to paint, given what the system prefers where the host can
    /// tell. `Auto` follows the system and falls back to the dark scheme.
    pub open spec fn resolved(self, system_prefers_dark: Option<bool>) -> Appearance {
        match self {
            ThemeMode::Light => Appearance::Light,
            ThemeMode::Dark => Appearance::Dark,
            ThemeMode::Auto => match system_prefers_dark {
                Some(false) => Appearance::Light,
                _ => Appearance::Dark,
            },
        }
    }

    /// Reads a setting that is already in lowercase.
    pub fn from_lowercase(lowered: &str) -> (mode: ThemeMode)
        ensures
            mode == ThemeMode::named_by(lowered@),
    {
        if str_eq(lowered, "dark") {
            ThemeMode::Dark
        } else if str_eq(lowered, "light") {
            ThemeMode::Light
        } else {
            ThemeMode::Auto
        }
    }

    /// Reads a setting without regard to case.
    pub fn from_str(s: &str) -> (mode: ThemeMode)
        ensures
            mode == ThemeMode::named_by(lowercase(s@)),
    {
        let lowered = to_lowercase(s);
        ThemeMode::from_lowercase(lowered.as_str())
    }

    pub fn as_str(&self) -> (label: &'static str)
        ensures
            label@ == self.label(),
    {
        match self {
            ThemeMode::Auto => "Auto",
            ThemeMode::Light => "Light",
            ThemeMode::Dark => "Dark",
        }
    }

    pub fn appearance(&self, system_prefers_dark: Option<bool>) -> (scheme: Appearance)
        ensures
            scheme == self.resolved(system_prefers_dark),
    {
        match self {
            ThemeMode::Light => Appearance::Light,
            ThemeMode::Dark => Appearance::Dark,
            ThemeMode::Auto => match system_prefers_dark {
                Some(false) => Appearance::Light,
                _ => Appearance::Dark,
            },
        }
    }
}

} // verus!
