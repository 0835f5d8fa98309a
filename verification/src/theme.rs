//! The theme in use: a configuration for light mode and one for dark mode,
//! and the mode shown.
use vstd::prelude::*;

verus! {

/// The theme's mode.
#[derive(Debug, Clone, Copy, PartialEq, Eq)]
pub enum ThemeMode {
    Light,
    Dark,
}

pub open spec fn toggled_spec(mode: ThemeMode) -> ThemeMode {
    match mode {
        ThemeMode::Light => ThemeMode::Dark,
        ThemeMode::Dark => ThemeMode::Light,
    }
}

/// The mode the light/dark switch changes to: dark from light, light from
/// dark.
pub fn toggle_dark_light(is_dark: bool) -> (r: ThemeMode)
    ensures
        r == (if is_dark { ThemeMode::Light } else { ThemeMode::Dark }),
        r == toggled_spec(if is_dark { ThemeMode::Dark } else { ThemeMode::Light }),
{
    if is_dark {
        ThemeMode::Light
    } else {
        ThemeMode::Dark
    }
}

/// Switching twice gives back the mode one started from.
pub proof fn lemma_toggle_twice(mode: ThemeMode)
    ensures
        toggled_spec(toggled_spec(mode)) == mode,
        toggled_spec(mode) != mode,
{
}

/// The name of the theme applied at start-up.
pub const DEFAULT_THEME_NAME: &'static str = "TruyVanSQL Light";

/// The theme in use. `C` is a theme's configuration.
pub struct ActiveTheme<C> {
    pub light_theme: C,
    pub dark_theme: C,
    pub mode: ThemeMode,
}

impl<C> ActiveTheme<C> {
    /// Applies the theme found by name, with its mode: its configuration
    /// takes the place of that mode's, and that mode is shown. When no theme
    /// of that name was found nothing changes. Returns whether one was.
    pub fn apply_theme(&mut self, found: Option<(C, ThemeMode)>) -> (applied: bool)
        ensures
            applied == found is Some,
            match found {
                Some((config, ThemeMode::Dark)) => final(self).dark_theme == config
                    && final(self).light_theme == old(self).light_theme
                    && final(self).mode == ThemeMode::Dark,
                Some((config, ThemeMode::Light)) => final(self).light_theme == config
                    && final(self).dark_theme == old(self).dark_theme
                    && final(self).mode == ThemeMode::Light,
                None => *final(self) == *old(self),
            },
    {
        match found {
            Some((config, mode)) => {
                match mode {
                    ThemeMode::Dark => self.dark_theme = config,
                    ThemeMode::Light => self.light_theme = config,
                }
                self.mode = mode;
                true
            },
            None => false,
        }
    }

    /// Switches between light and dark mode, keeping both configurations.
    pub fn toggle_dark_light(&mut self)
        ensures
            final(self).mode == toggled_spec(old(self).mode),
            final(self).light_theme == old(self).light_theme,
            final(self).dark_theme == old(self).dark_theme,
    {
        self.mode = match self.mode {
            ThemeMode::Light => ThemeMode::Dark,
            ThemeMode::Dark => ThemeMode::Light,
        };
    }

    pub fn is_dark(&self) -> (r: bool)
        ensures
            r == (self.mode == ThemeMode::Dark),
    {
        match self.mode {
            ThemeMode::Dark => true,
            ThemeMode::Light => false,
        }
    }
}

} // verus!
