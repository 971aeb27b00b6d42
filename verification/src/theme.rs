//! Light or dark, and the accent colour: how the system's colours become the
//! theme, and the colours the popup and the menu are painted with.

use vstd::prelude::*;

verus! {

/// Whether to paint dark, and the accent colour.
#[derive(Clone, Copy, Debug, PartialEq, Eq)]
pub struct Theme {
    pub dark: bool,
    pub accent_rgb: (u8, u8, u8),
}

/// The colours the system reports, each where it could be read: the
/// background colour and the two accent shades the theme may use.
#[derive(Clone, Copy, Debug, PartialEq, Eq)]
pub struct SystemColors {
    pub background: Option<(u8, u8, u8)>,
    /// The accent shade for dark surfaces (`AccentLight2`).
    pub accent_light2: Option<(u8, u8, u8)>,
    /// The accent shade for light surfaces (`AccentDark1`).
    pub accent_dark1: Option<(u8, u8, u8)>,
}

/// A background whose channels sum to less than 384 is dark.
pub open spec fn is_dark_background(rgb: (u8, u8, u8)) -> bool {
    rgb.0 + rgb.1 + rgb.2 < 384
}

/// The theme: dark after the system background where it is known, else the
/// fallback; the accent is the shade that suits that choice where it is known,
/// else the fallback.  Without system colours the fallbacks stand.
pub open spec fn spec_system_theme(
    fallback_dark: bool,
    fallback_accent: (u8, u8, u8),
    colors: Option<SystemColors>,
) -> Theme {
    match colors {
        None => Theme { dark: fallback_dark, accent_rgb: fallback_accent },
        Some(c) => {
            let dark = match c.background {
                Some(rgb) => is_dark_background(rgb),
                None => fallback_dark,
            };
            let accent = if dark {
                c.accent_light2
            } else {
                c.accent_dark1
            };
            Theme {
                dark,
                accent_rgb: match accent {
                    Some(rgb) => rgb,
                    None => fallback_accent,
                },
            }
        },
    }
}

/// Builds the theme from the system's colours and the fallbacks.
pub fn system_theme(
    fallback_dark: bool,
    fallback_accent: (u8, u8, u8),
    colors: Option<SystemColors>,
) -> (t: Theme)
    ensures
        t == spec_system_theme(fallback_dark, fallback_accent, colors),
{
    let c = match colors {
        None => return Theme { dark: fallback_dark, accent_rgb: fallback_accent },
        Some(c) => c,
    };
    let dark = match c.background {
        Some(rgb) => (rgb.0 as u16) + (rgb.1 as u16) + (rgb.2 as u16) < 384,
        None => fallback_dark,
    };
    let accent = if dark {
        c.accent_light2
    } else {
        c.accent_dark1
    };
    Theme {
        dark,
        accent_rgb: match accent {
            Some(rgb) => rgb,
            None => fallback_accent,
        },
    }
}

/// A colour with 8-bit channels and alpha.
#[derive(Clone, Copy, Debug, PartialEq, Eq, Structural)]
pub struct Rgba {
    pub r: u8,
    pub g: u8,
    pub b: u8,
    pub a: u8,
}

/// A colour from its channels.
pub open spec fn rgba(r: u8, g: u8, b: u8, a: u8) -> Rgba {
    Rgba { r, g, b, a }
}

/// The colours of the usage popup.
#[derive(Clone, Copy, Debug, PartialEq, Eq, Structural)]
pub struct PopupPalette {
    pub text_primary: Rgba,
    pub text_secondary: Rgba,
    pub text_tertiary: Rgba,
    pub surface_fill: Rgba,
    pub surface_stroke: Rgba,
    pub progress_track: Rgba,
    pub accent: Rgba,
    pub critical: Rgba,
}

/// The usage popup's colours for a theme (WinUI's solid surface colours).
pub open spec fn spec_popup_palette(theme: Theme) -> PopupPalette {
    let (r, g, b) = theme.accent_rgb;
    if theme.dark {
        PopupPalette {
            text_primary: rgba(255, 255, 255, 255),
            text_secondary: rgba(255, 255, 255, 0xC5),
            text_tertiary: rgba(255, 255, 255, 0x87),
            surface_fill: rgba(32, 32, 32, 255),
            surface_stroke: rgba(0, 0, 0, 0x33),
            progress_track: rgba(255, 255, 255, 0x8B),
            accent: rgba(r, g, b, 255),
            critical: rgba(255, 153, 164, 255),
        }
    } else {
        PopupPalette {
            text_primary: rgba(0, 0, 0, 0xE4),
            text_secondary: rgba(0, 0, 0, 0x9E),
            text_tertiary: rgba(0, 0, 0, 0x72),
            surface_fill: rgba(243, 243, 243, 255),
            surface_stroke: rgba(0, 0, 0, 0x0F),
            progress_track: rgba(0, 0, 0, 0x72),
            accent: rgba(r, g, b, 255),
            critical: rgba(196, 43, 28, 255),
        }
    }
}

/// The usage popup's colours for a theme.
pub fn popup_palette(theme: Theme) -> (p: PopupPalette)
    ensures
        p == spec_popup_palette(theme),
{
    let (r, g, b) = theme.accent_rgb;
    if theme.dark {
        PopupPalette {
            text_primary: Rgba { r: 255, g: 255, b: 255, a: 255 },
            text_secondary: Rgba { r: 255, g: 255, b: 255, a: 0xC5 },
            text_tertiary: Rgba { r: 255, g: 255, b: 255, a: 0x87 },
            surface_fill: Rgba { r: 32, g: 32, b: 32, a: 255 },
            surface_stroke: Rgba { r: 0, g: 0, b: 0, a: 0x33 },
            progress_track: Rgba { r: 255, g: 255, b: 255, a: 0x8B },
            accent: Rgba { r, g, b, a: 255 },
            critical: Rgba { r: 255, g: 153, b: 164, a: 255 },
        }
    } else {
        PopupPalette {
            text_primary: Rgba { r: 0, g: 0, b: 0, a: 0xE4 },
            text_secondary: Rgba { r: 0, g: 0, b: 0, a: 0x9E },
            text_tertiary: Rgba { r: 0, g: 0, b: 0, a: 0x72 },
            surface_fill: Rgba { r: 243, g: 243, b: 243, a: 255 },
            surface_stroke: Rgba { r: 0, g: 0, b: 0, a: 0x0F },
            progress_track: Rgba { r: 0, g: 0, b: 0, a: 0x72 },
            accent: Rgba { r, g, b, a: 255 },
            critical: Rgba { r: 196, g: 43, b: 28, a: 255 },
        }
    }
}

/// The colours of the tray menu.
#[derive(Clone, Copy, Debug, PartialEq, Eq, Structural)]
pub struct MenuPalette {
    pub primary: Rgba,
    pub secondary: Rgba,
    pub tertiary: Rgba,
    pub surface: Rgba,
    pub stroke: Rgba,
    pub hover: Rgba,
    pub accent: Rgba,
}

/// The tray menu's colours for a theme.
pub open spec fn spec_menu_palette(theme: Theme) -> MenuPalette {
    let (r, g, b) = theme.accent_rgb;
    if theme.dark {
        MenuPalette {
            primary: rgba(255, 255, 255, 255),
            secondary: rgba(255, 255, 255, 0xC5),
            tertiary: rgba(255, 255, 255, 0x87),
            surface: rgba(32, 32, 32, 255),
            stroke: rgba(0, 0, 0, 0x33),
            hover: rgba(255, 255, 255, 0x0F),
            accent: rgba(r, g, b, 255),
        }
    } else {
        MenuPalette {
            primary: rgba(0, 0, 0, 0xE4),
            secondary: rgba(0, 0, 0, 0x9E),
            tertiary: rgba(0, 0, 0, 0x72),
            surface: rgba(243, 243, 243, 255),
            stroke: rgba(0, 0, 0, 0x0F),
            hover: rgba(0, 0, 0, 0x09),
            accent: rgba(r, g, b, 255),
        }
    }
}

/// The tray menu's colours for a theme.
pub fn menu_palette(theme: Theme) -> (p: MenuPalette)
    ensures
        p == spec_menu_palette(theme),
{
    let (r, g, b) = theme.accent_rgb;
    if theme.dark {
        MenuPalette {
            primary: Rgba { r: 255, g: 255, b: 255, a: 255 },
            secondary: Rgba { r: 255, g: 255, b: 255, a: 0xC5 },
            tertiary: Rgba { r: 255, g: 255, b: 255, a: 0x87 },
            surface: Rgba { r: 32, g: 32, b: 32, a: 255 },
            stroke: Rgba { r: 0, g: 0, b: 0, a: 0x33 },
            hover: Rgba { r: 255, g: 255, b: 255, a: 0x0F },
            accent: Rgba { r, g, b, a: 255 },
        }
    } else {
        MenuPalette {
            primary: Rgba { r: 0, g: 0, b: 0, a: 0xE4 },
            secondary: Rgba { r: 0, g: 0, b: 0, a: 0x9E },
            tertiary: Rgba { r: 0, g: 0, b: 0, a: 0x72 },
            surface: Rgba { r: 243, g: 243, b: 243, a: 255 },
            stroke: Rgba { r: 0, g: 0, b: 0, a: 0x0F },
            hover: Rgba { r: 0, g: 0, b: 0, a: 0x09 },
            accent: Rgba { r, g, b, a: 255 },
        }
    }
}

} // verus!
