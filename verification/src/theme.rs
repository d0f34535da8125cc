//! The two colour palettes of the dashboard.
use vstd::prelude::*;
use crate::state::Theme;
use crate::text::text_eq;

verus! {

/// A 24-bit colour.
#[derive(Debug, Clone, Copy, PartialEq, Eq, Structural)]
pub struct Rgb {
    pub r: u8,
    pub g: u8,
    pub b: u8,
}

/// The colour `(r, g, b)`.
pub open spec fn rgb(r: u8, g: u8, b: u8) -> Rgb {
    Rgb { r, g, b }
}

/// The colours every part of the dashboard is drawn in.
#[derive(Debug, Clone, Copy, PartialEq, Eq, Structural)]
pub struct ThemeColors {
    pub bg: Rgb,
    pub surface: Rgb,
    pub nav_bg: Rgb,
    pub panel_border: Rgb,
    pub divider: Rgb,
    pub text: Rgb,
    pub text_muted: Rgb,
    pub text_faint: Rgb,
    pub nav_key: Rgb,
    pub dl_primary: Rgb,
    pub dl_dim: Rgb,
    pub ul_primary: Rgb,
    pub ul_dim: Rgb,
    pub accent_green: Rgb,
    pub accent_yellow: Rgb,
    pub accent_red: Rgb,
    pub accent_teal: Rgb,
    pub pill_active_bg: Rgb,
    pub pill_done_fg: Rgb,
    pub pill_done_bg: Rgb,
}

/// The dark palette.
pub open spec fn dark_palette() -> ThemeColors {
    ThemeColors {
        bg: rgb(13, 12, 22),
        surface: rgb(30, 28, 48),
        nav_bg: rgb(22, 20, 39),
        panel_border: rgb(118, 108, 226),
        divider: rgb(92, 88, 128),
        text: rgb(235, 235, 245),
        text_muted: rgb(184, 180, 205),
        text_faint: rgb(146, 143, 174),
        nav_key: rgb(255, 210, 80),
        dl_primary: rgb(244, 152, 68),
        dl_dim: rgb(132, 82, 38),
        ul_primary: rgb(102, 184, 248),
        ul_dim: rgb(58, 107, 156),
        accent_green: rgb(80, 220, 130),
        accent_yellow: rgb(245, 205, 70),
        accent_red: rgb(235, 85, 80),
        accent_teal: rgb(65, 215, 195),
        pill_active_bg: rgb(210, 110, 25),
        pill_done_fg: rgb(13, 12, 22),
        pill_done_bg: rgb(60, 195, 100),
    }
}

/// The light palette.
pub open spec fn light_palette() -> ThemeColors {
    ThemeColors {
        bg: rgb(248, 247, 255),
        surface: rgb(232, 230, 248),
        nav_bg: rgb(236, 234, 247),
        panel_border: rgb(74, 68, 186),
        divider: rgb(132, 126, 174),
        text: rgb(18, 15, 38),
        text_muted: rgb(70, 66, 102),
        text_faint: rgb(92, 88, 128),
        nav_key: rgb(155, 80, 0),
        dl_primary: rgb(182, 86, 12),
        dl_dim: rgb(168, 129, 93),
        ul_primary: rgb(22, 86, 180),
        ul_dim: rgb(116, 150, 198),
        accent_green: rgb(25, 150, 70),
        accent_yellow: rgb(175, 120, 0),
        accent_red: rgb(185, 35, 35),
        accent_teal: rgb(0, 140, 125),
        pill_active_bg: rgb(195, 95, 15),
        pill_done_fg: rgb(248, 247, 255),
        pill_done_bg: rgb(25, 150, 70),
    }
}

/// Halfway between two colours, channel by channel (rounded down).
pub open spec fn blend(a: Rgb, b: Rgb) -> Rgb {
    Rgb {
        r: ((a.r + b.r) / 2) as u8,
        g: ((a.g + b.g) / 2) as u8,
        b: ((a.b + b.b) / 2) as u8,
    }
}

/// The colour of a letter grade: green for A, yellow-green (halfway between
/// the green and the yellow accents) for B, yellow for C, the download
/// orange for D and red for anything else.
pub open spec fn grade_colour(c: ThemeColors, grade: Seq<char>) -> Rgb {
    if grade == "A"@ {
        c.accent_green
    } else if grade == "B"@ {
        blend(c.accent_green, c.accent_yellow)
    } else if grade == "C"@ {
        c.accent_yellow
    } else if grade == "D"@ {
        c.dl_primary
    } else {
        c.accent_red
    }
}

/// Halfway between two colours, channel by channel (rounded down).
pub fn mix(a: Rgb, b: Rgb) -> (r: Rgb)
    ensures
        r == blend(a, b),
{
    Rgb {
        r: ((a.r as u16 + b.r as u16) / 2) as u8,
        g: ((a.g as u16 + b.g as u16) / 2) as u8,
        b: ((a.b as u16 + b.b as u16) / 2) as u8,
    }
}

impl ThemeColors {
    /// The palette of a theme.
    pub fn for_theme(theme: &Theme) -> (r: Self)
        ensures
            *theme is Dark ==> r == dark_palette(),
            *theme is Light ==> r == light_palette(),
    {
        match theme {
            Theme::Dark => ThemeColors {
                bg: Rgb { r: 13, g: 12, b: 22 },
                surface: Rgb { r: 30, g: 28, b: 48 },
                nav_bg: Rgb { r: 22, g: 20, b: 39 },
                panel_border: Rgb { r: 118, g: 108, b: 226 },
                divider: Rgb { r: 92, g: 88, b: 128 },
                text: Rgb { r: 235, g: 235, b: 245 },
                text_muted: Rgb { r: 184, g: 180, b: 205 },
                text_faint: Rgb { r: 146, g: 143, b: 174 },
                nav_key: Rgb { r: 255, g: 210, b: 80 },
                dl_primary: Rgb { r: 244, g: 152, b: 68 },
                dl_dim: Rgb { r: 132, g: 82, b: 38 },
                ul_primary: Rgb { r: 102, g: 184, b: 248 },
                ul_dim: Rgb { r: 58, g: 107, b: 156 },
                accent_green: Rgb { r: 80, g: 220, b: 130 },
                accent_yellow: Rgb { r: 245, g: 205, b: 70 },
                accent_red: Rgb { r: 235, g: 85, b: 80 },
                accent_teal: Rgb { r: 65, g: 215, b: 195 },
                pill_active_bg: Rgb { r: 210, g: 110, b: 25 },
                pill_done_fg: Rgb { r: 13, g: 12, b: 22 },
                pill_done_bg: Rgb { r: 60, g: 195, b: 100 },
            },
            Theme::Light => ThemeColors {
                bg: Rgb { r: 248, g: 247, b: 255 },
                surface: Rgb { r: 232, g: 230, b: 248 },
                nav_bg: Rgb { r: 236, g: 234, b: 247 },
                panel_border: Rgb { r: 74, g: 68, b: 186 },
                divider: Rgb { r: 132, g: 126, b: 174 },
                text: Rgb { r: 18, g: 15, b: 38 },
                text_muted: Rgb { r: 70, g: 66, b: 102 },
                text_faint: Rgb { r: 92, g: 88, b: 128 },
                nav_key: Rgb { r: 155, g: 80, b: 0 },
                dl_primary: Rgb { r: 182, g: 86, b: 12 },
                dl_dim: Rgb { r: 168, g: 129, b: 93 },
                ul_primary: Rgb { r: 22, g: 86, b: 180 },
                ul_dim: Rgb { r: 116, g: 150, b: 198 },
                accent_green: Rgb { r: 25, g: 150, b: 70 },
                accent_yellow: Rgb { r: 175, g: 120, b: 0 },
                accent_red: Rgb { r: 185, g: 35, b: 35 },
                accent_teal: Rgb { r: 0, g: 140, b: 125 },
                pill_active_bg: Rgb { r: 195, g: 95, b: 15 },
                pill_done_fg: Rgb { r: 248, g: 247, b: 255 },
                pill_done_bg: Rgb { r: 25, g: 150, b: 70 },
            },
        }
    }

    /// The colour downloads are drawn in.
    pub fn download_color(&self) -> (r: Rgb)
        ensures
            r == self.dl_primary,
    {
        self.dl_primary
    }

    /// The colour uploads are drawn in.
    pub fn upload_color(&self) -> (r: Rgb)
        ensures
            r == self.ul_primary,
    {
        self.ul_primary
    }

    /// The colour a letter grade is drawn in.
    pub fn quality_color(&self, grade: &str) -> (r: Rgb)
        ensures
            r == grade_colour(*self, grade@),
    {
        if text_eq(grade, "A") {
            self.accent_green
        } else if text_eq(grade, "B") {
            mix(self.accent_green, self.accent_yellow)
        } else if text_eq(grade, "C") {
            self.accent_yellow
        } else if text_eq(grade, "D") {
            self.dl_primary
        } else {
            self.accent_red
        }
    }
}

} // verus!
