//! Colors of the visualizer: the palette of each phase and how two
//! palettes are blended.

use vstd::prelude::*;
use crate::animation::{color_between, lerp_color};
use crate::fixed::{fx_unit, unit, ONE};
use crate::techniques::PhaseName;

verus! {

/// A terminal color: a named one, a palette index, or red, green and blue.
#[derive(Debug, Clone, Copy, PartialEq, Eq, Structural)]
pub enum Color {
    Reset,
    Black,
    Red,
    Green,
    Yellow,
    Blue,
    Magenta,
    Cyan,
    Gray,
    DarkGray,
    LightRed,
    LightGreen,
    LightYellow,
    LightBlue,
    LightMagenta,
    LightCyan,
    White,
    Rgb(u8, u8, u8),
    Indexed(u8),
}

/// The colors of one phase.
#[derive(Debug, Clone, Copy, PartialEq, Eq, Structural)]
pub struct PhaseColors {
    /// Main color of the phase.
    pub primary: Color,
    /// Outer glow.
    pub glow: Color,
    /// Text labels.
    pub text: Color,
    /// Particles.
    pub particle: Color,
    /// Inner core glow.
    pub core: Color,
    /// Background ambience.
    pub ambient: Color,
}

impl PhaseColors {
    pub fn new(
        primary: Color,
        glow: Color,
        text: Color,
        particle: Color,
        core: Color,
        ambient: Color,
    ) -> (colors: Self)
        ensures
            colors == (PhaseColors { primary, glow, text, particle, core, ambient }),
    {
        Self { primary, glow, text, particle, core, ambient }
    }
}

/// The palette of each of the four phases.
#[derive(Debug, Clone, Copy, PartialEq, Eq, Structural)]
pub struct PhaseColorScheme {
    pub inhale: PhaseColors,
    pub hold: PhaseColors,
    pub exhale: PhaseColors,
    pub hold_empty: PhaseColors,
}

/// Colors of the text and frames around the visualizer.
#[derive(Debug, Clone, Copy, PartialEq, Eq, Structural)]
pub struct UiColors {
    pub text_primary: Color,
    pub text_secondary: Color,
    pub text_muted: Color,
    pub accent: Color,
    pub border: Color,
    pub success: Color,
    pub warning: Color,
}

/// The colors of the whole application.
#[derive(Debug, Clone, Copy, PartialEq, Eq, Structural)]
pub struct Theme {
    pub background: Color,
    pub background_dark: Color,
    pub phase_colors: PhaseColorScheme,
    pub ui: UiColors,
}

/// Cool blues for inhaling, gold for holding, violet for exhaling and
/// slate for resting.
pub open spec fn standard_scheme() -> PhaseColorScheme {
    PhaseColorScheme {
        inhale: PhaseColors {
            primary: Color::Rgb(74, 144, 217),
            glow: Color::Rgb(100, 180, 255),
            text: Color::Rgb(74, 144, 217),
            particle: Color::Rgb(150, 200, 255),
            core: Color::Rgb(180, 220, 255),
            ambient: Color::Rgb(30, 60, 100),
        },
        hold: PhaseColors {
            primary: Color::Rgb(201, 162, 39),
            glow: Color::Rgb(255, 200, 80),
            text: Color::Rgb(201, 162, 39),
            particle: Color::Rgb(255, 220, 120),
            core: Color::Rgb(255, 240, 180),
            ambient: Color::Rgb(80, 60, 20),
        },
        exhale: PhaseColors {
            primary: Color::Rgb(139, 92, 246),
            glow: Color::Rgb(180, 140, 255),
            text: Color::Rgb(139, 92, 246),
            particle: Color::Rgb(200, 170, 255),
            core: Color::Rgb(220, 200, 255),
            ambient: Color::Rgb(50, 30, 80),
        },
        hold_empty: PhaseColors {
            primary: Color::Rgb(100, 116, 139),
            glow: Color::Rgb(140, 160, 180),
            text: Color::Rgb(100, 116, 139),
            particle: Color::Rgb(160, 180, 200),
            core: Color::Rgb(180, 200, 220),
            ambient: Color::Rgb(30, 40, 50),
        },
    }
}

/// The dark theme.
pub open spec fn dark_theme() -> Theme {
    Theme {
        background: Color::Rgb(10, 22, 40),
        background_dark: Color::Rgb(5, 11, 20),
        phase_colors: standard_scheme(),
        ui: UiColors {
            text_primary: Color::White,
            text_secondary: Color::Rgb(148, 163, 184),
            text_muted: Color::Rgb(100, 116, 139),
            accent: Color::Rgb(74, 144, 217),
            border: Color::Rgb(30, 41, 59),
            success: Color::Rgb(34, 197, 94),
            warning: Color::Rgb(201, 162, 39),
        },
    }
}

impl Default for PhaseColorScheme {
    fn default() -> (scheme: Self)
        ensures
            scheme == standard_scheme(),
    {
        Self {
            inhale: PhaseColors::new(
                Color::Rgb(74, 144, 217),
                Color::Rgb(100, 180, 255),
                Color::Rgb(74, 144, 217),
                Color::Rgb(150, 200, 255),
                Color::Rgb(180, 220, 255),
                Color::Rgb(30, 60, 100),
            ),
            hold: PhaseColors::new(
                Color::Rgb(201, 162, 39),
                Color::Rgb(255, 200, 80),
                Color::Rgb(201, 162, 39),
                Color::Rgb(255, 220, 120),
                Color::Rgb(255, 240, 180),
                Color::Rgb(80, 60, 20),
            ),
            exhale: PhaseColors::new(
                Color::Rgb(139, 92, 246),
                Color::Rgb(180, 140, 255),
                Color::Rgb(139, 92, 246),
                Color::Rgb(200, 170, 255),
                Color::Rgb(220, 200, 255),
                Color::Rgb(50, 30, 80),
            ),
            hold_empty: PhaseColors::new(
                Color::Rgb(100, 116, 139),
                Color::Rgb(140, 160, 180),
                Color::Rgb(100, 116, 139),
                Color::Rgb(160, 180, 200),
                Color::Rgb(180, 200, 220),
                Color::Rgb(30, 40, 50),
            ),
        }
    }
}

impl Default for Theme {
    fn default() -> (theme: Self)
        ensures
            theme == dark_theme(),
    {
        Self::dark()
    }
}

impl Theme {
    /// The dark theme, the only one there is.
    pub fn dark() -> (theme: Self)
        ensures
            theme == dark_theme(),
    {
        Self {
            background: Color::Rgb(10, 22, 40),
            background_dark: Color::Rgb(5, 11, 20),
            phase_colors: PhaseColorScheme::default(),
            ui: UiColors {
                text_primary: Color::White,
                text_secondary: Color::Rgb(148, 163, 184),
                text_muted: Color::Rgb(100, 116, 139),
                accent: Color::Rgb(74, 144, 217),
                border: Color::Rgb(30, 41, 59),
                success: Color::Rgb(34, 197, 94),
                warning: Color::Rgb(201, 162, 39),
            },
        }
    }

    /// The palette that this theme gives to `phase`.
    pub open spec fn palette(&self, phase: PhaseName) -> PhaseColors {
        match phase {
            PhaseName::Inhale => self.phase_colors.inhale,
            PhaseName::Hold => self.phase_colors.hold,
            PhaseName::Exhale => self.phase_colors.exhale,
            PhaseName::HoldAfterExhale => self.phase_colors.hold_empty,
        }
    }

    /// The palette of a phase.
    pub fn get_phase_colors(&self, phase: PhaseName) -> (colors: &PhaseColors)
        ensures
            *colors == self.palette(phase),
    {
        match phase {
            PhaseName::Inhale => &self.phase_colors.inhale,
            PhaseName::Hold => &self.phase_colors.hold,
            PhaseName::Exhale => &self.phase_colors.exhale,
            PhaseName::HoldAfterExhale => &self.phase_colors.hold_empty,
        }
    }
}

/// Two palettes blended color by color.
pub open spec fn palette_between(from: PhaseColors, to: PhaseColors, t: i64) -> PhaseColors {
    PhaseColors {
        primary: color_between(from.primary, to.primary, t),
        glow: color_between(from.glow, to.glow, t),
        text: color_between(from.text, to.text, t),
        particle: color_between(from.particle, to.particle, t),
        core: color_between(from.core, to.core, t),
        ambient: color_between(from.ambient, to.ambient, t),
    }
}

/// Blends two palettes: each color the share `t` of the way from `from`
/// to `to`.
pub fn blend_phase_colors(from: &PhaseColors, to: &PhaseColors, t: i64) -> (colors: PhaseColors)
    ensures
        colors == palette_between(*from, *to, t),
{
    PhaseColors {
        primary: blend_color(from.primary, to.primary, t),
        glow: blend_color(from.glow, to.glow, t),
        text: blend_color(from.text, to.text, t),
        particle: blend_color(from.particle, to.particle, t),
        core: blend_color(from.core, to.core, t),
        ambient: blend_color(from.ambient, to.ambient, t),
    }
}

/// Blends two colors. Only colors given as red, green and blue are mixed;
/// of any other pair the first is kept below one half and the second
/// taken from there on.
pub fn blend_color(from: Color, to: Color, t: i64) -> (color: Color)
    ensures
        color == color_between(from, to, t),
{
    lerp_color(from, to, t)
}

/// `channel` times `factor`, the fraction dropped.
pub open spec fn scaled_channel(channel: u8, factor: i64) -> int {
    (channel * factor) / (ONE as int)
}

/// A color dimmed to the share `opacity` of its brightness, `opacity`
/// held between zero and one. Named colors are left as they are.
pub open spec fn dimmed(color: Color, opacity: i64) -> Color {
    match color {
        Color::Rgb(r, g, b) => Color::Rgb(
            scaled_channel(r, unit(opacity)) as u8,
            scaled_channel(g, unit(opacity)) as u8,
            scaled_channel(b, unit(opacity)) as u8,
        ),
        _ => color,
    }
}

fn scale_channel(channel: u8, factor: i64) -> (r: u8)
    requires
        0 <= factor <= ONE,
    ensures
        r == scaled_channel(channel, factor),
{
    proof {
        assert(0 <= channel * factor <= 255 * 1_000_000) by (nonlinear_arith)
            requires
                0 <= channel <= 255,
                0 <= factor <= 1_000_000,
        ;
    }
    let wide: i64 = channel as i64 * factor;
    (wide / 1_000_000) as u8
}

/// Applies an opacity to a color by scaling its red, green and blue.
pub fn with_opacity(color: Color, opacity: i64) -> (out: Color)
    ensures
        out == dimmed(color, opacity),
{
    match color {
        Color::Rgb(r, g, b) => {
            let opacity = fx_unit(opacity);
            Color::Rgb(
                scale_channel(r, opacity),
                scale_channel(g, opacity),
                scale_channel(b, opacity),
            )
        },
        _ => color,
    }
}

/// `channel` times `factor`, the fraction dropped, held in a byte.
pub open spec fn boosted_channel(channel: u8, factor: i64) -> int {
    if factor <= 0 {
        0
    } else if (channel * factor) / (ONE as int) > 255 {
        255
    } else {
        (channel * factor) / (ONE as int)
    }
}

/// A color with its red, green and blue multiplied by `factor`. Named
/// colors are left as they are.
pub open spec fn brightened(color: Color, factor: i64) -> Color {
    match color {
        Color::Rgb(r, g, b) => Color::Rgb(
            boosted_channel(r, factor) as u8,
            boosted_channel(g, factor) as u8,
            boosted_channel(b, factor) as u8,
        ),
        _ => color,
    }
}

fn boost_channel(channel: u8, factor: i64) -> (r: u8)
    ensures
        r == boosted_channel(channel, factor),
{
    if factor <= 0 {
        return 0;
    }
    proof {
        assert(0 <= channel * factor <= 255 * factor) by (nonlinear_arith)
            requires
                0 <= channel <= 255,
                0 < factor,
        ;
    }
    let wide: i128 = channel as i128 * factor as i128;
    let scaled: i128 = wide / 1_000_000;
    if scaled > 255 {
        255
    } else {
        scaled as u8
    }
}

/// Brightens a color: a factor of one leaves it, a larger one lightens it.
pub fn brighten(color: Color, factor: i64) -> (out: Color)
    ensures
        out == brightened(color, factor),
{
    match color {
        Color::Rgb(r, g, b) => Color::Rgb(
            boost_channel(r, factor),
            boost_channel(g, factor),
            boost_channel(b, factor),
        ),
        _ => color,
    }
}

/// `channel * tenths / 10 + lift`, held at 255.
pub open spec fn tinted_channel(channel: u8, tenths: int, lift: int) -> int {
    if (channel * tenths) / 10 + lift > 255 {
        255
    } else {
        (channel * tenths) / 10 + lift
    }
}

/// The palette made from one accent color: the accent itself for the main
/// color and the text, 1.3 times it for the glow, 0.8 times it plus a
/// blue-leaning lift for the particles, half of it plus 128 for the core
/// and 0.3 times it for the ambience.
pub open spec fn accent_palette(r: u8, g: u8, b: u8) -> PhaseColors {
    PhaseColors {
        primary: Color::Rgb(r, g, b),
        glow: Color::Rgb(
            tinted_channel(r, 13, 0) as u8,
            tinted_channel(g, 13, 0) as u8,
            tinted_channel(b, 13, 0) as u8,
        ),
        text: Color::Rgb(r, g, b),
        particle: Color::Rgb(
            tinted_channel(r, 8, 50) as u8,
            tinted_channel(g, 8, 70) as u8,
            tinted_channel(b, 8, 100) as u8,
        ),
        core: Color::Rgb(
            tinted_channel(r, 5, 128) as u8,
            tinted_channel(g, 5, 128) as u8,
            tinted_channel(b, 5, 128) as u8,
        ),
        ambient: Color::Rgb(
            tinted_channel(r, 3, 0) as u8,
            tinted_channel(g, 3, 0) as u8,
            tinted_channel(b, 3, 0) as u8,
        ),
    }
}

fn tint_channel(channel: u8, tenths: u32, lift: u32) -> (r: u8)
    requires
        tenths <= 20,
        lift <= 255,
    ensures
        r == tinted_channel(channel, tenths as int, lift as int),
{
    proof {
        assert(0 <= channel * tenths <= 255 * 20) by (nonlinear_arith)
            requires
                0 <= channel <= 255,
                0 <= tenths <= 20,
        ;
    }
    let value: u32 = (channel as u32 * tenths) / 10 + lift;
    if value > 255 {
        255
    } else {
        value as u8
    }
}

/// Derives a palette from the accent color of a technique.
pub fn technique_to_phase_colors(r: u8, g: u8, b: u8) -> (colors: PhaseColors)
    ensures
        colors == accent_palette(r, g, b),
{
    PhaseColors {
        primary: Color::Rgb(r, g, b),
        glow: Color::Rgb(tint_channel(r, 13, 0), tint_channel(g, 13, 0), tint_channel(b, 13, 0)),
        text: Color::Rgb(r, g, b),
        particle: Color::Rgb(
            tint_channel(r, 8, 50),
            tint_channel(g, 8, 70),
            tint_channel(b, 8, 100),
        ),
        core: Color::Rgb(
            tint_channel(r, 5, 128),
            tint_channel(g, 5, 128),
            tint_channel(b, 5, 128),
        ),
        ambient: Color::Rgb(tint_channel(r, 3, 0), tint_channel(g, 3, 0), tint_channel(b, 3, 0)),
    }
}

/// The theme in use.
pub fn default_theme() -> (theme: Theme)
    ensures
        theme == dark_theme(),
{
    Theme::dark()
}

/// The bright colors that the full-screen visualizer draws a phase with:
/// the main color, the glow and the core.
pub open spec fn vibrant(phase: PhaseName) -> (Color, Color, Color) {
    match phase {
        PhaseName::Inhale => (
            Color::Rgb(80, 180, 255),
            Color::Rgb(150, 220, 255),
            Color::Rgb(200, 240, 255),
        ),
        PhaseName::Hold => (
            Color::Rgb(255, 200, 50),
            Color::Rgb(255, 230, 120),
            Color::Rgb(255, 250, 200),
        ),
        PhaseName::Exhale => (
            Color::Rgb(180, 100, 255),
            Color::Rgb(210, 160, 255),
            Color::Rgb(240, 210, 255),
        ),
        PhaseName::HoldAfterExhale => (
            Color::Rgb(120, 160, 200),
            Color::Rgb(160, 195, 225),
            Color::Rgb(200, 220, 240),
        ),
    }
}

/// The bright colors of two phases blended color by color.
pub open spec fn vibrant_between(from: PhaseName, to: PhaseName, t: i64) -> (Color, Color, Color) {
    (
        color_between(vibrant(from).0, vibrant(to).0, t),
        color_between(vibrant(from).1, vibrant(to).1, t),
        color_between(vibrant(from).2, vibrant(to).2, t),
    )
}

/// The bright colors of a phase: sky blue for inhaling, gold for holding,
/// purple for exhaling and steel blue for resting.
pub fn get_vibrant_colors(phase: PhaseName) -> (colors: (Color, Color, Color))
    ensures
        colors == vibrant(phase),
{
    match phase {
        PhaseName::Inhale => (
            Color::Rgb(80, 180, 255),
            Color::Rgb(150, 220, 255),
            Color::Rgb(200, 240, 255),
        ),
        PhaseName::Hold => (
            Color::Rgb(255, 200, 50),
            Color::Rgb(255, 230, 120),
            Color::Rgb(255, 250, 200),
        ),
        PhaseName::Exhale => (
            Color::Rgb(180, 100, 255),
            Color::Rgb(210, 160, 255),
            Color::Rgb(240, 210, 255),
        ),
        PhaseName::HoldAfterExhale => (
            Color::Rgb(120, 160, 200),
            Color::Rgb(160, 195, 225),
            Color::Rgb(200, 220, 240),
        ),
    }
}

/// Blends the bright colors of two phases.
pub fn blend_vibrant_colors(from_phase: PhaseName, to_phase: PhaseName, t: i64) -> (colors: (
    Color,
    Color,
    Color,
))
    ensures
        colors == vibrant_between(from_phase, to_phase, t),
{
    let (from_primary, from_glow, from_core) = get_vibrant_colors(from_phase);
    let (to_primary, to_glow, to_core) = get_vibrant_colors(to_phase);
    (
        blend_color(from_primary, to_primary, t),
        blend_color(from_glow, to_glow, t),
        blend_color(from_core, to_core, t),
    )
}

} // verus!
