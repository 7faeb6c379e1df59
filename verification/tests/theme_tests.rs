use breathe::fixed::{HALF, ONE};
use breathe::techniques::PhaseName;
use breathe::theme::{
    blend_color, blend_phase_colors, blend_vibrant_colors, brighten, default_theme,
    get_vibrant_colors, technique_to_phase_colors,
    with_opacity, Color, PhaseColorScheme, PhaseColors, Theme,
};

#[test]
fn dark_theme_colors() {
    let theme = Theme::dark();
    assert_eq!(theme.background, Color::Rgb(10, 22, 40));
    assert_eq!(theme.background_dark, Color::Rgb(5, 11, 20));
    assert_eq!(theme.ui.text_primary, Color::White);
    assert_eq!(theme.ui.accent, Color::Rgb(74, 144, 217));
    assert_eq!(theme.ui.warning, Color::Rgb(201, 162, 39));
    assert_eq!(theme, Theme::default());
    assert_eq!(theme, default_theme());
    assert_eq!(theme.phase_colors, PhaseColorScheme::default());
}

#[test]
fn each_phase_has_its_palette() {
    let theme = default_theme();
    assert_eq!(theme.get_phase_colors(PhaseName::Inhale).primary, Color::Rgb(74, 144, 217));
    assert_eq!(theme.get_phase_colors(PhaseName::Hold).primary, Color::Rgb(201, 162, 39));
    assert_eq!(theme.get_phase_colors(PhaseName::Exhale).primary, Color::Rgb(139, 92, 246));
    assert_eq!(
        theme.get_phase_colors(PhaseName::HoldAfterExhale).primary,
        Color::Rgb(100, 116, 139)
    );
    assert_eq!(theme.get_phase_colors(PhaseName::Inhale).ambient, Color::Rgb(30, 60, 100));
    assert_eq!(theme.get_phase_colors(PhaseName::Hold).core, Color::Rgb(255, 240, 180));
    assert_eq!(theme.get_phase_colors(PhaseName::Exhale).particle, Color::Rgb(200, 170, 255));
    assert_eq!(theme.get_phase_colors(PhaseName::HoldAfterExhale).glow, Color::Rgb(140, 160, 180));
}

#[test]
fn phase_colors_new_keeps_the_order() {
    let c = PhaseColors::new(
        Color::Red,
        Color::Green,
        Color::Blue,
        Color::Cyan,
        Color::Magenta,
        Color::Yellow,
    );
    assert_eq!(c.primary, Color::Red);
    assert_eq!(c.glow, Color::Green);
    assert_eq!(c.text, Color::Blue);
    assert_eq!(c.particle, Color::Cyan);
    assert_eq!(c.core, Color::Magenta);
    assert_eq!(c.ambient, Color::Yellow);
}

#[test]
fn blending_colors() {
    assert_eq!(
        blend_color(Color::Rgb(0, 0, 0), Color::Rgb(255, 255, 255), HALF),
        Color::Rgb(128, 128, 128)
    );
    assert_eq!(blend_color(Color::Rgb(0, 100, 200), Color::Rgb(100, 0, 200), 0), Color::Rgb(0, 100, 200));
    assert_eq!(
        blend_color(Color::Rgb(0, 100, 200), Color::Rgb(100, 0, 200), ONE),
        Color::Rgb(100, 0, 200)
    );
    assert_eq!(
        blend_color(Color::Rgb(0, 100, 200), Color::Rgb(100, 0, 200), 250_000),
        Color::Rgb(25, 75, 200)
    );
    assert_eq!(blend_color(Color::White, Color::Black, 400_000), Color::White);
    assert_eq!(blend_color(Color::White, Color::Black, 600_000), Color::Black);
}

#[test]
fn blending_palettes_blends_every_color() {
    let theme = default_theme();
    let from = theme.get_phase_colors(PhaseName::Inhale);
    let to = theme.get_phase_colors(PhaseName::Hold);
    assert_eq!(blend_phase_colors(from, to, 0), *from);
    assert_eq!(blend_phase_colors(from, to, ONE), *to);
    let mid = blend_phase_colors(from, to, HALF);
    assert_eq!(mid.primary, Color::Rgb(138, 153, 128));
    assert_eq!(mid.glow, Color::Rgb(178, 190, 168));
    assert_eq!(mid.text, Color::Rgb(138, 153, 128));
    assert_eq!(mid.particle, Color::Rgb(203, 210, 188));
    assert_eq!(mid.core, Color::Rgb(218, 230, 218));
    assert_eq!(mid.ambient, Color::Rgb(55, 60, 60));
}

#[test]
fn opacity_scales_the_channels() {
    assert_eq!(with_opacity(Color::Rgb(200, 100, 51), HALF), Color::Rgb(100, 50, 25));
    assert_eq!(with_opacity(Color::Rgb(200, 100, 51), ONE), Color::Rgb(200, 100, 51));
    assert_eq!(with_opacity(Color::Rgb(200, 100, 51), 0), Color::Rgb(0, 0, 0));
    assert_eq!(with_opacity(Color::Rgb(200, 100, 51), 3 * ONE), Color::Rgb(200, 100, 51));
    assert_eq!(with_opacity(Color::Rgb(200, 100, 51), -ONE), Color::Rgb(0, 0, 0));
    assert_eq!(with_opacity(Color::Yellow, HALF), Color::Yellow);
}

#[test]
fn brightening_scales_and_saturates() {
    assert_eq!(brighten(Color::Rgb(100, 200, 10), 1_500_000), Color::Rgb(150, 255, 15));
    assert_eq!(brighten(Color::Rgb(100, 200, 10), ONE), Color::Rgb(100, 200, 10));
    assert_eq!(brighten(Color::Rgb(100, 200, 10), HALF), Color::Rgb(50, 100, 5));
    assert_eq!(brighten(Color::Rgb(100, 200, 10), -ONE), Color::Rgb(0, 0, 0));
    assert_eq!(brighten(Color::Rgb(1, 2, 3), i64::MAX), Color::Rgb(255, 255, 255));
    assert_eq!(brighten(Color::Indexed(7), 2 * ONE), Color::Indexed(7));
}

#[test]
fn palette_from_an_accent_color() {
    let c = technique_to_phase_colors(100, 200, 250);
    assert_eq!(c.primary, Color::Rgb(100, 200, 250));
    assert_eq!(c.text, Color::Rgb(100, 200, 250));
    assert_eq!(c.glow, Color::Rgb(130, 255, 255));
    assert_eq!(c.particle, Color::Rgb(130, 230, 255));
    assert_eq!(c.core, Color::Rgb(178, 228, 253));
    assert_eq!(c.ambient, Color::Rgb(30, 60, 75));
    let dark = technique_to_phase_colors(0, 0, 0);
    assert_eq!(dark.particle, Color::Rgb(50, 70, 100));
    assert_eq!(dark.core, Color::Rgb(128, 128, 128));
}

#[test]
fn vibrant_colors_of_the_phases() {
    assert_eq!(
        get_vibrant_colors(PhaseName::Inhale),
        (Color::Rgb(80, 180, 255), Color::Rgb(150, 220, 255), Color::Rgb(200, 240, 255))
    );
    assert_eq!(
        get_vibrant_colors(PhaseName::Hold),
        (Color::Rgb(255, 200, 50), Color::Rgb(255, 230, 120), Color::Rgb(255, 250, 200))
    );
    assert_eq!(
        get_vibrant_colors(PhaseName::Exhale),
        (Color::Rgb(180, 100, 255), Color::Rgb(210, 160, 255), Color::Rgb(240, 210, 255))
    );
    assert_eq!(
        get_vibrant_colors(PhaseName::HoldAfterExhale),
        (Color::Rgb(120, 160, 200), Color::Rgb(160, 195, 225), Color::Rgb(200, 220, 240))
    );
    assert_eq!(
        blend_vibrant_colors(PhaseName::Inhale, PhaseName::Exhale, 0),
        get_vibrant_colors(PhaseName::Inhale)
    );
    assert_eq!(
        blend_vibrant_colors(PhaseName::Inhale, PhaseName::Exhale, ONE),
        get_vibrant_colors(PhaseName::Exhale)
    );
    assert_eq!(
        blend_vibrant_colors(PhaseName::Inhale, PhaseName::Exhale, HALF),
        (Color::Rgb(130, 140, 255), Color::Rgb(180, 190, 255), Color::Rgb(220, 225, 255))
    );
}
