use nova_ui::theme::{
    context_ramp, current_scheme, current_text, default_bg_hex, default_fg_hex, glass_selected_bg,
    glass_selected_shadows, grey, hex_of, lightness, mix, neutral, oklch, parse_hex, system_mono,
    system_sans, wash, white_alpha, ColorScheme, Paint, Platform, Rgb, SchemeMirror, Theme,
    ThemeConfig, ThemePreference, WindowAppearance, BUBBLE_RADIUS, DEFAULT_BG_DARK,
    DEFAULT_FG_DARK, HEADER_HEIGHT, STATUS_STRIP_HEIGHT, WHOLE,
};

fn dark() -> Theme {
    Theme::dark(Platform::Other)
}

fn light() -> Theme {
    Theme::light(Platform::Other)
}

fn custom(scheme: ColorScheme, bg: &str, fg: &str, contrast: i64) -> Theme {
    Theme::custom(scheme, bg, fg, contrast, Platform::Other)
}

fn l(p: Paint) -> u64 {
    lightness(p).unwrap()
}

fn tint(p: Paint) -> (u64, u64) {
    match p {
        Paint::Tint { lightness, alpha } => (lightness, alpha),
        _ => panic!("not a tint"),
    }
}

#[test]
fn neutral_scale_is_ordered() {
    let t = dark();
    assert!(l(t.bg) < l(t.surface));
    assert!(l(t.surface) < l(t.surface_raised));
    assert!(l(t.surface_raised) < l(t.text_faint));
    assert!(l(t.text_faint) < l(t.text_muted));
    assert!(l(t.text_muted) < l(t.text));
    // Monochrome: neutrals carry no saturation.
    for c in [
        t.bg,
        t.surface,
        t.surface_raised,
        t.text,
        t.text_muted,
        t.text_faint,
    ] {
        let anchors = match c {
            Paint::Solid(c) => vec![c],
            Paint::Blend { from, to, .. } => vec![from, to],
            _ => panic!("not an opaque neutral"),
        };
        for a in anchors {
            assert!(a.r == a.g && a.g == a.b);
        }
    }
}

#[test]
fn derived_roles_land_on_the_sampled_tones() {
    let t = dark();
    // The channel that a lightness stands for, rounded.
    let channel = |p: Paint| (l(p) + WHOLE) / (2 * WHOLE);
    assert_eq!(channel(t.surface), 0x0d);
    assert_eq!(channel(t.surface_raised), 0x1e);
    assert_eq!(channel(t.text_muted), 0xa1);
    assert_eq!(channel(t.text_faint), 0x73);
}

#[test]
fn hairlines_are_white_and_washes_are_mid_grey() {
    let t = dark();
    // Hairlines stay white — they only need to read on dark surfaces.
    for c in [t.border, t.border_strong] {
        let (lightness, alpha) = tint(c);
        assert_eq!(lightness, 1000, "hairlines are white");
        assert!(alpha > 0 && alpha < WHOLE / 4, "low alpha, got {}", alpha);
    }
    // Washes are translucent soft-white with enough alpha to read at the
    // glass scrim's brightness ceiling.
    for c in [t.element_hover, t.element_active] {
        let (lightness, alpha) = tint(c);
        assert_eq!(lightness, 920, "washes are soft-white");
        assert!(
            alpha >= 50_000_000 && alpha < 350_000_000,
            "alpha in band, got {}",
            alpha
        );
    }
    assert!(tint(t.border).1 < tint(t.border_strong).1);
    // Hover intentionally equals the active fill (selection differs by
    // its ring, not brightness — user request).
    assert!(tint(t.element_hover).1 <= tint(t.element_active).1);
}

#[test]
fn mixing_stops_at_the_ends() {
    let a = Rgb { r: 0, g: 0, b: 0 };
    let b = Rgb { r: 255, g: 255, b: 255 };
    assert_eq!(mix(a, b, 0), Paint::Solid(a));
    assert_eq!(mix(a, b, WHOLE), Paint::Solid(b));
    assert_eq!(l(mix(a, b, WHOLE / 2)), 255 * WHOLE);
    // Out-of-range parts clamp.
    assert_eq!(mix(a, b, 2 * WHOLE), mix(a, b, WHOLE));
}

#[test]
fn layout_numbers_match_comet() {
    assert_eq!(HEADER_HEIGHT, 44); // h-11
    assert_eq!(STATUS_STRIP_HEIGHT, 24); // h-6
    assert_eq!(BUBBLE_RADIUS, 16);
}

#[test]
fn custom_defaults_reproduce_the_dark_theme() {
    let built = custom(ColorScheme::Dark, "#060606", "#e5e5e5", 100_000);
    let reference = dark();
    assert_eq!(built.scheme, ColorScheme::Dark);
    // Anchor hexes land exactly.
    assert_eq!(built.bg, reference.bg);
    assert_eq!(built.text, reference.text);
    // Derived roles reproduce the pre-theming tones (srgb 13/30/161/115).
    for (name, got, want) in [
        ("surface", built.surface, reference.surface),
        (
            "surface_raised",
            built.surface_raised,
            reference.surface_raised,
        ),
        ("text_muted", built.text_muted, reference.text_muted),
        ("text_faint", built.text_faint, reference.text_faint),
    ] {
        assert_eq!(l(got), l(want), "{name}");
    }
    // Hairlines stay white-pole, washes soft-white-pole in dark.
    assert_eq!(tint(built.border).0, 1000);
    assert_eq!(tint(built.element_hover).0, 920);
    assert_eq!(built, reference);
}

#[test]
fn light_scheme_mirrors_the_ramp() {
    let t = light();
    assert_eq!(t.scheme, ColorScheme::Light);
    // Light ramp: text darker than bg, surfaces between the two and
    // raised surfaces pushed further toward the text pole.
    assert!(l(t.text) < l(t.bg), "dark text on light bg");
    assert!(l(t.text) < l(t.surface) && l(t.surface) < l(t.bg));
    assert!(
        l(t.surface_raised) < l(t.surface),
        "raised is darker in light"
    );
    // Muted/faint sit between text and bg, each closer to bg than the
    // brighter role (in light they're LIGHTER than text, in dark darker).
    let toward_bg = |c: Paint| (l(c) as i128 - l(t.bg) as i128).abs();
    assert!(
        toward_bg(t.text_muted) < toward_bg(t.text),
        "muted is dimmer"
    );
    assert!(toward_bg(t.text_faint) < toward_bg(t.text_muted));
    assert!(toward_bg(t.text_muted) > 0 && toward_bg(t.text_faint) > 0);
    // Hairlines/washes flip to the dark pole.
    assert_eq!(tint(t.border).0, 0);
    assert_eq!(tint(t.element_hover).0, 100);
    // A hairline takes more ink on white.
    assert_eq!(tint(t.border).1, 108_000_000);
    assert_eq!(tint(dark().border).1, 80_000_000);
}

#[test]
fn contrast_zero_flattens_the_ramp() {
    let flat = custom(ColorScheme::Dark, "#060606", "#e5e5e5", 0);
    // No tonal spread: surfaces collapse to bg, secondary text to fg,
    // hairline washes to fully transparent.
    assert_eq!(l(flat.surface), l(flat.bg));
    assert_eq!(l(flat.surface_raised), l(flat.bg));
    assert_eq!(l(flat.text_muted), l(flat.text));
    assert_eq!(l(flat.text_faint), l(flat.text));
    assert_eq!(tint(flat.border).1, 0);
    assert_eq!(tint(flat.element_hover).1, 0);
}

#[test]
fn contrast_is_clamped() {
    let more = custom(ColorScheme::Light, "", "", 250_000);
    assert_eq!(more, light());
    let less = custom(ColorScheme::Light, "", "", -1);
    assert_eq!(less, custom(ColorScheme::Light, "", "", 0));
}

#[test]
fn hex_parsing_and_display_round_trip() {
    for hex in ["#a1b2c3", "#000000", "#ffffff", "#0d0d0d", "#ABCDEF"] {
        let color = parse_hex(hex).unwrap_or_else(|| panic!("parse {hex}"));
        assert_eq!(
            hex_of(color).to_lowercase(),
            hex.to_lowercase(),
            "round-trip"
        );
    }
    assert!(parse_hex("abc").is_none());
    assert!(parse_hex("#12345g").is_none());
    assert!(parse_hex("").is_none());
    assert!(parse_hex("#ffffff00").is_none(), "no 8-digit hex");
    // Scheme defaults parse.
    assert!(parse_hex(default_bg_hex(ColorScheme::Dark)).is_some());
    assert!(parse_hex(default_fg_hex(ColorScheme::Light)).is_some());
}

#[test]
fn hex_texts_are_read_tolerantly() {
    assert_eq!(parse_hex("  ##A1b2C3 "), Some(Rgb { r: 0xa1, g: 0xb2, b: 0xc3 }));
    assert_eq!(parse_hex("a1b2c3"), Some(Rgb { r: 0xa1, g: 0xb2, b: 0xc3 }));
    assert_eq!(parse_hex("é1b2c"), None);
}

#[test]
fn invalid_custom_hexes_fall_back_to_scheme_defaults() {
    let t = custom(ColorScheme::Dark, "not-a-hex", "#zzzzzz", 100_000);
    assert_eq!(t.bg, Paint::Solid(parse_hex(DEFAULT_BG_DARK).unwrap()));
    assert_eq!(t.text, Paint::Solid(parse_hex(DEFAULT_FG_DARK).unwrap()));
}

#[test]
fn preference_resolves_system() {
    let light = ColorScheme::Light;
    let dark = ColorScheme::Dark;
    assert_eq!(ThemePreference::System.resolved(light), light);
    assert_eq!(ThemePreference::System.resolved(dark), dark);
    assert_eq!(ThemePreference::Light.resolved(dark), light);
    assert_eq!(ThemePreference::Dark.resolved(light), dark);
    assert_eq!(ThemePreference::System.label(), "System");
}

#[test]
fn paint_primitives_flip_with_the_scheme_mirror() {
    // Default (Dark) mirrors the pre-theming white washes.
    let mut mirror = SchemeMirror::default();
    assert_eq!(tint(white_alpha(&mirror, 100_000_000)).0, 1000);
    assert_eq!(tint(wash(&mirror, 100_000_000)).0, 920);
    Theme::install(&mut mirror, &light());
    assert_eq!(
        tint(white_alpha(&mirror, 100_000_000)).0,
        0,
        "black hairline in light"
    );
    assert_eq!(
        tint(wash(&mirror, 100_000_000)).0,
        100,
        "soft-black wash in light"
    );
    Theme::install(&mut mirror, &dark());
    assert_eq!(current_scheme(&mirror), ColorScheme::Dark);
    assert_eq!(current_text(&mirror), dark().text);
    assert_eq!(dark().wash(5), wash(&mirror, 5));
}

#[test]
fn the_default_theme_is_dark() {
    assert_eq!(Theme::default().bg, dark().bg);
    assert_eq!(Theme::default().scheme, ColorScheme::Dark);
}

#[test]
fn a_theme_s_wash_is_its_own() {
    let mirror = SchemeMirror::default();
    assert_eq!(tint(light().wash(100_000_000)), (100, 100_000_000));
    assert_eq!(tint(dark().wash(100_000_000)), (920, 100_000_000));
    assert_ne!(light().wash(5), wash(&mirror, 5));
}

#[test]
fn glass_card_mirrors_the_scheme() {
    let dark = dark();
    let light = light();
    // Dark card tone ~#161616; light card is an opaque near-white plate.
    let light_card = light.glass_card(Platform::Other);
    assert_eq!(dark.glass_card(Platform::Other), grey(0x16));
    assert!(l(light_card) > 510 * WHOLE / 10 * 9, "light {}", l(light_card));
    assert_eq!(light_card, light.bg);
    assert_eq!(
        light.glass(Platform::MacOs),
        light.surface,
        "light chrome does not sample wallpaper"
    );
    // Where the platform blurs, dark glass is translucent.
    assert_eq!(
        dark.glass(Platform::MacOs),
        Paint::Veil { color: Rgb { r: 8, g: 8, b: 8 }, alpha: 900_000_000 }
    );
    assert_eq!(
        dark.glass_card(Platform::MacOs),
        Paint::Veil { color: Rgb { r: 0x16, g: 0x16, b: 0x16 }, alpha: 650_000_000 }
    );
    assert_eq!(dark.glass(Platform::Windows), dark.surface);
}

#[test]
fn light_inputs_are_opaque_raised_plates() {
    let dark = dark();
    let light = light();
    assert!(
        tint(dark.input_bg()).1 < WHOLE,
        "dark keeps its translucent lift"
    );
    assert_eq!(light.input_bg(), light.bg);
    assert!(
        matches!(light.input_bg(), Paint::Solid(_)),
        "shadow cannot bleed through the plate"
    );
}

#[test]
fn a_recipe_builds_its_theme() {
    let config = ThemeConfig {
        preference: ThemePreference::System,
        bg_hex: Some("#101010".into()),
        fg_hex: None,
        contrast: 100_000,
        ui_font: "Inter".into(),
        code_font: "Menlo".into(),
    };
    let t = config.build(ColorScheme::Light, Platform::MacOs);
    assert_eq!(t.scheme, ColorScheme::Light);
    assert_eq!(t.bg, Paint::Solid(Rgb { r: 16, g: 16, b: 16 }));
    assert_eq!(t.text, light().text);
    assert_eq!(t.font_sans, "Inter");
    assert_eq!(t.font_mono, "Menlo");
    assert_eq!(t.font_sans_fallback, "Helvetica");
    assert_eq!(config.effective_bg_hex(ColorScheme::Dark), "#101010");
    assert_eq!(config.effective_fg_hex(ColorScheme::Dark), "#e5e5e5");
    assert_eq!(config.effective_fg_hex(ColorScheme::Light), "#161616");
}

#[test]
fn platforms_and_appearances() {
    assert_eq!(system_sans(Platform::Windows), "Segoe UI");
    assert_eq!(system_mono(Platform::Other), "DejaVu Sans Mono");
    assert_eq!(
        ColorScheme::of_appearance(WindowAppearance::VibrantDark),
        ColorScheme::Dark
    );
    assert_eq!(
        ColorScheme::of_appearance(WindowAppearance::VibrantLight),
        ColorScheme::Light
    );
    assert_eq!(ThemePreference::default(), ThemePreference::System);
    assert_eq!(ColorScheme::default(), ColorScheme::Dark);
}

#[test]
fn the_gauge_drains_from_green_to_red() {
    assert_eq!(context_ramp(5), oklch(792, 209, 151_711));
    assert_eq!(context_ramp(4), oklch(841, 238, 128_850));
    assert_eq!(context_ramp(3), oklch(828, 189, 84_429));
    assert_eq!(context_ramp(2), oklch(750, 183, 55_934));
    assert_eq!(context_ramp(1), oklch(704, 191, 22_216));
    assert_eq!(context_ramp(0), context_ramp(9));
    assert_eq!(neutral(145), oklch(145, 0, 0));
}

#[test]
fn selected_rows_have_an_edge() {
    let mirror = SchemeMirror::default();
    assert_eq!(tint(glass_selected_bg(&mirror)), (920, 70_000_000));
    let edges = glass_selected_shadows(&mirror);
    assert_eq!(edges.len(), 1);
    assert_eq!(tint(edges[0].color), (1000, 40_000_000));
    assert_eq!((edges[0].spread, edges[0].blur), (1, 0));
    assert_eq!(dark().terminal_cursor(), (dark().text, 350_000_000));
}
